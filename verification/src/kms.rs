use vstd::prelude::*;

use crate::error::KeyManagementError;

verus! {

/// The key-authority capability: wrap a data-encryption key under a named
/// master key, and unwrap a previously produced token back to the exact
/// original bytes.
///
/// Implementations are unconstrained in how they source or store master
/// keys. Both operations are idempotent and side-effect-free from the
/// caller's perspective, so repeat calls with the same inputs may be issued
/// freely. A key authority must keep the round trip intact: a token produced
/// by `wrap_key(k, id)` must unwrap under the same `id` to exactly `k` for
/// the lifetime of that master key. The interface does not itself enforce
/// that invariant, but an implementation must never return wrong bytes as if
/// valid: any inability to recover the exact original is an error.
pub trait KmsClient: Send + Sync {
    /// Wrap raw key bytes under the master key named by
    /// `master_key_identifier`, producing an opaque token whose encoding is
    /// owned entirely by the key authority. Fails with [`KeyManagementError`]
    /// when the identifier is unknown, access is denied, or the authority is
    /// unreachable.
    fn wrap_key(&self, key_bytes: &[u8], master_key_identifier: &str) -> (r: Result<
        String,
        KeyManagementError,
    >)
        ensures
            r matches Err(e) ==> e is General,
    ;

    /// Recover the exact key bytes that were wrapped into `wrapped_key`
    /// under the same identifier. Fails with [`KeyManagementError`] when the
    /// token is malformed, the identifier mismatches, or access is denied;
    /// it never returns wrong bytes as a best-effort result.
    fn unwrap_key(&self, wrapped_key: &str, master_key_identifier: &str) -> (r: Result<
        Vec<u8>,
        KeyManagementError,
    >)
        ensures
            r matches Err(e) ==> e is General,
    ;
}

} // verus!

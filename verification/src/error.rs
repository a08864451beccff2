use vstd::prelude::*;

verus! {

/// The caller-facing failure domain for wrap and unwrap operations.
///
/// Every failure at the key-authority boundary — unknown identifier, access
/// denied, unreachable authority, malformed token, marshalling or extraction
/// failure, or an exception raised inside a foreign implementation — is
/// collapsed into the one `General` kind carrying a human-readable message:
/// the caller's recovery action is identical in all of these cases, so a
/// structured sub-kind would add nothing actionable.
#[derive(Debug)]
pub enum KeyManagementError {
    General(String),
}

impl KeyManagementError {
    /// The human-readable message this error carries.
    pub fn message(&self) -> (m: &String)
        ensures
            self matches KeyManagementError::General(message) && m@ == message@,
    {
        match self {
            KeyManagementError::General(message) => message,
        }
    }
}

/// Construction-time failure of the cross-runtime adapter: the candidate
/// foreign object does not conform to the key-authority capability. Fatal to
/// that registration; the caller must not proceed with the handle.
#[derive(Debug)]
pub struct TypeMismatch {
    pub message: String,
}

} // verus!

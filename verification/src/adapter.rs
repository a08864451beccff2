use vstd::prelude::*;

use pyo3::types::PyAny;
use pyo3::types::PyAnyMethods;
use pyo3::types::PyBytes;
use pyo3::types::PyString;
use pyo3::Py;
use pyo3::Python;

use crate::error::KeyManagementError;
use crate::error::TypeMismatch;
use crate::kms::KmsClient;

verus! {

/// pyo3's runtime-independent owned handle to a Python object.
#[verifier::external_type_specification]
#[verifier::external_body]
#[verifier::reject_recursive_types(T)]
pub struct ExPy<T>(Py<T>);

/// pyo3's type standing for an arbitrary Python object.
#[verifier::external_type_specification]
#[verifier::external_body]
pub struct ExPyAny(PyAny);

/// What the adapter hands the caller for each outcome of the foreign wrap
/// call: a token passes through unchanged, a failure message becomes the
/// `General` error kind.
pub open spec fn spec_wrap_outcome(outcome: Result<String, String>) -> Result<
    String,
    KeyManagementError,
> {
    match outcome {
        Ok(wrapped) => Ok(wrapped),
        Err(message) => Err(KeyManagementError::General(message)),
    }
}

/// What the adapter hands the caller for each outcome of the foreign unwrap
/// call: recovered bytes pass through unchanged, a failure message becomes
/// the `General` error kind.
pub open spec fn spec_unwrap_outcome(outcome: Result<Vec<u8>, String>) -> Result<
    Vec<u8>,
    KeyManagementError,
> {
    match outcome {
        Ok(key_bytes) => Ok(key_bytes),
        Err(message) => Err(KeyManagementError::General(message)),
    }
}

/// Whether a capability probe showed a conforming foreign object: the probe
/// itself succeeded and found both a `wrap_key` and an `unwrap_key`
/// attribute.
pub open spec fn probe_conforms(probe: Result<(bool, bool), String>) -> bool {
    probe matches Ok(found) && found.0 && found.1
}

/// Translate the outcome of the foreign wrap call into the caller's error
/// domain. Lossless on success: the token reaches the caller exactly as the
/// authority produced it.
pub fn translate_wrap_outcome(outcome: Result<String, String>) -> (r: Result<
    String,
    KeyManagementError,
>)
    ensures
        r == spec_wrap_outcome(outcome),
{
    match outcome {
        Ok(wrapped) => Ok(wrapped),
        Err(message) => Err(KeyManagementError::General(message)),
    }
}

/// Translate the outcome of the foreign unwrap call into the caller's error
/// domain. Lossless on success: the recovered bytes reach the caller exactly
/// as the authority returned them.
pub fn translate_unwrap_outcome(outcome: Result<Vec<u8>, String>) -> (r: Result<
    Vec<u8>,
    KeyManagementError,
>)
    ensures
        r == spec_unwrap_outcome(outcome),
{
    match outcome {
        Ok(key_bytes) => Ok(key_bytes),
        Err(message) => Err(KeyManagementError::General(message)),
    }
}

/// Decide the construction-time gate from a capability probe: accept if and
/// only if the probe showed a conforming object. A probe that itself failed
/// carries its message into the resulting `TypeMismatch`.
pub fn check_capability(probe: Result<(bool, bool), String>) -> (r: Result<(), TypeMismatch>)
    ensures
        r is Ok <==> probe_conforms(probe),
        probe matches Err(message) ==> (r matches Err(t) && t.message@ == message@),
{
    match probe {
        Ok((has_wrap, has_unwrap)) => {
            if has_wrap && has_unwrap {
                Ok(())
            } else {
                Err(
                    TypeMismatch {
                        message: "expected a key-authority object with wrap_key and unwrap_key methods".to_owned(),
                    },
                )
            }
        },
        Err(message) => Err(TypeMismatch { message }),
    }
}

/// Relies on pyo3: `Python::attach` enters the Python runtime, holding its
/// global lock for the whole closure, and `Bound::hasattr` reports whether
/// the object carries each of the two key-authority methods; a Python-side
/// failure is returned as its message.
#[verifier::external_body]
fn foreign_capability_probe(client: &Py<PyAny>) -> (r: Result<(bool, bool), String>) {
    Python::attach(|py| {
        let target = client.bind(py);
        let has_wrap = target.hasattr("wrap_key").map_err(|e| e.to_string())?;
        let has_unwrap = target.hasattr("unwrap_key").map_err(|e| e.to_string())?;
        Ok((has_wrap, has_unwrap))
    })
}

/// Relies on pyo3: `Python::attach` holds the runtime's global lock while the
/// arguments are marshalled (`PyBytes::new`, `PyString::new`), the foreign
/// object's `wrap_key` method is looked up (`Bound::getattr`) and invoked
/// (`Bound::call1`), and the value it returned is read back as a `String`
/// (`Bound::extract`); any failure along the way — missing attribute, raised
/// exception, non-string result — is returned as its message.
#[verifier::external_body]
fn foreign_wrap_key(client: &Py<PyAny>, key_bytes: &[u8], master_key_identifier: &str) -> (r:
    Result<String, String>) {
    Python::attach(|py| {
        let args = (PyBytes::new(py, key_bytes), PyString::new(py, master_key_identifier));
        let method = client.bind(py).getattr("wrap_key").map_err(|e| e.to_string())?;
        let value = method.call1(args).map_err(|e| e.to_string())?;
        value.extract::<String>().map_err(|e| e.to_string())
    })
}

/// Relies on pyo3: `Python::attach` holds the runtime's global lock while the
/// arguments are marshalled (`PyString::new`), the foreign object's
/// `unwrap_key` method is looked up (`Bound::getattr`) and invoked
/// (`Bound::call1`), and the value it returned is read back as a `Vec<u8>`
/// (`Bound::extract`); any failure along the way — missing attribute, raised
/// exception, non-bytes result — is returned as its message.
#[verifier::external_body]
fn foreign_unwrap_key(client: &Py<PyAny>, wrapped_key: &str, master_key_identifier: &str) -> (r:
    Result<Vec<u8>, String>) {
    Python::attach(|py| {
        let args = (PyString::new(py, wrapped_key), PyString::new(py, master_key_identifier));
        let method = client.bind(py).getattr("unwrap_key").map_err(|e| e.to_string())?;
        let value = method.call1(args).map_err(|e| e.to_string())?;
        value.extract::<Vec<u8>>().map_err(|e| e.to_string())
    })
}

/// Adapter that lets a key authority implemented as a Python object satisfy
/// [`KmsClient`] for native callers.
///
/// The handle is held for the adapter's lifetime and is read-only after
/// construction. Every call into the foreign object runs while attached to
/// the Python runtime: the runtime's single process-wide lock is acquired
/// before any foreign object is touched, serializes all such calls — no two
/// execute inside the foreign object concurrently — and is released again on
/// every exit path, error paths included. No cancellation or timeout exists
/// at this layer: a hung foreign call holds that lock and stalls every other
/// adapter call in the process, so callers needing timeouts must bound their
/// waiting above this interface.
pub struct PyKmsClient {
    py_client: Py<PyAny>,
}

impl PyKmsClient {
    /// Whether this adapter holds exactly the given foreign handle.
    pub closed spec fn holds_handle(self, handle: Py<PyAny>) -> bool {
        self.py_client == handle
    }

    /// Fail-fast construction gate: accept the candidate object only if it
    /// conforms to the key-authority capability — it has both a `wrap_key`
    /// and an `unwrap_key` method — so that misconfiguration is caught at
    /// registration time rather than at the first wrap or unwrap call deep
    /// inside a read or write path. Rejection is a [`TypeMismatch`], and the
    /// candidate is never retained on rejection. On acceptance the adapter
    /// holds exactly the handle it was given — not a copy — and that handle
    /// is read-only for the adapter's whole lifetime.
    pub fn new(py_client: Py<PyAny>) -> (r: Result<PyKmsClient, TypeMismatch>)
        ensures
            r matches Ok(client) ==> client.holds_handle(py_client),
    {
        let probe = foreign_capability_probe(&py_client);
        match check_capability(probe) {
            Ok(()) => Ok(PyKmsClient { py_client }),
            Err(mismatch) => Err(mismatch),
        }
    }
}

impl KmsClient for PyKmsClient {
    fn wrap_key(&self, key_bytes: &[u8], master_key_identifier: &str) -> (r: Result<
        String,
        KeyManagementError,
    >) {
        let outcome = foreign_wrap_key(&self.py_client, key_bytes, master_key_identifier);
        translate_wrap_outcome(outcome)
    }

    fn unwrap_key(&self, wrapped_key: &str, master_key_identifier: &str) -> (r: Result<
        Vec<u8>,
        KeyManagementError,
    >) {
        let outcome = foreign_unwrap_key(&self.py_client, wrapped_key, master_key_identifier);
        translate_unwrap_outcome(outcome)
    }
}

/// Losslessness of the boundary translation: a token the authority returned
/// from wrap, and bytes it returned from unwrap, reach the caller exactly as
/// produced. So whenever the authority keeps the wrap/unwrap round trip
/// intact — its unwrap outcome returns exactly the bytes that were wrapped —
/// the translated results the adapter hands back form the same round trip.
pub proof fn lemma_translation_preserves_round_trip(
    key_bytes: Vec<u8>,
    wrap_outcome: Result<String, String>,
    unwrap_outcome: Result<Vec<u8>, String>,
)
    requires
        wrap_outcome is Ok,
        unwrap_outcome matches Ok(recovered) && recovered@ == key_bytes@,
    ensures
        spec_wrap_outcome(wrap_outcome) matches Ok(token) && token == wrap_outcome.unwrap(),
        spec_unwrap_outcome(unwrap_outcome) matches Ok(recovered) && recovered@ == key_bytes@,
{
}

/// Error translation: a foreign-side failure during wrap or unwrap — raised
/// exception, missing method, wrong-typed result — surfaces as
/// `KeyManagementError::General` carrying the foreign message, never as a
/// foreign error value.
pub proof fn lemma_foreign_failures_become_general(message: String)
    ensures
        spec_wrap_outcome(Err(message)) == Err::<String, KeyManagementError>(
            KeyManagementError::General(message),
        ),
        spec_unwrap_outcome(Err(message)) == Err::<Vec<u8>, KeyManagementError>(
            KeyManagementError::General(message),
        ),
{
}

} // verus!

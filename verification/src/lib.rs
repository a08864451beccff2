//! A pluggable key-management capability for wrapping and unwrapping
//! per-file data-encryption keys, together with an adapter that lets a key
//! authority implemented as a Python object satisfy that capability for
//! native callers: the adapter validates the object's shape at construction,
//! marshals arguments across the runtime boundary under the Python runtime's
//! global lock, and translates every foreign failure into the caller's own
//! error domain.

pub mod adapter;
pub mod error;
pub mod kms;

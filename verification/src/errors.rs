//! The kinds of failure that the stores and the login flow report.

use vstd::prelude::*;

verus! {

/// Why an operation on a store, or a login attempt, did not succeed.
#[derive(Clone, Copy, Debug, PartialEq, Eq, Structural)]
pub enum StoreError {
    /// No row has the requested key.
    NotFound,
    /// A user with the same email is already registered.
    DuplicateEmail,
    /// The stored password hash is not a well-formed hash string.
    CorruptCredential,
    /// The store could not carry out the write.
    StorageFailure,
}

} // verus!

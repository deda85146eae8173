//! Shared glue around the standard library's error type.

use vstd::prelude::*;

verus! {

#[verifier::external_type_specification]
#[verifier::external_body]
pub struct ExIoError(std::io::Error);

/// Relies on `std::io::Error::new`: wraps the message as an I/O error of
/// the catch-all kind.
#[verifier::external_body]
pub fn mk_error(err: String) -> std::io::Error {
    std::io::Error::new(std::io::ErrorKind::Other, err)
}

} // verus!

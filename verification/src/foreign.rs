//! Declarations of outside types that the library's values carry.

use vstd::prelude::*;

verus! {

/// `std::io::Error`, carried unchanged inside error values of the library.
#[verifier::external_type_specification]
#[verifier::external_body]
pub struct ExIoError(std::io::Error);

} // verus!

//! Types of other crates that values of this library carry.
use vstd::prelude::*;

verus! {

/// The error of a failed HTTP exchange, carried through unread.
#[verifier::external_type_specification]
#[verifier::external_body]
pub struct ExReqwestError(reqwest::Error);

/// The error of a failed file operation, carried through unread.
#[verifier::external_type_specification]
#[verifier::external_body]
pub struct ExIoError(std::io::Error);

} // verus!

//! Types of outside crates that values of this library carry.

use vstd::prelude::*;

verus! {

/// `semver::Error`, carried through as the cause of a refused version.
#[verifier::external_type_specification]
#[verifier::external_body]
pub struct ExSemverError(semver::Error);

/// `stellar_xdr::Error`, the refusal of a value that XDR cannot hold.
#[verifier::external_type_specification]
#[verifier::external_body]
pub struct ExXdrError(stellar_xdr::Error);

} // verus!

//! What a non-blocking operation fails with.

use vstd::prelude::*;
use crate::uart::Error;
use nb::Error as NbError;

verus! {

/// `nb::Error`, the error of a non-blocking operation, brought in under a
/// second name beside the driver's own `Error`. Verified code carries its
/// values and never looks inside.
#[verifier::external_type_specification]
#[verifier::external_body]
#[verifier::reject_recursive_types(E)]
pub struct ExNbError<E>(NbError<E>);

/// Builds `nb::Error::WouldBlock`, the value by which a non-blocking
/// operation says that it could not complete yet. Nothing is claimed of it.
#[verifier::external_body]
pub(crate) fn would_block() -> (e: NbError<Error>) {
    NbError::WouldBlock
}

} // verus!

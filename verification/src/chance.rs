//! The source of the random draws that place new moles.

use vstd::prelude::*;

verus! {

/// One draw from `rand::random::<usize>()`, the thread-local generator of
/// the `rand` crate.  Nothing is claimed of the number drawn: every
/// `usize` may come back, and two draws need not agree.  The generator
/// seeds itself from the operating system on first use and panics if the
/// system gives it no entropy; that is outside what this library checks.
#[verifier::external_body]
pub(crate) fn draw() -> (n: usize) {
    rand::random::<usize>()
}

} // verus!

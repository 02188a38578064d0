use vstd::prelude::*;

verus! {

/// The ways an operation of the ledger can fail.
#[derive(Clone, Copy, Debug, PartialEq, Eq, Structural)]
pub enum Error {
    NotInitialized,
    AlreadyInitialized,
    Unauthorized,
    ProductExists,
    NotFound,
    TransferFailed,
}

} // verus!

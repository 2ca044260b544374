//! The reasons for which a transaction is rejected.

use vstd::prelude::*;

verus! {

/// Why a cell payload, a token type or a transaction was rejected.
#[derive(Debug, Clone, Copy, PartialEq, Eq, Structural)]
pub enum Error {
    /// A payload is too short for the field lengths it declares.
    DataInvalid,
    /// The args of a token type have the wrong length, or the token id in
    /// them is not the one derived from the transaction.
    TypeArgsInvalid,
    /// The numbers of input and output cells of one token do not fit any
    /// transition.
    CellsCountError,
    /// The dependencies hold no factory cell of the token, or more than one.
    FactoryCellsCountError,
    /// No input cell is locked by the owner of the factory.
    OnlyOwnerConditionError,
    /// A lookup in the transaction found nothing where a cell was expected.
    Encoding,
}

} // verus!

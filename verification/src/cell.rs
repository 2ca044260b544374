//! The cells of a transaction as plain values.
//!
//! A transaction consumes input cells, produces output cells and refers to
//! dependency cells. The rules only read a cell's type and its lock, so a
//! transaction is kept as three lists of those, together with the reference
//! of the first input.

use vstd::prelude::*;
use crate::helper::bytes_equal;

verus! {

/// A script: the code it runs, how the code is looked up, and its arguments.
#[derive(Debug, Clone)]
pub struct Script {
    pub code_hash: [u8; 32],
    pub hash_type: u8,
    pub args: Vec<u8>,
}

/// A script as mathematical values.
#[verifier::ext_equal]
pub struct ScriptView {
    pub code_hash: Seq<u8>,
    pub hash_type: u8,
    pub args: Seq<u8>,
}

impl View for Script {
    type V = ScriptView;

    open spec fn view(&self) -> ScriptView {
        ScriptView { code_hash: self.code_hash@, hash_type: self.hash_type, args: self.args@ }
    }
}

impl Script {
    /// Whether two scripts are equal in all three parts.
    pub fn same_as(&self, other: &Script) -> (same: bool)
        ensures
            same == (self@ == other@),
    {
        bytes_equal(self.code_hash.as_slice(), other.code_hash.as_slice())
            && self.hash_type == other.hash_type && bytes_equal(
            self.args.as_slice(),
            other.args.as_slice(),
        )
    }
}

/// What the rules read of a cell: its type, if it has one, and its lock in
/// serialized form.
#[derive(Debug, Clone)]
pub struct Cell {
    pub type_: Option<Script>,
    pub lock: Vec<u8>,
}

/// A cell as mathematical values.
#[verifier::ext_equal]
pub struct CellView {
    pub type_: Option<ScriptView>,
    pub lock: Seq<u8>,
}

impl View for Cell {
    type V = CellView;

    open spec fn view(&self) -> CellView {
        CellView {
            type_: match self.type_ {
                Some(script) => Some(script@),
                None => None,
            },
            lock: self.lock@,
        }
    }
}

/// The views of a list of cells, in the same order.
pub open spec fn cells_view(cells: Seq<Cell>) -> Seq<CellView> {
    cells.map_values(|cell: Cell| cell@)
}

/// A snapshot of the parts of a transaction that the rules read.
#[derive(Debug, Clone)]
pub struct Transaction {
    /// The serialized reference of the first input, if there is an input.
    pub first_input: Option<Vec<u8>>,
    pub inputs: Vec<Cell>,
    pub outputs: Vec<Cell>,
    pub cell_deps: Vec<Cell>,
}

/// A transaction as mathematical values.
#[verifier::ext_equal]
pub struct TransactionView {
    pub first_input: Option<Seq<u8>>,
    pub inputs: Seq<CellView>,
    pub outputs: Seq<CellView>,
    pub cell_deps: Seq<CellView>,
}

impl View for Transaction {
    type V = TransactionView;

    open spec fn view(&self) -> TransactionView {
        TransactionView {
            first_input: match self.first_input {
                Some(bytes) => Some(bytes@),
                None => None,
            },
            inputs: cells_view(self.inputs@),
            outputs: cells_view(self.outputs@),
            cell_deps: cells_view(self.cell_deps@),
        }
    }
}

} // verus!

//! Rules that a collection may add to the base rule.

use vstd::prelude::*;
use crate::cell::{Script, ScriptView, Transaction, TransactionView};
use crate::error::Error;
use crate::helper::{any_locked_by, lemma_position_from, position_by_type, position_of_type};
use crate::nft::NFT_TYPE_ARGS_TOKEN_ID_INDEX;
use crate::{check_factory_type, factory_type_of, is_factory_type_of};

verus! {

/// What the owner rule says of a creation: the first dependency of the
/// factory's type is there, and one input has the same lock as it.
pub open spec fn only_owner_creation(tx: TransactionView, nft: ScriptView) -> Result<(), Error> {
    match position_by_type(tx.cell_deps, factory_type_of(nft)) {
        None => Err(Error::Encoding),
        Some(factory) => {
            if exists|k: int|
                0 <= k < tx.inputs.len() && (#[trigger] tx.inputs[k]).lock
                    == tx.cell_deps[factory].lock {
                Ok(())
            } else {
                Err(Error::OnlyOwnerConditionError)
            }
        },
    }
}

/// The outcomes of the owner rule on a creation. Without a factory cell
/// among the dependencies the creation fails with `Encoding`. Where the first
/// factory cell is the dependency at `factory`: with no input under the lock
/// of that cell the creation is rejected with `OnlyOwnerConditionError`; with
/// at least one it is accepted.
pub proof fn lemma_only_owner_creation_cases(tx: TransactionView, nft: ScriptView)
    ensures
        match position_by_type(tx.cell_deps, factory_type_of(nft)) {
            None => only_owner_creation(tx, nft) == Err::<(), Error>(Error::Encoding),
            Some(factory) => {
                &&& 0 <= factory < tx.cell_deps.len()
                &&& (forall|k: int|
                    0 <= k < tx.inputs.len() ==> (#[trigger] tx.inputs[k]).lock
                        != tx.cell_deps[factory].lock) ==> only_owner_creation(tx, nft) == Err::<
                    (),
                    Error,
                >(Error::OnlyOwnerConditionError)
                &&& (exists|k: int|
                    0 <= k < tx.inputs.len() && (#[trigger] tx.inputs[k]).lock
                        == tx.cell_deps[factory].lock) ==> only_owner_creation(tx, nft) == Ok::<
                    (),
                    Error,
                >(())
            },
        },
{
    lemma_position_from(tx.cell_deps, factory_type_of(nft), 0);
}

/// The rule that only the owner of a factory creates its tokens: at least
/// one input cell has the same lock as the factory cell.
pub struct OnlyOwner;

impl OnlyOwner {
    /// Checks the creation of a token of type `nft_type`.
    pub fn handle_creation(tx: &Transaction, nft_type: &Script) -> (checked: Result<(), Error>)
        requires
            nft_type@.args.len() >= NFT_TYPE_ARGS_TOKEN_ID_INDEX,
        ensures
            checked == only_owner_creation(tx@, nft_type@),
    {
        let check = |type_: &Script| -> (accepted: bool)
            ensures
                accepted == is_factory_type_of(nft_type@, type_@),
            { check_factory_type(nft_type, type_) };
        let factory: usize = match position_of_type(
            &tx.cell_deps,
            &check,
            Ghost(factory_type_of(nft_type@)),
        ) {
            None => {
                return Err(Error::Encoding);
            },
            Some(index) => index,
        };
        if !any_locked_by(&tx.inputs, tx.cell_deps[factory].lock.as_slice()) {
            return Err(Error::OnlyOwnerConditionError);
        }
        Ok(())
    }

    /// Checks an update: the owner rule asks nothing of it.
    pub fn handle_update(_nft_type: &Script) -> (checked: Result<(), Error>)
        ensures
            checked == Ok::<(), Error>(()),
    {
        Ok(())
    }

    /// Checks a destruction: the owner rule asks nothing of it.
    pub fn handle_destroying(_nft_type: &Script) -> (checked: Result<(), Error>)
        ensures
            checked == Ok::<(), Error>(()),
    {
        Ok(())
    }
}

} // verus!

//! Validation of the life cycle of uniquely identified tokens inside
//! transactions that consume input cells and produce output cells.
//!
//! A transaction is seen as a snapshot of its three cell lists. For one token
//! type the library decides which transition the transaction performs and runs
//! the rules that the transition has to obey.

use vstd::prelude::*;
use vstd::slice::slice_subrange;
use crate::cell::{Script, ScriptView, Transaction, TransactionView};
use crate::error::Error;
use crate::factory::FACTORY_TYPE_ARGS_LEN;
use crate::hash::{derive_identity, type_id_of};
use crate::helper::{
    bytes_equal, count_by_type, count_cells_by_type, lemma_count_by_type,
    load_output_index_by_type, position_by_type, same_type, type_matches, Action,
};
use crate::nft::{
    NFT_TYPE_ARGS_COLL_ARGS_INDEX, NFT_TYPE_ARGS_COLL_ARGS_LEN,
    NFT_TYPE_ARGS_COLL_CODE_HASH_INDEX, NFT_TYPE_ARGS_COLL_CODE_HASH_LEN,
    NFT_TYPE_ARGS_COLL_TYPE_INDEX, NFT_TYPE_ARGS_LEN, NFT_TYPE_ARGS_TOKEN_ID_INDEX,
    NFT_TYPE_ARGS_TOKEN_ID_LEN,
};

pub mod cell;
pub mod composer;
pub mod error;
pub mod extensions;
pub mod factory;
pub mod hash;
pub mod helper;
pub mod nft;

verus! {

/// Whether the args of a script have the length of the args of a token's
/// type.
pub open spec fn valid_nft_args(nft: ScriptView) -> bool {
    nft.args.len() == NFT_TYPE_ARGS_LEN
}

/// Whether `type_` is the type of a token of the collection of `nft`: the
/// same code, looked up the same way, with args of the right length that
/// start with the same 32 bytes.
pub open spec fn is_nft_type_of(nft: ScriptView, type_: ScriptView) -> bool {
    &&& type_.code_hash == nft.code_hash
    &&& type_.hash_type == nft.hash_type
    &&& type_.args.len() == NFT_TYPE_ARGS_LEN
    &&& type_.args.subrange(0, FACTORY_TYPE_ARGS_LEN as int) == nft.args.subrange(
        0,
        FACTORY_TYPE_ARGS_LEN as int,
    )
}

/// The test `is_nft_type_of` for a fixed token type.
pub open spec fn nft_type_of(nft: ScriptView) -> spec_fn(ScriptView) -> bool {
    |type_: ScriptView| is_nft_type_of(nft, type_)
}

/// Whether `type_` is the type of the factory that the args of `nft` name:
/// its code hash, hash type and args are the first three parts of those args.
pub open spec fn is_factory_type_of(nft: ScriptView, type_: ScriptView) -> bool {
    &&& type_.code_hash == nft.args.subrange(
        NFT_TYPE_ARGS_COLL_CODE_HASH_INDEX as int,
        NFT_TYPE_ARGS_COLL_TYPE_INDEX as int,
    )
    &&& type_.hash_type == nft.args[NFT_TYPE_ARGS_COLL_TYPE_INDEX as int]
    &&& type_.args == nft.args.subrange(
        NFT_TYPE_ARGS_COLL_ARGS_INDEX as int,
        NFT_TYPE_ARGS_TOKEN_ID_INDEX as int,
    )
}

/// The test `is_factory_type_of` for a fixed token type.
pub open spec fn factory_type_of(nft: ScriptView) -> spec_fn(ScriptView) -> bool {
    |type_: ScriptView| is_factory_type_of(nft, type_)
}

/// The token id in the args of a token's type.
pub open spec fn token_id(nft: ScriptView) -> Seq<u8> {
    nft.args.subrange(NFT_TYPE_ARGS_TOKEN_ID_INDEX as int, NFT_TYPE_ARGS_LEN as int)
}

/// Tests whether the type of a cell belongs to a token of the collection of
/// `nft_type`.
pub fn check_nft_type(nft_type: &Script, type_: &Script) -> (accepted: bool)
    requires
        nft_type@.args.len() >= FACTORY_TYPE_ARGS_LEN,
    ensures
        accepted == is_nft_type_of(nft_type@, type_@),
{
    bytes_equal(type_.code_hash.as_slice(), nft_type.code_hash.as_slice())
        && type_.hash_type == nft_type.hash_type && type_.args.len() == NFT_TYPE_ARGS_LEN
        && bytes_equal(
        slice_subrange(type_.args.as_slice(), 0, FACTORY_TYPE_ARGS_LEN),
        slice_subrange(nft_type.args.as_slice(), 0, FACTORY_TYPE_ARGS_LEN),
    )
}

/// Tests whether the type of a cell is the type of the factory of
/// `nft_type`.
pub fn check_factory_type(nft_type: &Script, unknown_type: &Script) -> (accepted: bool)
    requires
        nft_type@.args.len() >= NFT_TYPE_ARGS_TOKEN_ID_INDEX,
    ensures
        accepted == is_factory_type_of(nft_type@, unknown_type@),
{
    let nft_type_args: &[u8] = nft_type.args.as_slice();
    bytes_equal(
        unknown_type.code_hash.as_slice(),
        slice_subrange(
            nft_type_args,
            NFT_TYPE_ARGS_COLL_CODE_HASH_INDEX,
            NFT_TYPE_ARGS_COLL_CODE_HASH_INDEX + NFT_TYPE_ARGS_COLL_CODE_HASH_LEN,
        ),
    ) && unknown_type.hash_type == nft_type_args[NFT_TYPE_ARGS_COLL_TYPE_INDEX] && bytes_equal(
        unknown_type.args.as_slice(),
        slice_subrange(
            nft_type_args,
            NFT_TYPE_ARGS_COLL_ARGS_INDEX,
            NFT_TYPE_ARGS_COLL_ARGS_INDEX + NFT_TYPE_ARGS_COLL_ARGS_LEN,
        ),
    )
}

/// The transition that the numbers of matching input and output cells
/// stand for.
pub open spec fn classify(inputs: nat, outputs: nat) -> Result<Action, Error> {
    if inputs == 0 {
        Ok(Action::Create)
    } else if inputs == 1 && outputs == 0 {
        Ok(Action::Destroy)
    } else if inputs == outputs {
        Ok(Action::Update)
    } else {
        Err(Error::CellsCountError)
    }
}

/// The transition that a transaction performs on the tokens of the
/// collection of `nft`.
pub open spec fn nft_action(tx: TransactionView, nft: ScriptView) -> Result<Action, Error> {
    classify(
        count_by_type(tx.inputs, nft_type_of(nft)),
        count_by_type(tx.outputs, nft_type_of(nft)),
    )
}

/// Decides which transition a transaction performs, from the numbers of
/// its input and output cells whose type `check_nft_type` accepts.
pub fn parse_nft_action(tx: &Transaction, nft_type: &Script) -> (action: Result<Action, Error>)
    requires
        nft_type@.args.len() >= FACTORY_TYPE_ARGS_LEN,
    ensures
        action == nft_action(tx@, nft_type@),
{
    let check = |type_: &Script| -> (accepted: bool)
        ensures
            accepted == is_nft_type_of(nft_type@, type_@),
        { check_nft_type(nft_type, type_) };
    let nft_inputs_count: usize = count_cells_by_type(
        &tx.inputs,
        &check,
        Ghost(nft_type_of(nft_type@)),
    );
    if nft_inputs_count == 0 {
        return Ok(Action::Create);
    }
    let nft_outputs_count: usize = count_cells_by_type(
        &tx.outputs,
        &check,
        Ghost(nft_type_of(nft_type@)),
    );
    if nft_inputs_count == 1 && nft_outputs_count == 0 {
        return Ok(Action::Destroy);
    }
    if nft_inputs_count == nft_outputs_count {
        return Ok(Action::Update);
    }
    Err(Error::CellsCountError)
}

/// The four cases of the transition, by the numbers of input and output
/// cells of the collection: no input is a creation, whatever the outputs;
/// one input and no output is a destruction; as many outputs as inputs, and
/// at least one, is an update; anything else is rejected.
pub proof fn lemma_nft_action_cases(tx: TransactionView, nft: ScriptView)
    ensures
        ({
            let inputs = count_by_type(tx.inputs, nft_type_of(nft));
            let outputs = count_by_type(tx.outputs, nft_type_of(nft));
            &&& inputs == 0 ==> nft_action(tx, nft) == Ok::<Action, Error>(Action::Create)
            &&& inputs == 1 && outputs == 0 ==> nft_action(tx, nft) == Ok::<Action, Error>(
                Action::Destroy,
            )
            &&& inputs >= 1 && inputs == outputs ==> nft_action(tx, nft) == Ok::<Action, Error>(
                Action::Update,
            )
            &&& inputs >= 1 && inputs != outputs && !(inputs == 1 && outputs == 0) ==> nft_action(
                tx,
                nft,
            ) == Err::<Action, Error>(Error::CellsCountError)
        }),
{
}

/// A transaction with no input cell of the collection is a creation,
/// whatever its outputs are.
pub proof fn lemma_no_input_is_creation(tx: TransactionView, nft: ScriptView)
    requires
        forall|k: int|
            0 <= k < tx.inputs.len() ==> !type_matches(#[trigger] tx.inputs[k], nft_type_of(nft)),
    ensures
        nft_action(tx, nft) == Ok::<Action, Error>(Action::Create),
{
    lemma_count_by_type(tx.inputs, nft_type_of(nft));
}

/// The identity that a transaction gives to the token of type `nft` that it
/// creates: the hash of its first input and of the position of the first
/// output of that type. There is none if the transaction has no input or no
/// output of that type.
pub open spec fn type_id(tx: TransactionView, nft: ScriptView) -> Result<Seq<u8>, Error> {
    match (tx.first_input, position_by_type(tx.outputs, same_type(nft))) {
        (Some(first_input), Some(index)) => Ok(type_id_of(first_input, index as u64)),
        _ => Err(Error::Encoding),
    }
}

/// Derives the identity of the token of type `nft_type` that a transaction
/// creates.
pub fn build_type_id(tx: &Transaction, nft_type: &Script) -> (id: Result<[u8; 32], Error>)
    ensures
        match id {
            Ok(hash) => type_id(tx@, nft_type@) == Ok::<Seq<u8>, Error>(hash@),
            Err(e) => type_id(tx@, nft_type@) == Err::<Seq<u8>, Error>(e),
        },
{
    match &tx.first_input {
        None => Err(Error::Encoding),
        Some(first_input) => {
            match load_output_index_by_type(&tx.outputs, nft_type) {
                Err(e) => Err(e),
                Ok(output_index) => Ok(
                    derive_identity(first_input.as_slice(), output_index as u64),
                ),
            }
        },
    }
}

/// The identity is determined by the first input and by the position of
/// the new cell: two transactions that agree on both give the same identity.
pub proof fn lemma_type_id_deterministic(a: TransactionView, b: TransactionView, nft: ScriptView)
    requires
        a.first_input == b.first_input,
        position_by_type(a.outputs, same_type(nft)) == position_by_type(
            b.outputs,
            same_type(nft),
        ),
    ensures
        type_id(a, nft) == type_id(b, nft),
{
}

/// What the base rule says of a creation, once the identity `id` of the new
/// token is known: the token id in the args is `id`, and the dependencies
/// hold exactly one cell of the factory's type.
pub open spec fn base_creation_with_id(tx: TransactionView, nft: ScriptView, id: Seq<u8>) -> Result<
    (),
    Error,
> {
    if token_id(nft) != id {
        Err(Error::TypeArgsInvalid)
    } else if count_by_type(tx.cell_deps, factory_type_of(nft)) != 1 {
        Err(Error::FactoryCellsCountError)
    } else {
        Ok(())
    }
}

/// What the base rule says of a creation.
pub open spec fn base_creation(tx: TransactionView, nft: ScriptView) -> Result<(), Error> {
    match type_id(tx, nft) {
        Ok(id) => base_creation_with_id(tx, nft, id),
        Err(e) => Err(e),
    }
}

/// The outcomes of the base rule on a creation. Where no identity can be
/// derived, the creation fails as the derivation does. Where the derived
/// identity is `id`: a token id that differs from `id` is rejected with
/// `TypeArgsInvalid`; with the right token id, no factory cell or several
/// among the dependencies are rejected with `FactoryCellsCountError`; the
/// right token id and exactly one factory cell are accepted.
pub proof fn lemma_base_creation_cases(tx: TransactionView, nft: ScriptView)
    ensures
        match type_id(tx, nft) {
            Err(e) => e == Error::Encoding && base_creation(tx, nft) == Err::<(), Error>(e),
            Ok(id) => {
                let factories = count_by_type(tx.cell_deps, factory_type_of(nft));
                &&& token_id(nft) != id ==> base_creation(tx, nft) == Err::<(), Error>(
                    Error::TypeArgsInvalid,
                )
                &&& token_id(nft) == id && factories != 1 ==> base_creation(tx, nft) == Err::<
                    (),
                    Error,
                >(Error::FactoryCellsCountError)
                &&& token_id(nft) == id && factories == 1 ==> base_creation(tx, nft) == Ok::<
                    (),
                    Error,
                >(())
            },
        },
{
}

/// The rule that every token obeys: a new token carries the identity
/// derived from the transaction that creates it, and names one factory.
pub struct Base;

impl Base {
    /// Checks a creation against the identity `id` derived for the new
    /// token.
    pub fn check_creation(tx: &Transaction, nft_type: &Script, id: &[u8; 32]) -> (checked: Result<
        (),
        Error,
    >)
        requires
            nft_type@.args.len() >= NFT_TYPE_ARGS_LEN,
        ensures
            checked == base_creation_with_id(tx@, nft_type@, id@),
    {
        if !bytes_equal(
            slice_subrange(
                nft_type.args.as_slice(),
                NFT_TYPE_ARGS_TOKEN_ID_INDEX,
                NFT_TYPE_ARGS_TOKEN_ID_INDEX + NFT_TYPE_ARGS_TOKEN_ID_LEN,
            ),
            id.as_slice(),
        ) {
            return Err(Error::TypeArgsInvalid);
        }
        let check = |type_: &Script| -> (accepted: bool)
            ensures
                accepted == is_factory_type_of(nft_type@, type_@),
            { check_factory_type(nft_type, type_) };
        let factory_inputs_count: usize = count_cells_by_type(
            &tx.cell_deps,
            &check,
            Ghost(factory_type_of(nft_type@)),
        );
        if factory_inputs_count != 1 {
            return Err(Error::FactoryCellsCountError);
        }
        Ok(())
    }

    /// Checks the creation of a token of type `nft_type`.
    pub fn handle_creation(tx: &Transaction, nft_type: &Script) -> (checked: Result<(), Error>)
        requires
            nft_type@.args.len() >= NFT_TYPE_ARGS_LEN,
        ensures
            checked == base_creation(tx@, nft_type@),
    {
        match build_type_id(tx, nft_type) {
            Err(e) => Err(e),
            Ok(hash) => Base::check_creation(tx, nft_type, &hash),
        }
    }

    /// Checks an update: the base rule asks nothing of it.
    pub fn handle_update(_nft_type: &Script) -> (checked: Result<(), Error>)
        ensures
            checked == Ok::<(), Error>(()),
    {
        Ok(())
    }

    /// Checks a destruction: the base rule asks nothing of it.
    pub fn handle_destroying(_nft_type: &Script) -> (checked: Result<(), Error>)
        ensures
            checked == Ok::<(), Error>(()),
    {
        Ok(())
    }
}

} // verus!

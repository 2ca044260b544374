use ckb_nft::cell::{Cell, Script, Transaction};
use ckb_nft::composer::{collect_results, validate_nft_args, Composite, RuleComponent};
use ckb_nft::error::Error;
use ckb_nft::extensions::OnlyOwner;
use ckb_nft::hash::derive_identity;
use ckb_nft::helper::{any_locked_by, Action};
use ckb_nft::nft::NFT_TYPE_ARGS_LEN;
use ckb_nft::{check_factory_type, check_nft_type, parse_nft_action, Base};

const NFT_CODE: [u8; 32] = [0x11; 32];
const FACTORY_CODE: [u8; 32] = [0x22; 32];
const FACTORY_HASH_TYPE: u8 = 1;
const FACTORY_ARGS: [u8; 32] = [0x33; 32];
const FIRST_INPUT: [u8; 44] = [0x44; 44];

fn nft_args(token_id: &[u8; 32]) -> Vec<u8> {
    let mut args = FACTORY_CODE.to_vec();
    args.push(FACTORY_HASH_TYPE);
    args.extend_from_slice(&FACTORY_ARGS);
    args.extend_from_slice(token_id);
    args
}

fn nft_type(token_id: &[u8; 32]) -> Script {
    Script { code_hash: NFT_CODE, hash_type: 0, args: nft_args(token_id) }
}

fn factory_type() -> Script {
    Script { code_hash: FACTORY_CODE, hash_type: FACTORY_HASH_TYPE, args: FACTORY_ARGS.to_vec() }
}

fn cell(type_: Option<Script>, lock: &[u8]) -> Cell {
    Cell { type_, lock: lock.to_vec() }
}

/// A creation of the token at output `position`, with `factories` factory
/// cells locked by `owner` among the dependencies and one input locked by
/// `spender`.
fn creation(position: usize, factories: usize, owner: &[u8], spender: &[u8]) -> (Transaction, Script) {
    let id = derive_identity(&FIRST_INPUT, position as u64);
    let token = nft_type(&id);
    let mut outputs = vec![cell(None, b"any"); position];
    outputs.push(cell(Some(token.clone()), b"any"));
    let mut cell_deps = vec![cell(None, b"code")];
    for _ in 0..factories {
        cell_deps.push(cell(Some(factory_type()), owner));
    }
    let tx = Transaction {
        first_input: Some(FIRST_INPUT.to_vec()),
        inputs: vec![cell(None, spender)],
        outputs,
        cell_deps,
    };
    (tx, token)
}

fn transfer(inputs: usize, outputs: usize) -> (Transaction, Script) {
    let token = nft_type(&[9; 32]);
    let sibling = nft_type(&[8; 32]);
    let mut ins = vec![cell(None, b"x")];
    for _ in 0..inputs {
        ins.push(cell(Some(sibling.clone()), b"x"));
    }
    let mut outs = vec![];
    for _ in 0..outputs {
        outs.push(cell(Some(token.clone()), b"x"));
    }
    let tx = Transaction {
        first_input: Some(FIRST_INPUT.to_vec()),
        inputs: ins,
        outputs: outs,
        cell_deps: vec![],
    };
    (tx, token)
}

#[test]
fn args_layout_is_97_bytes() {
    assert_eq!(NFT_TYPE_ARGS_LEN, 97);
    assert_eq!(nft_args(&[0; 32]).len(), 97);
}

#[test]
fn validate_nft_args_checks_the_length() {
    assert_eq!(validate_nft_args(&nft_type(&[0; 32])), Ok(()));
    let mut short = nft_type(&[0; 32]);
    short.args.pop();
    assert_eq!(validate_nft_args(&short), Err(Error::TypeArgsInvalid));
    let mut long = nft_type(&[0; 32]);
    long.args.push(0);
    assert_eq!(validate_nft_args(&long), Err(Error::TypeArgsInvalid));
    let mut empty = nft_type(&[0; 32]);
    empty.args.clear();
    assert_eq!(validate_nft_args(&empty), Err(Error::TypeArgsInvalid));
}

#[test]
fn nft_type_check_compares_code_hash_type_and_first_args() {
    let token = nft_type(&[1; 32]);
    assert!(check_nft_type(&token, &token));
    // another token id of the same collection
    assert!(check_nft_type(&token, &nft_type(&[2; 32])));
    // the bytes after the first 32 of the args are not compared
    let mut other_tail = nft_type(&[1; 32]);
    other_tail.args[40] ^= 0xff;
    assert!(check_nft_type(&token, &other_tail));
    let mut other_code = nft_type(&[1; 32]);
    other_code.code_hash[0] ^= 0xff;
    assert!(!check_nft_type(&token, &other_code));
    let mut other_hash_type = nft_type(&[1; 32]);
    other_hash_type.hash_type = 2;
    assert!(!check_nft_type(&token, &other_hash_type));
    let mut other_factory = nft_type(&[1; 32]);
    other_factory.args[31] ^= 0xff;
    assert!(!check_nft_type(&token, &other_factory));
    let mut short = nft_type(&[1; 32]);
    short.args.pop();
    assert!(!check_nft_type(&token, &short));
}

#[test]
fn factory_type_check_compares_all_three_parts() {
    let token = nft_type(&[1; 32]);
    assert!(check_factory_type(&token, &factory_type()));
    let mut other_code = factory_type();
    other_code.code_hash[31] ^= 1;
    assert!(!check_factory_type(&token, &other_code));
    let mut other_hash_type = factory_type();
    other_hash_type.hash_type = 0;
    assert!(!check_factory_type(&token, &other_hash_type));
    let mut other_args = factory_type();
    other_args.args[0] ^= 1;
    assert!(!check_factory_type(&token, &other_args));
    let mut long_args = factory_type();
    long_args.args.push(0);
    assert!(!check_factory_type(&token, &long_args));
    assert!(!check_factory_type(&token, &token));
}

#[test]
fn no_matching_input_is_a_creation_whatever_the_outputs() {
    for outputs in 0..4 {
        let (tx, token) = transfer(0, outputs);
        assert_eq!(parse_nft_action(&tx, &token), Ok(Action::Create));
    }
}

#[test]
fn one_input_and_no_output_is_a_destruction() {
    let (tx, token) = transfer(1, 0);
    assert_eq!(parse_nft_action(&tx, &token), Ok(Action::Destroy));
}

#[test]
fn as_many_outputs_as_inputs_is_an_update() {
    for n in 1..4 {
        let (tx, token) = transfer(n, n);
        assert_eq!(parse_nft_action(&tx, &token), Ok(Action::Update));
    }
}

#[test]
fn other_counts_are_rejected() {
    for (inputs, outputs) in [(1, 2), (2, 1), (2, 0), (3, 0), (1, 3), (3, 2)] {
        let (tx, token) = transfer(inputs, outputs);
        assert_eq!(parse_nft_action(&tx, &token), Err(Error::CellsCountError));
    }
}

#[test]
fn cells_of_other_types_are_not_counted() {
    let token = nft_type(&[9; 32]);
    let mut stranger = nft_type(&[9; 32]);
    stranger.code_hash = [0; 32];
    let tx = Transaction {
        first_input: Some(FIRST_INPUT.to_vec()),
        inputs: vec![cell(Some(stranger.clone()), b"x"), cell(None, b"x"), cell(Some(factory_type()), b"x")],
        outputs: vec![cell(Some(token.clone()), b"x"), cell(Some(token.clone()), b"x")],
        cell_deps: vec![cell(Some(token.clone()), b"x")],
    };
    assert_eq!(parse_nft_action(&tx, &token), Ok(Action::Create));
}

#[test]
fn base_accepts_the_derived_id_and_one_factory() {
    let (tx, token) = creation(0, 1, b"owner", b"owner");
    assert_eq!(Base::handle_creation(&tx, &token), Ok(()));
    let (tx, token) = creation(3, 1, b"owner", b"someone");
    assert_eq!(Base::handle_creation(&tx, &token), Ok(()));
}

#[test]
fn base_rejects_a_wrong_token_id() {
    let (tx, token) = creation(0, 1, b"owner", b"owner");
    let mut forged = token.clone();
    forged.args[96] ^= 1;
    let mut tx = tx;
    tx.outputs[0].type_ = Some(forged.clone());
    assert_eq!(Base::handle_creation(&tx, &forged), Err(Error::TypeArgsInvalid));
}

#[test]
fn base_rejects_an_id_derived_for_another_position() {
    let (tx, _) = creation(1, 1, b"owner", b"owner");
    let moved = nft_type(&derive_identity(&FIRST_INPUT, 0));
    let mut tx = tx;
    tx.outputs[1].type_ = Some(moved.clone());
    assert_eq!(Base::handle_creation(&tx, &moved), Err(Error::TypeArgsInvalid));
}

#[test]
fn base_rejects_no_factory_and_two_factories() {
    let (tx, token) = creation(0, 0, b"owner", b"owner");
    assert_eq!(Base::handle_creation(&tx, &token), Err(Error::FactoryCellsCountError));
    let (tx, token) = creation(0, 2, b"owner", b"owner");
    assert_eq!(Base::handle_creation(&tx, &token), Err(Error::FactoryCellsCountError));
    let (tx, token) = creation(0, 3, b"owner", b"owner");
    assert_eq!(Base::handle_creation(&tx, &token), Err(Error::FactoryCellsCountError));
}

#[test]
fn base_fails_with_encoding_when_the_id_cannot_be_derived() {
    let (tx, token) = creation(0, 1, b"owner", b"owner");
    let mut no_input = tx.clone();
    no_input.first_input = None;
    assert_eq!(Base::handle_creation(&no_input, &token), Err(Error::Encoding));
    let mut no_output = tx;
    no_output.outputs.clear();
    assert_eq!(Base::handle_creation(&no_output, &token), Err(Error::Encoding));
}

#[test]
fn base_check_creation_takes_the_id_as_given() {
    let (tx, token) = creation(0, 1, b"owner", b"owner");
    let id = derive_identity(&FIRST_INPUT, 0);
    assert_eq!(Base::check_creation(&tx, &token, &id), Ok(()));
    assert_eq!(Base::check_creation(&tx, &token, &[0; 32]), Err(Error::TypeArgsInvalid));
    let plain = nft_type(&[5; 32]);
    assert_eq!(Base::check_creation(&tx, &plain, &[5; 32]), Ok(()));
    let (tx, _) = creation(0, 2, b"owner", b"owner");
    assert_eq!(Base::check_creation(&tx, &plain, &[5; 32]), Err(Error::FactoryCellsCountError));
    assert_eq!(Base::check_creation(&tx, &plain, &[6; 32]), Err(Error::TypeArgsInvalid));
}

#[test]
fn base_asks_nothing_of_update_and_destruction() {
    let token = nft_type(&[0; 32]);
    assert_eq!(Base::handle_update(&token), Ok(()));
    assert_eq!(Base::handle_destroying(&token), Ok(()));
}

#[test]
fn any_locked_by_finds_an_equal_lock() {
    let cells = vec![cell(None, b"a"), cell(None, b"bc"), cell(None, b"")];
    assert!(any_locked_by(&cells, b"bc"));
    assert!(any_locked_by(&cells, b""));
    assert!(!any_locked_by(&cells, b"b"));
    assert!(!any_locked_by(&vec![], b"a"));
}

#[test]
fn owner_rule_accepts_an_input_of_the_owner() {
    let (tx, token) = creation(0, 1, b"owner", b"owner");
    assert_eq!(OnlyOwner::handle_creation(&tx, &token), Ok(()));
    let mut more = tx;
    more.inputs.insert(0, cell(None, b"stranger"));
    assert_eq!(OnlyOwner::handle_creation(&more, &token), Ok(()));
}

#[test]
fn owner_rule_rejects_when_no_input_is_the_owners() {
    let (tx, token) = creation(0, 1, b"owner", b"stranger");
    assert_eq!(OnlyOwner::handle_creation(&tx, &token), Err(Error::OnlyOwnerConditionError));
    let mut none = tx;
    none.inputs.clear();
    assert_eq!(OnlyOwner::handle_creation(&none, &token), Err(Error::OnlyOwnerConditionError));
}

#[test]
fn owner_rule_compares_locks_byte_for_byte() {
    let (tx, token) = creation(0, 1, b"owner", b"owner!");
    assert_eq!(OnlyOwner::handle_creation(&tx, &token), Err(Error::OnlyOwnerConditionError));
    let (tx, token) = creation(0, 1, b"owner", b"owne");
    assert_eq!(OnlyOwner::handle_creation(&tx, &token), Err(Error::OnlyOwnerConditionError));
}

#[test]
fn owner_rule_takes_the_first_factory_cell() {
    let (mut tx, token) = creation(0, 1, b"first", b"second");
    tx.cell_deps.push(cell(Some(factory_type()), b"second"));
    assert_eq!(OnlyOwner::handle_creation(&tx, &token), Err(Error::OnlyOwnerConditionError));
    tx.inputs.push(cell(None, b"first"));
    assert_eq!(OnlyOwner::handle_creation(&tx, &token), Ok(()));
}

#[test]
fn owner_rule_fails_with_encoding_without_factory() {
    let (tx, token) = creation(0, 0, b"owner", b"owner");
    assert_eq!(OnlyOwner::handle_creation(&tx, &token), Err(Error::Encoding));
}

#[test]
fn owner_rule_asks_nothing_of_update_and_destruction() {
    let token = nft_type(&[0; 32]);
    assert_eq!(OnlyOwner::handle_update(&token), Ok(()));
    assert_eq!(OnlyOwner::handle_destroying(&token), Ok(()));
}

#[test]
fn collect_results_returns_the_first_failure() {
    assert_eq!(collect_results(&vec![]), Ok(()));
    assert_eq!(collect_results(&vec![Ok(()), Ok(())]), Ok(()));
    assert_eq!(
        collect_results(&vec![Ok(()), Err(Error::Encoding), Err(Error::DataInvalid)]),
        Err(Error::Encoding)
    );
    assert_eq!(
        collect_results(&vec![Err(Error::CellsCountError), Ok(())]),
        Err(Error::CellsCountError)
    );
}

#[test]
fn composite_accepts_when_both_rules_accept() {
    let rules = Composite { first: Base, second: OnlyOwner };
    let (tx, token) = creation(2, 1, b"owner", b"owner");
    assert_eq!(rules.handle_creation(&tx, &token), Ok(()));
    assert_eq!(rules.validate(&tx, &token), Ok(()));
}

#[test]
fn composite_fails_with_the_error_of_the_first_rule_that_rejects() {
    let rules = Composite { first: Base, second: OnlyOwner };
    // both reject: the base rule comes first
    let (tx, token) = creation(0, 2, b"owner", b"stranger");
    assert_eq!(Base::handle_creation(&tx, &token), Err(Error::FactoryCellsCountError));
    assert_eq!(OnlyOwner::handle_creation(&tx, &token), Err(Error::OnlyOwnerConditionError));
    assert_eq!(rules.handle_creation(&tx, &token), Err(Error::FactoryCellsCountError));
    // in the other order the owner rule comes first
    let swapped = Composite { first: OnlyOwner, second: Base };
    assert_eq!(swapped.handle_creation(&tx, &token), Err(Error::OnlyOwnerConditionError));
    // only the owner rule rejects
    let (tx, token) = creation(0, 1, b"owner", b"stranger");
    assert_eq!(rules.handle_creation(&tx, &token), Err(Error::OnlyOwnerConditionError));
    // only the base rule rejects
    let (tx, token) = creation(0, 1, b"owner", b"owner");
    let mut forged = token.clone();
    forged.args[70] ^= 1;
    let mut tx = tx;
    tx.outputs[0].type_ = Some(forged.clone());
    assert_eq!(rules.handle_creation(&tx, &forged), Err(Error::TypeArgsInvalid));
}

#[test]
fn composites_nest() {
    let rules = Composite { first: Base, second: Composite { first: OnlyOwner, second: Base } };
    let (tx, token) = creation(0, 1, b"owner", b"owner");
    assert_eq!(rules.on_create(&tx, &token), Ok(()));
    let (tx, token) = creation(0, 1, b"owner", b"stranger");
    assert_eq!(rules.on_create(&tx, &token), Err(Error::OnlyOwnerConditionError));
    assert_eq!(rules.on_update(&tx, &token), Ok(()));
    assert_eq!(rules.on_destroy(&tx, &token), Ok(()));
}

#[test]
fn validate_rejects_args_of_the_wrong_length() {
    let rules = Composite { first: Base, second: OnlyOwner };
    let (tx, token) = creation(0, 1, b"owner", b"owner");
    let mut short = token.clone();
    short.args.truncate(96);
    assert_eq!(rules.validate(&tx, &short), Err(Error::TypeArgsInvalid));
    let mut empty = token;
    empty.args.clear();
    assert_eq!(rules.validate(&tx, &empty), Err(Error::TypeArgsInvalid));
}

#[test]
fn validate_runs_the_rules_of_the_transition() {
    let rules = Composite { first: Base, second: OnlyOwner };
    let (tx, token) = transfer(1, 1);
    assert_eq!(rules.validate(&tx, &token), Ok(()));
    let (tx, token) = transfer(1, 0);
    assert_eq!(rules.validate(&tx, &token), Ok(()));
    let (tx, token) = transfer(2, 1);
    assert_eq!(rules.validate(&tx, &token), Err(Error::CellsCountError));
    // a creation whose token id was not derived from the transaction
    let (tx, token) = transfer(0, 1);
    assert_eq!(rules.validate(&tx, &token), Err(Error::TypeArgsInvalid));
    let (tx, token) = creation(0, 1, b"owner", b"stranger");
    assert_eq!(rules.validate(&tx, &token), Err(Error::OnlyOwnerConditionError));
}

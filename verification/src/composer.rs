//! Composition of rules: a validator made of several rules accepts a
//! transition when all of them accept it, and otherwise fails with the error
//! of the first rule, in their order, that rejects it.

use vstd::prelude::*;
use crate::cell::{Script, ScriptView, Transaction, TransactionView};
use crate::error::Error;
use crate::extensions::{only_owner_creation, OnlyOwner};
use crate::helper::Action;
use crate::nft::NFT_TYPE_ARGS_LEN;
use crate::{base_creation, nft_action, parse_nft_action, valid_nft_args, Base};

verus! {

/// A rule on the three transitions of a token. What a rule answers depends
/// on the transaction and on the token's type alone.
pub trait RuleComponent {
    /// What the rule says of a creation.
    spec fn creation(&self, tx: TransactionView, nft: ScriptView) -> Result<(), Error>;

    /// What the rule says of an update.
    spec fn update(&self, tx: TransactionView, nft: ScriptView) -> Result<(), Error>;

    /// What the rule says of a destruction.
    spec fn destroying(&self, tx: TransactionView, nft: ScriptView) -> Result<(), Error>;

    /// Checks the creation of a token of type `nft_type`.
    fn on_create(&self, tx: &Transaction, nft_type: &Script) -> (checked: Result<(), Error>)
        requires
            nft_type@.args.len() >= NFT_TYPE_ARGS_LEN,
        ensures
            checked == self.creation(tx@, nft_type@),
    ;

    /// Checks the update of a token of type `nft_type`.
    fn on_update(&self, tx: &Transaction, nft_type: &Script) -> (checked: Result<(), Error>)
        requires
            nft_type@.args.len() >= NFT_TYPE_ARGS_LEN,
        ensures
            checked == self.update(tx@, nft_type@),
    ;

    /// Checks the destruction of a token of type `nft_type`.
    fn on_destroy(&self, tx: &Transaction, nft_type: &Script) -> (checked: Result<(), Error>)
        requires
            nft_type@.args.len() >= NFT_TYPE_ARGS_LEN,
        ensures
            checked == self.destroying(tx@, nft_type@),
    ;
}

impl RuleComponent for Base {
    open spec fn creation(&self, tx: TransactionView, nft: ScriptView) -> Result<(), Error> {
        base_creation(tx, nft)
    }

    open spec fn update(&self, tx: TransactionView, nft: ScriptView) -> Result<(), Error> {
        Ok(())
    }

    open spec fn destroying(&self, tx: TransactionView, nft: ScriptView) -> Result<(), Error> {
        Ok(())
    }

    fn on_create(&self, tx: &Transaction, nft_type: &Script) -> (checked: Result<(), Error>) {
        Base::handle_creation(tx, nft_type)
    }

    fn on_update(&self, tx: &Transaction, nft_type: &Script) -> (checked: Result<(), Error>) {
        Base::handle_update(nft_type)
    }

    fn on_destroy(&self, tx: &Transaction, nft_type: &Script) -> (checked: Result<(), Error>) {
        Base::handle_destroying(nft_type)
    }
}

impl RuleComponent for OnlyOwner {
    open spec fn creation(&self, tx: TransactionView, nft: ScriptView) -> Result<(), Error> {
        only_owner_creation(tx, nft)
    }

    open spec fn update(&self, tx: TransactionView, nft: ScriptView) -> Result<(), Error> {
        Ok(())
    }

    open spec fn destroying(&self, tx: TransactionView, nft: ScriptView) -> Result<(), Error> {
        Ok(())
    }

    fn on_create(&self, tx: &Transaction, nft_type: &Script) -> (checked: Result<(), Error>) {
        OnlyOwner::handle_creation(tx, nft_type)
    }

    fn on_update(&self, tx: &Transaction, nft_type: &Script) -> (checked: Result<(), Error>) {
        OnlyOwner::handle_update(nft_type)
    }

    fn on_destroy(&self, tx: &Transaction, nft_type: &Script) -> (checked: Result<(), Error>) {
        OnlyOwner::handle_destroying(nft_type)
    }
}

/// The first failure in a list of results, or `Ok` if there is none.
pub open spec fn first_failure(results: Seq<Result<(), Error>>) -> Result<(), Error>
    decreases results.len(),
{
    if results.len() == 0 {
        Ok(())
    } else {
        match results.first() {
            Err(e) => Err(e),
            Ok(_) => first_failure(results.drop_first()),
        }
    }
}

/// Scans the results of the rules in order and returns the first failure.
pub fn collect_results(results: &Vec<Result<(), Error>>) -> (outcome: Result<(), Error>)
    ensures
        outcome == first_failure(results@),
{
    let mut i: usize = 0;
    assert(results@.skip(0) =~= results@);
    while i < results.len()
        invariant
            i <= results@.len(),
            first_failure(results@) == first_failure(results@.skip(i as int)),
        decreases results@.len() - i,
    {
        assert(results@.skip(i as int).first() == results@[i as int]);
        assert(results@.skip(i as int).drop_first() =~= results@.skip(i + 1));
        match &results[i] {
            Ok(_) => {},
            Err(err) => {
                return Err(*err);
            },
        }
        i += 1;
    }
    Ok(())
}

/// Checks that the args of a token's type have the right length.
pub fn validate_nft_args(nft_type: &Script) -> (checked: Result<(), Error>)
    ensures
        checked == if valid_nft_args(nft_type@) {
            Ok::<(), Error>(())
        } else {
            Err::<(), Error>(Error::TypeArgsInvalid)
        },
{
    if nft_type.args.len() != NFT_TYPE_ARGS_LEN {
        return Err(Error::TypeArgsInvalid);
    }
    Ok(())
}

/// Two rules in a row. The second may itself be a composite, so that any
/// number of rules can be put in order.
pub struct Composite<A, B> {
    pub first: A,
    pub second: B,
}

impl<A: RuleComponent, B: RuleComponent> Composite<A, B> {
    /// What the composite says of a transaction: the args of the type must
    /// be valid, the cell counts must stand for a transition, and the rules
    /// must accept that transition.
    pub open spec fn validation(&self, tx: TransactionView, nft: ScriptView) -> Result<(), Error> {
        if !valid_nft_args(nft) {
            Err(Error::TypeArgsInvalid)
        } else {
            match nft_action(tx, nft) {
                Err(e) => Err(e),
                Ok(Action::Create) => self.creation(tx, nft),
                Ok(Action::Update) => self.update(tx, nft),
                Ok(Action::Destroy) => self.destroying(tx, nft),
            }
        }
    }

    /// Runs both rules on a creation and returns the first failure.
    pub fn handle_creation(&self, tx: &Transaction, nft_type: &Script) -> (checked: Result<
        (),
        Error,
    >)
        requires
            nft_type@.args.len() >= NFT_TYPE_ARGS_LEN,
        ensures
            checked == self.creation(tx@, nft_type@),
    {
        let results: Vec<Result<(), Error>> = vec![
            self.first.on_create(tx, nft_type),
            self.second.on_create(tx, nft_type),
        ];
        proof {
            reveal_with_fuel(first_failure, 3);
        }
        collect_results(&results)
    }

    /// Runs both rules on an update and returns the first failure.
    pub fn handle_update(&self, tx: &Transaction, nft_type: &Script) -> (checked: Result<(), Error>)
        requires
            nft_type@.args.len() >= NFT_TYPE_ARGS_LEN,
        ensures
            checked == self.update(tx@, nft_type@),
    {
        let results: Vec<Result<(), Error>> = vec![
            self.first.on_update(tx, nft_type),
            self.second.on_update(tx, nft_type),
        ];
        proof {
            reveal_with_fuel(first_failure, 3);
        }
        collect_results(&results)
    }

    /// Runs both rules on a destruction and returns the first failure.
    pub fn handle_destroying(&self, tx: &Transaction, nft_type: &Script) -> (checked: Result<
        (),
        Error,
    >)
        requires
            nft_type@.args.len() >= NFT_TYPE_ARGS_LEN,
        ensures
            checked == self.destroying(tx@, nft_type@),
    {
        let results: Vec<Result<(), Error>> = vec![
            self.first.on_destroy(tx, nft_type),
            self.second.on_destroy(tx, nft_type),
        ];
        proof {
            reveal_with_fuel(first_failure, 3);
        }
        collect_results(&results)
    }

    /// Validates a transaction for the token type `nft_type`: checks the
    /// args, finds the transition and runs the rules on it.
    pub fn validate(&self, tx: &Transaction, nft_type: &Script) -> (checked: Result<(), Error>)
        ensures
            checked == self.validation(tx@, nft_type@),
    {
        match validate_nft_args(nft_type) {
            Err(e) => {
                return Err(e);
            },
            Ok(_) => {},
        }
        match parse_nft_action(tx, nft_type) {
            Err(e) => Err(e),
            Ok(Action::Create) => self.handle_creation(tx, nft_type),
            Ok(Action::Update) => self.handle_update(tx, nft_type),
            Ok(Action::Destroy) => self.handle_destroying(tx, nft_type),
        }
    }
}

impl<A: RuleComponent, B: RuleComponent> RuleComponent for Composite<A, B> {
    open spec fn creation(&self, tx: TransactionView, nft: ScriptView) -> Result<(), Error> {
        first_failure(seq![self.first.creation(tx, nft), self.second.creation(tx, nft)])
    }

    open spec fn update(&self, tx: TransactionView, nft: ScriptView) -> Result<(), Error> {
        first_failure(seq![self.first.update(tx, nft), self.second.update(tx, nft)])
    }

    open spec fn destroying(&self, tx: TransactionView, nft: ScriptView) -> Result<(), Error> {
        first_failure(seq![self.first.destroying(tx, nft), self.second.destroying(tx, nft)])
    }

    fn on_create(&self, tx: &Transaction, nft_type: &Script) -> (checked: Result<(), Error>) {
        self.handle_creation(tx, nft_type)
    }

    fn on_update(&self, tx: &Transaction, nft_type: &Script) -> (checked: Result<(), Error>) {
        self.handle_update(tx, nft_type)
    }

    fn on_destroy(&self, tx: &Transaction, nft_type: &Script) -> (checked: Result<(), Error>) {
        self.handle_destroying(tx, nft_type)
    }
}

/// A composite accepts a creation exactly when both of its rules accept it,
/// and otherwise fails with the error of the first of them that rejects it.
pub proof fn lemma_composite_creation<A: RuleComponent, B: RuleComponent>(
    composite: Composite<A, B>,
    tx: TransactionView,
    nft: ScriptView,
)
    ensures
        ({
            let first = composite.first.creation(tx, nft);
            let second = composite.second.creation(tx, nft);
            let both = composite.creation(tx, nft);
            &&& both is Ok <==> first is Ok && second is Ok
            &&& first is Err ==> both == first
            &&& first is Ok && second is Err ==> both == second
        }),
{
    reveal_with_fuel(first_failure, 3);
}

/// The composite of the base rule and the owner rule accepts a creation
/// exactly when both accept it; it fails with the error of the base rule
/// where that rule rejects, and else with the error of the owner rule.
pub proof fn lemma_base_and_owner_creation(tx: TransactionView, nft: ScriptView)
    ensures
        ({
            let both = Composite { first: Base, second: OnlyOwner }.creation(tx, nft);
            &&& both is Ok <==> base_creation(tx, nft) is Ok && only_owner_creation(tx, nft) is Ok
            &&& base_creation(tx, nft) is Err ==> both == base_creation(tx, nft)
            &&& base_creation(tx, nft) is Ok && only_owner_creation(tx, nft) is Err ==> both
                == only_owner_creation(tx, nft)
        }),
{
    lemma_composite_creation(Composite { first: Base, second: OnlyOwner }, tx, nft);
}

/// The first failure of a list of results is the failure at the first index
/// that holds one; there is none exactly when every result is `Ok`.
pub proof fn lemma_first_failure(results: Seq<Result<(), Error>>)
    ensures
        match first_failure(results) {
            Ok(_) => forall|k: int| 0 <= k < results.len() ==> (#[trigger] results[k]) is Ok,
            Err(e) => exists|i: int|
                {
                    &&& 0 <= i < results.len()
                    &&& #[trigger] results[i] == Err::<(), Error>(e)
                    &&& forall|k: int| 0 <= k < i ==> (#[trigger] results[k]) is Ok
                },
        },
    decreases results.len(),
{
    if results.len() > 0 {
        let rest = results.drop_first();
        lemma_first_failure(rest);
        match results.first() {
            Err(e) => {
                assert(results[0] == Err::<(), Error>(e));
            },
            Ok(_) => {
                match first_failure(rest) {
                    Ok(_) => {
                        assert forall|k: int| 0 <= k < results.len() implies (
                        #[trigger] results[k]) is Ok by {
                            if k > 0 {
                                assert(rest[k - 1] is Ok);
                            }
                        }
                    },
                    Err(e) => {
                        let i = choose|i: int|
                            {
                                &&& 0 <= i < rest.len()
                                &&& #[trigger] rest[i] == Err::<(), Error>(e)
                                &&& forall|k: int| 0 <= k < i ==> (#[trigger] rest[k]) is Ok
                            };
                        assert(results[i + 1] == Err::<(), Error>(e));
                        assert forall|k: int| 0 <= k < i + 1 implies (#[trigger] results[k]) is Ok by {
                            if k > 0 {
                                assert(rest[k - 1] is Ok);
                            }
                        }
                    },
                }
            },
        }
    }
}

} // verus!

//! A solution: the intents that are to be settled together, in the order in
//! which the chain is to run them.

use vstd::prelude::*;
use crate::primitives::U256;
use crate::user_intent::{UserIntent, UserIntentView};

verus! {

/// Several intents with the block at which they are to run. It is made
/// once, right before it is submitted, and does not change after that.
#[derive(Clone, Debug, PartialEq, Eq, Hash)]
pub struct IntentSolution {
    execution_block_number: U256,
    intents: Vec<UserIntent>,
    order: Vec<U256>,
}

/// What an [`IntentSolution`] holds, as mathematical values.
pub struct IntentSolutionView {
    /// The number of the block at which the solution is to run.
    pub execution_block_number: int,
    /// The intents, in the order in which they were given.
    pub intents: Seq<UserIntentView>,
    /// The order in which the chain is to step through the segments of the
    /// intents, where the caller gives one.
    pub order: Seq<int>,
}

/// The views of a sequence of intents, in the same order.
pub open spec fn intent_views(intents: Seq<UserIntent>) -> Seq<UserIntentView> {
    intents.map_values(|intent: UserIntent| intent@)
}

/// The numbers that a sequence of unsigned words stands for.
pub open spec fn unsigned_values(words: Seq<U256>) -> Seq<int> {
    words.map_values(|word: U256| word@)
}

impl View for IntentSolution {
    type V = IntentSolutionView;

    closed spec fn view(&self) -> IntentSolutionView {
        IntentSolutionView {
            execution_block_number: self.execution_block_number@,
            intents: intent_views(self.intents@),
            order: unsigned_values(self.order@),
        }
    }
}

impl IntentSolution {
    /// The solution that runs `intents` at block `execution_block_number`.
    /// The intents stay in the order given; none is looked into.
    pub fn new(
        execution_block_number: U256,
        intents: Vec<UserIntent>,
        order: Vec<U256>,
    ) -> (solution: IntentSolution)
        ensures
            solution@ == (IntentSolutionView {
                execution_block_number: execution_block_number@,
                intents: intent_views(intents@),
                order: unsigned_values(order@),
            }),
    {
        IntentSolution { execution_block_number, intents, order }
    }

    /// The number of the block at which the solution is to run.
    pub fn execution_block_number(&self) -> (number: U256)
        ensures
            number@ == self@.execution_block_number,
    {
        self.execution_block_number
    }

    /// The intents, in the order in which they were given.
    pub fn intents(&self) -> (intents: &Vec<UserIntent>)
        ensures
            intent_views(intents@) == self@.intents,
    {
        &self.intents
    }

    /// The order that the caller gave.
    pub fn order(&self) -> (order: &Vec<U256>)
        ensures
            unsigned_values(order@) == self@.order,
    {
        &self.order
    }
}

} // verus!

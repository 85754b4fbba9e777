//! Sequences of calls into the engine, as mathematical values: what a call
//! is, the state after one call and after many.

use vstd::prelude::*;
use crate::error::DaoError;
use crate::invocation::{CallOutcome, InvocationView};
use crate::model::DaoState;

verus! {

/// One operation of the engine with its arguments.
pub enum Operation {
    Initialize { admin: Seq<char>, token_address: Seq<char> },
    AddMember { admin: Seq<char>, new_member: Seq<char>, transfer: CallOutcome },
    CreateProposal {
        proposer: Seq<char>,
        description: Seq<u8>,
        target: Seq<char>,
        function: Seq<char>,
        parameters: Seq<u64>,
        deadline_in_seconds: u64,
    },
    Vote { voter: Seq<char>, proposal_id: u32, vote_for: bool },
    ExecuteProposal { caller: Seq<char>, proposal_id: u32, dispatch: CallOutcome },
}

/// One call into the engine: the operation, and the time and signers it
/// comes with.
pub struct Step {
    pub call: InvocationView,
    pub operation: Operation,
}

impl Step {
    /// The state that this call leads to from `state`, or the reason for
    /// which it is refused.
    pub open spec fn outcome(self, state: DaoState) -> Result<DaoState, DaoError> {
        match self.operation {
            Operation::Initialize { admin, token_address } => state.initialize(
                self.call,
                admin,
                token_address,
            ),
            Operation::AddMember { admin, new_member, transfer } => state.add_member(
                self.call,
                admin,
                new_member,
                transfer,
            ),
            Operation::CreateProposal {
                proposer,
                description,
                target,
                function,
                parameters,
                deadline_in_seconds,
            } => state.create_proposal(
                self.call,
                proposer,
                description,
                target,
                function,
                parameters,
                deadline_in_seconds,
            ),
            Operation::Vote { voter, proposal_id, vote_for } => state.vote(
                self.call,
                voter,
                proposal_id,
                vote_for,
            ),
            Operation::ExecuteProposal { caller, proposal_id, dispatch } => state.execute_proposal(
                self.call,
                caller,
                proposal_id,
                dispatch,
            ),
        }
    }

    /// The weight that this call adds to one side of the tally of the
    /// proposal: the balance of the voter where the call is a vote on that
    /// proposal and that side and is taken, nothing otherwise.
    pub open spec fn weight_cast(self, state: DaoState, proposal_id: u32, vote_for: bool) -> int {
        match self.operation {
            Operation::Vote { voter, proposal_id: on, vote_for: side } if on == proposal_id
                && side == vote_for && self.outcome(state) is Ok => state.member(
                voter,
            )->0.token_balance as int,
            _ => 0,
        }
    }

    /// Whether this call creates a proposal.
    pub open spec fn creates(self, state: DaoState) -> bool {
        self.operation is CreateProposal && self.outcome(state) is Ok
    }
}

/// The state after one call: a refused call leaves the state as it was.
pub open spec fn after(state: DaoState, step: Step) -> DaoState {
    match step.outcome(state) {
        Ok(next) => next,
        Err(_) => state,
    }
}

/// The state after the calls of `steps`, made in that order.
pub open spec fn after_all(state: DaoState, steps: Seq<Step>) -> DaoState
    decreases steps.len(),
{
    if steps.len() == 0 {
        state
    } else {
        after(after_all(state, steps.drop_last()), steps.last())
    }
}

/// No call of `steps` initializes the engine anew.
pub open spec fn no_reset(steps: Seq<Step>) -> bool {
    forall|i: int| 0 <= i < steps.len() ==> !((#[trigger] steps[i]).operation is Initialize)
}

/// The weight that the calls of `steps`, made in that order from `state`,
/// add to one side of the tally of the proposal.
pub open spec fn weight_cast(
    state: DaoState,
    steps: Seq<Step>,
    proposal_id: u32,
    vote_for: bool,
) -> int
    decreases steps.len(),
{
    if steps.len() == 0 {
        0
    } else {
        weight_cast(state, steps.drop_last(), proposal_id, vote_for) + steps.last().weight_cast(
            after_all(state, steps.drop_last()),
            proposal_id,
            vote_for,
        )
    }
}

/// The number of proposals that the calls of `steps`, made in that order
/// from `state`, create.
pub open spec fn creations(state: DaoState, steps: Seq<Step>) -> int
    decreases steps.len(),
{
    if steps.len() == 0 {
        0
    } else {
        creations(state, steps.drop_last()) + if steps.last().creates(
            after_all(state, steps.drop_last()),
        ) {
            1int
        } else {
            0int
        }
    }
}

} // verus!

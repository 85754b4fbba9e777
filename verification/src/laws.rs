//! What holds of the engine whatever calls are made, proved over the state
//! machine that the contracts of the engine are stated in.

use vstd::prelude::*;
use crate::error::DaoError;
use crate::history::{after, after_all, creations, no_reset, weight_cast, Operation, Step};
use crate::invocation::{CallOutcome, InvocationView};
use crate::member::MemberView;
use crate::model::{distinct_members, is_member, member_index, new_member, DaoState};
use crate::proposal::{DispatchView, ProposalStatus, ProposalView};

verus! {

/// Where no two members share an address, the member at a place is the one
/// found by its address.
proof fn lemma_member_lookup(members: Seq<MemberView>, at: int)
    requires
        distinct_members(members),
        0 <= at < members.len(),
    ensures
        is_member(members, members[at].address),
        member_index(members, members[at].address) == at,
{
    let address = members[at].address;
    assert(is_member(members, address));
    let found = member_index(members, address);
    assert(0 <= found < members.len() && members[found].address == address);
}

/// A member that is found is at a place of the sequence.
proof fn lemma_member_found(state: DaoState, address: Seq<char>)
    requires
        state.member(address) is Some,
    ensures
        state.members is Some,
        0 <= member_index(state.members->0, address) < state.members->0.len(),
        state.members->0[member_index(state.members->0, address)].address == address,
        state.member(address)->0 == state.members->0[member_index(state.members->0, address)],
{
}

/// Every call leaves a valid state valid.
pub proof fn lemma_step_keeps_valid(state: DaoState, step: Step)
    requires
        state.valid(),
    ensures
        after(state, step).valid(),
{
    let next = after(state, step);
    if step.outcome(state) is Ok {
        match step.operation {
            Operation::Initialize { .. } => {},
            Operation::AddMember { admin, new_member, transfer } => {
                let before = state.members->0;
                let members = next.members->0;
                assert forall|i: int, j: int|
                    0 <= i < members.len() && 0 <= j < members.len() && #[trigger] members[i].address
                        == #[trigger] members[j].address implies i == j by {
                    if i < before.len() {
                        assert(members[i] == before[i]);
                    }
                    if j < before.len() {
                        assert(members[j] == before[j]);
                    }
                }
            },
            Operation::CreateProposal { .. } => {},
            Operation::Vote { voter, proposal_id, vote_for } => {
                lemma_member_found(state, voter);
                let before = state.members->0;
                let members = next.members->0;
                assert forall|i: int, j: int|
                    0 <= i < members.len() && 0 <= j < members.len() && #[trigger] members[i].address
                        == #[trigger] members[j].address implies i == j by {
                    assert(members[i].address == before[i].address);
                    assert(members[j].address == before[j].address);
                }
            },
            Operation::ExecuteProposal { .. } => {},
        }
    }
}

/// Every state that the engine reaches from a valid state is valid.
pub proof fn lemma_history_keeps_valid(state: DaoState, steps: Seq<Step>)
    requires
        state.valid(),
    ensures
        after_all(state, steps).valid(),
    decreases steps.len(),
{
    if steps.len() > 0 {
        lemma_history_keeps_valid(state, steps.drop_last());
        lemma_step_keeps_valid(after_all(state, steps.drop_last()), steps.last());
    }
}

/// A call other than an initialization keeps every member: its address, its
/// balance and the time it joined stay as they are, and what it has voted on
/// is only added to.
pub proof fn lemma_step_keeps_member(state: DaoState, step: Step, address: Seq<char>)
    requires
        state.valid(),
        !(step.operation is Initialize),
        state.member(address) is Some,
    ensures
        after(state, step).member(address) is Some,
        ({
            let before = state.member(address)->0;
            let now = after(state, step).member(address)->0;
            &&& now.address == address
            &&& now.token_balance == before.token_balance
            &&& now.joined_timestamp == before.joined_timestamp
            &&& before.voted_proposals.is_prefix_of(now.voted_proposals)
        }),
{
    let next = after(state, step);
    lemma_step_keeps_valid(state, step);
    lemma_member_found(state, address);
    let members = state.members->0;
    let at = member_index(members, address);
    if step.outcome(state) is Ok {
        match step.operation {
            Operation::AddMember { .. } => {
                assert(next.members->0[at] == members[at]);
                lemma_member_lookup(next.members->0, at);
            },
            Operation::Vote { voter, .. } => {
                lemma_member_found(state, voter);
                assert(next.members->0[at].address == address);
                lemma_member_lookup(next.members->0, at);
            },
            _ => {},
        }
    }
}

/// A call other than an initialization keeps every proposal and all of it
/// but the tally and the status. The tally grows by the weight that the call
/// casts, and a proposal that is executed or rejected stays as it is.
pub proof fn lemma_step_keeps_proposal(state: DaoState, step: Step, proposal_id: u32)
    requires
        state.valid(),
        !(step.operation is Initialize),
        state.proposal(proposal_id) is Some,
    ensures
        after(state, step).proposal(proposal_id) is Some,
        ({
            let before = state.proposal(proposal_id)->0;
            let now = after(state, step).proposal(proposal_id)->0;
            &&& now == ProposalView {
                votes_for: now.votes_for,
                votes_against: now.votes_against,
                status: now.status,
                ..before
            }
            &&& now.votes_for == before.votes_for + step.weight_cast(state, proposal_id, true)
            &&& now.votes_against == before.votes_against + step.weight_cast(
                state,
                proposal_id,
                false,
            )
            &&& before.status != ProposalStatus::Active ==> now == before
        }),
{
    if step.outcome(state) is Ok {
        match step.operation {
            Operation::Vote { voter, .. } => {
                lemma_member_found(state, voter);
            },
            _ => {},
        }
    }
}

/// The calls of `steps` without the last are no initialization either.
proof fn lemma_no_reset_before(steps: Seq<Step>)
    requires
        no_reset(steps),
        steps.len() > 0,
    ensures
        no_reset(steps.drop_last()),
        !(steps.last().operation is Initialize),
{
    assert forall|i: int| 0 <= i < steps.drop_last().len() implies !((
    #[trigger] steps.drop_last()[i]).operation is Initialize) by {
        assert(steps.drop_last()[i] == steps[i]);
    }
}

/// The balance of a member is the one it joined with, whatever calls follow:
/// no call but an initialization removes a member or changes its balance or
/// the time it joined, and none takes back a vote.
pub proof fn lemma_history_keeps_member(state: DaoState, steps: Seq<Step>, address: Seq<char>)
    requires
        state.valid(),
        no_reset(steps),
        state.member(address) is Some,
    ensures
        after_all(state, steps).member(address) is Some,
        ({
            let before = state.member(address)->0;
            let now = after_all(state, steps).member(address)->0;
            &&& now.address == address
            &&& now.token_balance == before.token_balance
            &&& now.joined_timestamp == before.joined_timestamp
            &&& before.voted_proposals.is_prefix_of(now.voted_proposals)
        }),
    decreases steps.len(),
{
    if steps.len() > 0 {
        lemma_no_reset_before(steps);
        lemma_history_keeps_member(state, steps.drop_last(), address);
        lemma_history_keeps_valid(state, steps.drop_last());
        lemma_step_keeps_member(after_all(state, steps.drop_last()), steps.last(), address);
    } else {
        lemma_member_found(state, address);
    }
}

/// After any calls but an initialization, each side of the tally of a
/// proposal is what it was plus the balances of the members whose votes for
/// that side were taken since; the rest of the proposal but its status is as
/// it was.
pub proof fn lemma_tally_is_weight_cast(state: DaoState, steps: Seq<Step>, proposal_id: u32)
    requires
        state.valid(),
        no_reset(steps),
        state.proposal(proposal_id) is Some,
    ensures
        after_all(state, steps).proposal(proposal_id) is Some,
        ({
            let before = state.proposal(proposal_id)->0;
            let now = after_all(state, steps).proposal(proposal_id)->0;
            &&& now == ProposalView {
                votes_for: now.votes_for,
                votes_against: now.votes_against,
                status: now.status,
                ..before
            }
            &&& now.votes_for == before.votes_for + weight_cast(state, steps, proposal_id, true)
            &&& now.votes_against == before.votes_against + weight_cast(
                state,
                steps,
                proposal_id,
                false,
            )
        }),
    decreases steps.len(),
{
    if steps.len() > 0 {
        lemma_no_reset_before(steps);
        lemma_tally_is_weight_cast(state, steps.drop_last(), proposal_id);
        lemma_history_keeps_valid(state, steps.drop_last());
        lemma_step_keeps_proposal(after_all(state, steps.drop_last()), steps.last(), proposal_id);
    }
}

/// Each side of the tally of a proposal is the sum of the balances of the
/// members whose votes for that side were taken since the proposal was
/// created, whatever calls but an initialization were made since.
pub proof fn lemma_tally_since_creation(
    state: DaoState,
    call: InvocationView,
    proposer: Seq<char>,
    description: Seq<u8>,
    target: Seq<char>,
    function: Seq<char>,
    parameters: Seq<u64>,
    deadline_in_seconds: u64,
    steps: Seq<Step>,
)
    requires
        state.valid(),
        state.create_proposal(
            call,
            proposer,
            description,
            target,
            function,
            parameters,
            deadline_in_seconds,
        ) is Ok,
        no_reset(steps),
    ensures
        ({
            let created = state.create_proposal(
                call,
                proposer,
                description,
                target,
                function,
                parameters,
                deadline_in_seconds,
            )->Ok_0;
            let id = created.proposal_count->0;
            let now = after_all(created, steps).proposal(id);
            &&& now is Some
            &&& now->0.votes_for == weight_cast(created, steps, id, true)
            &&& now->0.votes_against == weight_cast(created, steps, id, false)
        }),
{
    let created = state.create_proposal(
        call,
        proposer,
        description,
        target,
        function,
        parameters,
        deadline_in_seconds,
    )->Ok_0;
    let step = Step {
        call,
        operation: Operation::CreateProposal {
            proposer,
            description,
            target,
            function,
            parameters,
            deadline_in_seconds,
        },
    };
    assert(after(state, step) == created);
    lemma_step_keeps_valid(state, step);
    lemma_tally_is_weight_cast(created, steps, created.proposal_count->0);
}

/// A proposal that is executed or rejected stays exactly as it is, whatever
/// calls but an initialization follow.
pub proof fn lemma_settled_stays_settled(state: DaoState, steps: Seq<Step>, proposal_id: u32)
    requires
        state.valid(),
        no_reset(steps),
        state.proposal(proposal_id) is Some,
        state.proposal(proposal_id)->0.status != ProposalStatus::Active,
    ensures
        after_all(state, steps).proposal(proposal_id) == state.proposal(proposal_id),
    decreases steps.len(),
{
    if steps.len() > 0 {
        lemma_no_reset_before(steps);
        lemma_settled_stays_settled(state, steps.drop_last(), proposal_id);
        lemma_history_keeps_valid(state, steps.drop_last());
        lemma_step_keeps_proposal(after_all(state, steps.drop_last()), steps.last(), proposal_id);
    }
}

/// A member that is admitted has the allotment of 100 as its balance, the
/// time of the call as the time it joined and no vote cast; the members that
/// were there stay as they are.
pub proof fn lemma_admitted_member(
    state: DaoState,
    call: InvocationView,
    admin: Seq<char>,
    address: Seq<char>,
    transfer: CallOutcome,
)
    requires
        state.valid(),
        state.add_member(call, admin, address, transfer) is Ok,
    ensures
        ({
            let next = state.add_member(call, admin, address, transfer)->Ok_0;
            &&& state.member(address) is None
            &&& next.member(address) == Some(new_member(address, call.timestamp))
            &&& next.member(address)->0.token_balance == 100
            &&& next.member(address)->0.voted_proposals.len() == 0
            &&& forall|other: Seq<char>|
                other != address ==> #[trigger] next.member(other) == state.member(other)
        }),
{
    let next = state.add_member(call, admin, address, transfer)->Ok_0;
    let step = Step {
        call,
        operation: Operation::AddMember { admin, new_member: address, transfer },
    };
    assert(after(state, step) == next);
    lemma_step_keeps_valid(state, step);
    let before = state.members->0;
    let members = next.members->0;
    lemma_member_lookup(members, before.len() as int);
    assert forall|other: Seq<char>| other != address implies #[trigger] next.member(other)
        == state.member(other) by {
        if is_member(before, other) {
            let at = member_index(before, other);
            assert(members[at] == before[at]);
            lemma_member_lookup(members, at);
        } else if is_member(members, other) {
            let at = member_index(members, other);
            assert(members[at] == before[at]);
        }
    }
}

/// A proposal that is created gets the next id: one more than the number of
/// proposals created before it, which then is the counter.
pub proof fn lemma_created_id(
    state: DaoState,
    call: InvocationView,
    proposer: Seq<char>,
    description: Seq<u8>,
    target: Seq<char>,
    function: Seq<char>,
    parameters: Seq<u64>,
    deadline_in_seconds: u64,
)
    requires
        state.valid(),
        state.create_proposal(
            call,
            proposer,
            description,
            target,
            function,
            parameters,
            deadline_in_seconds,
        ) is Ok,
    ensures
        ({
            let next = state.create_proposal(
                call,
                proposer,
                description,
                target,
                function,
                parameters,
                deadline_in_seconds,
            )->Ok_0;
            let id = next.proposal_count->0;
            &&& id == state.proposal_count->0 + 1
            &&& id == state.proposals->0.len() + 1
            &&& id == next.proposals->0.len()
            &&& next.proposal(id) is Some
            &&& next.proposal(id)->0.id == id
            &&& next.proposal(id)->0.status == ProposalStatus::Active
            &&& next.proposal(id)->0.votes_for == 0
            &&& next.proposal(id)->0.votes_against == 0
            &&& next.proposal(id)->0.deadline == call.timestamp + deadline_in_seconds
            &&& forall|other: u32|
                other != id ==> #[trigger] next.proposal(other) == state.proposal(other)
        }),
{
}

/// The ids are handed out densely in the order of the calls: after any calls
/// but an initialization the counter is what it was plus the number of
/// proposals created since, that is also the number of proposals, and the
/// proposal with the id `i` is the `i`-th that was created.
pub proof fn lemma_counter_counts_creations(state: DaoState, steps: Seq<Step>)
    requires
        state.valid(),
        no_reset(steps),
        state.proposals is Some,
        state.proposal_count is Some,
    ensures
        ({
            let now = after_all(state, steps);
            &&& now.proposals is Some
            &&& now.proposal_count == Some(
                (state.proposal_count->0 + creations(state, steps)) as u32,
            )
            &&& now.proposals->0.len() == state.proposal_count->0 + creations(state, steps)
            &&& creations(state, steps) >= 0
            &&& forall|id: u32|
                1 <= id <= now.proposals->0.len() ==> (#[trigger] now.proposal(id)) is Some
                    && now.proposal(id)->0.id == id
        }),
    decreases steps.len(),
{
    lemma_history_keeps_valid(state, steps);
    if steps.len() > 0 {
        lemma_no_reset_before(steps);
        lemma_counter_counts_creations(state, steps.drop_last());
    }
}

/// Counted from an initialization, the counter is the number of proposals
/// ever created, and the ids are 1, 2, 3, ... in the order of creation.
pub proof fn lemma_ids_dense_from_one(
    state: DaoState,
    call: InvocationView,
    admin: Seq<char>,
    token_address: Seq<char>,
    steps: Seq<Step>,
)
    requires
        state.initialize(call, admin, token_address) is Ok,
        no_reset(steps),
    ensures
        ({
            let now = after_all(state.initialize(call, admin, token_address)->Ok_0, steps);
            &&& now.proposal_count == Some(creations(
                state.initialize(call, admin, token_address)->Ok_0,
                steps,
            ) as u32)
            &&& now.proposals is Some
            &&& now.proposals->0.len() == creations(
                state.initialize(call, admin, token_address)->Ok_0,
                steps,
            )
            &&& forall|i: int|
                0 <= i < now.proposals->0.len() ==> (#[trigger] now.proposals->0[i]).id == i + 1
        }),
{
    let start = state.initialize(call, admin, token_address)->Ok_0;
    lemma_counter_counts_creations(start, steps);
    lemma_history_keeps_valid(start, steps);
}

/// A vote is taken at most once for each member and proposal: once a vote of
/// a member on a proposal is taken, every later vote that the member signs
/// on that proposal is refused as already cast, whatever calls but an
/// initialization come in between.
pub proof fn lemma_one_vote_per_member(
    state: DaoState,
    call: InvocationView,
    voter: Seq<char>,
    proposal_id: u32,
    vote_for: bool,
    steps: Seq<Step>,
    again: InvocationView,
    again_for: bool,
)
    requires
        state.valid(),
        state.vote(call, voter, proposal_id, vote_for) is Ok,
        no_reset(steps),
        again.signers.contains(voter),
    ensures
        after_all(state.vote(call, voter, proposal_id, vote_for)->Ok_0, steps).vote(
            again,
            voter,
            proposal_id,
            again_for,
        ) == Err::<DaoState, DaoError>(DaoError::AlreadyVoted),
{
    let voted = state.vote(call, voter, proposal_id, vote_for)->Ok_0;
    let step = Step { call, operation: Operation::Vote { voter, proposal_id, vote_for } };
    assert(after(state, step) == voted);
    lemma_step_keeps_valid(state, step);
    lemma_member_found(state, voter);
    let at = member_index(state.members->0, voter);
    assert(voted.members->0[at].address == voter);
    lemma_member_lookup(voted.members->0, at);
    let record = voted.member(voter)->0;
    assert(record.voted_proposals == state.members->0[at].voted_proposals.push(proposal_id));
    assert(record.voted_proposals[record.voted_proposals.len() - 1] == proposal_id);
    assert(record.voted_proposals.contains(proposal_id));
    assert(voted.proposal(proposal_id) is Some);
    lemma_history_keeps_member(voted, steps, voter);
    lemma_tally_is_weight_cast(voted, steps, proposal_id);
    let now = after_all(voted, steps).member(voter)->0;
    let index = choose|i: int|
        0 <= i < record.voted_proposals.len() && record.voted_proposals[i] == proposal_id;
    assert(now.voted_proposals[index] == proposal_id);
}

/// Voting closes strictly after the deadline. Of a vote that a member signs
/// on a proposal it has not voted on: it is refused as closed at any time
/// after the deadline, and taken at any time up to and including the
/// deadline where the proposal is active and the tally has room for it.
pub proof fn lemma_voting_closes_after_deadline(
    state: DaoState,
    call: InvocationView,
    voter: Seq<char>,
    proposal_id: u32,
    vote_for: bool,
)
    requires
        state.valid(),
        call.signers.contains(voter),
        state.member(voter) is Some,
        state.proposal(proposal_id) is Some,
        !state.member(voter)->0.voted_proposals.contains(proposal_id),
    ensures
        call.timestamp > state.proposal(proposal_id)->0.deadline ==> state.vote(
            call,
            voter,
            proposal_id,
            vote_for,
        ) == Err::<DaoState, DaoError>(DaoError::VotingClosed),
        ({
            let proposal = state.proposal(proposal_id)->0;
            let tally = if vote_for {
                proposal.votes_for
            } else {
                proposal.votes_against
            };
            call.timestamp <= proposal.deadline && proposal.status == ProposalStatus::Active
                && i128::MIN <= tally + state.member(voter)->0.token_balance <= i128::MAX
                ==> state.vote(call, voter, proposal_id, vote_for) is Ok
        }),
{
}

/// A vote that a member signs on a proposal that does not exist is refused
/// as not found.
pub proof fn lemma_vote_on_missing_proposal(
    state: DaoState,
    call: InvocationView,
    voter: Seq<char>,
    proposal_id: u32,
    vote_for: bool,
)
    requires
        call.signers.contains(voter),
        state.member(voter) is Some,
        state.proposals is Some,
        state.proposal(proposal_id) is None,
    ensures
        state.vote(call, voter, proposal_id, vote_for) == Err::<DaoState, DaoError>(
            DaoError::ProposalNotFound,
        ),
        after(state, Step { call, operation: Operation::Vote { voter, proposal_id, vote_for } })
            == state,
{
}

/// An execution that is accepted settles the proposal by strict majority:
/// executed where the weight for is more than the weight against, rejected
/// otherwise, a tie included. Nothing else changes.
pub proof fn lemma_execution_follows_majority(
    state: DaoState,
    call: InvocationView,
    caller: Seq<char>,
    proposal_id: u32,
    dispatch: CallOutcome,
)
    requires
        state.valid(),
        state.execute_proposal(call, caller, proposal_id, dispatch) is Ok,
    ensures
        ({
            let before = state.proposal(proposal_id)->0;
            let next = state.execute_proposal(call, caller, proposal_id, dispatch)->Ok_0;
            let now = next.proposal(proposal_id)->0;
            &&& state.proposal(proposal_id) is Some
            &&& next.proposal(proposal_id) is Some
            &&& before.status == ProposalStatus::Active
            &&& now.status == ProposalStatus::Executed <==> before.votes_for > before.votes_against
            &&& now.status == ProposalStatus::Rejected <==> before.votes_for <= before.votes_against
            &&& now.status == ProposalStatus::Executed ==> dispatch == CallOutcome::Completed
                && state.pending_dispatch(call, caller, proposal_id) == Ok::<
                Option<DispatchView>,
                DaoError,
            >(Some(before.dispatch()))
            &&& now == ProposalView { status: now.status, ..before }
            &&& next.members == state.members
            &&& forall|other: u32|
                other != proposal_id ==> #[trigger] next.proposal(other) == state.proposal(other)
        }),
{
}

/// A proposal is settled once: after an execution that is accepted, every
/// later execution of the proposal that its caller signs is refused as
/// already final, and nothing is pending to dispatch for it, whatever calls
/// but an initialization come in between.
pub proof fn lemma_executed_once(
    state: DaoState,
    call: InvocationView,
    caller: Seq<char>,
    proposal_id: u32,
    dispatch: CallOutcome,
    steps: Seq<Step>,
    again: InvocationView,
    again_caller: Seq<char>,
    again_dispatch: CallOutcome,
)
    requires
        state.valid(),
        state.execute_proposal(call, caller, proposal_id, dispatch) is Ok,
        no_reset(steps),
        again.signers.contains(again_caller),
    ensures
        ({
            let settled = state.execute_proposal(call, caller, proposal_id, dispatch)->Ok_0;
            let now = after_all(settled, steps);
            &&& now.proposal(proposal_id) == settled.proposal(proposal_id)
            &&& now.pending_dispatch(again, again_caller, proposal_id) == Err::<
                Option<DispatchView>,
                DaoError,
            >(DaoError::AlreadyFinalized)
            &&& now.execute_proposal(again, again_caller, proposal_id, again_dispatch) == Err::<
                DaoState,
                DaoError,
            >(DaoError::AlreadyFinalized)
        }),
{
    let settled = state.execute_proposal(call, caller, proposal_id, dispatch)->Ok_0;
    let step = Step {
        call,
        operation: Operation::ExecuteProposal { caller, proposal_id, dispatch },
    };
    assert(after(state, step) == settled);
    lemma_step_keeps_valid(state, step);
    lemma_settled_stays_settled(settled, steps, proposal_id);
}

} // verus!

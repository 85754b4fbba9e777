//! The engine as a mathematical state machine: its state, what makes a state
//! valid, and for each operation the state and result it leads to.
//!
//! The contracts of the executable engine are stated over the functions of
//! this module.

use vstd::prelude::*;
use crate::error::DaoError;
use crate::invocation::{CallOutcome, InvocationView};
use crate::member::{MemberView, MEMBER_ALLOTMENT};
use crate::proposal::{
    DispatchView, ExecutionWindow, ProposalStatus, ProposalView, TokenTransferView,
};

verus! {

/// Whether some member in `members` has the address `address`.
pub open spec fn is_member(members: Seq<MemberView>, address: Seq<char>) -> bool {
    exists|i: int| 0 <= i < members.len() && #[trigger] members[i].address == address
}

/// The place in `members` of the member with the address `address`.
pub open spec fn member_index(members: Seq<MemberView>, address: Seq<char>) -> int {
    choose|i: int| 0 <= i < members.len() && #[trigger] members[i].address == address
}

/// No two members have the same address.
pub open spec fn distinct_members(members: Seq<MemberView>) -> bool {
    forall|i: int, j: int|
        0 <= i < members.len() && 0 <= j < members.len() && #[trigger] members[i].address
            == #[trigger] members[j].address ==> i == j
}

/// The ids are 1, 2, 3, ... in the order of the sequence.
pub open spec fn dense_ids(proposals: Seq<ProposalView>) -> bool {
    &&& proposals.len() <= u32::MAX
    &&& forall|i: int| 0 <= i < proposals.len() ==> (#[trigger] proposals[i]).id == i + 1
}

/// The longest voting period that is taken, in seconds.
pub open spec fn max_voting_period() -> int {
    i64::MAX as int
}

/// The member that `add_member` records for `address` at the time `now`.
pub open spec fn new_member(address: Seq<char>, now: u64) -> MemberView {
    MemberView {
        address,
        token_balance: MEMBER_ALLOTMENT,
        joined_timestamp: now,
        voted_proposals: Seq::empty(),
    }
}

/// The entries that the engine keeps, each of them present or not.
pub struct DaoState {
    /// The token contract from which members are granted their allotment.
    pub token_address: Option<Seq<char>>,
    /// The members, in the order in which they joined.
    pub members: Option<Seq<MemberView>>,
    /// The proposals, in the order in which they were created.
    pub proposals: Option<Seq<ProposalView>>,
    /// The number of proposals created so far.
    pub proposal_count: Option<u32>,
    /// When proposals may be executed.
    pub window: ExecutionWindow,
}

impl DaoState {
    /// The state in which nothing has been installed.
    pub open spec fn empty(window: ExecutionWindow) -> DaoState {
        DaoState {
            token_address: None,
            members: None,
            proposals: None,
            proposal_count: None,
            window,
        }
    }

    /// What holds of every state the engine is ever in: each address is a
    /// member at most once, the proposal ids are 1, 2, 3, ... in the order of
    /// creation, and the counter is the number of proposals.
    pub open spec fn valid(self) -> bool {
        &&& self.members matches Some(members) ==> distinct_members(members)
        &&& self.proposals matches Some(proposals) ==> dense_ids(proposals)
        &&& self.proposals is Some && self.proposal_count is Some ==> self.proposal_count->0
            == self.proposals->0.len()
    }

    /// The member with the given address, if there is one.
    pub open spec fn member(self, address: Seq<char>) -> Option<MemberView> {
        match self.members {
            Some(members) if is_member(members, address) => Some(
                members[member_index(members, address)],
            ),
            _ => None,
        }
    }

    /// The proposal with the given id, if there is one.
    pub open spec fn proposal(self, id: u32) -> Option<ProposalView> {
        match self.proposals {
            Some(proposals) if 1 <= id <= proposals.len() => Some(proposals[id - 1]),
            _ => None,
        }
    }

    /// `initalize`: installs the token address, empty registries and a
    /// counter of zero, whatever was there before.
    pub open spec fn initialize(
        self,
        call: InvocationView,
        admin: Seq<char>,
        token_address: Seq<char>,
    ) -> Result<DaoState, DaoError> {
        if !call.signers.contains(admin) {
            Err(DaoError::Unauthorized)
        } else {
            Ok(
                DaoState {
                    token_address: Some(token_address),
                    members: Some(Seq::empty()),
                    proposals: Some(Seq::empty()),
                    proposal_count: Some(0),
                    window: self.window,
                },
            )
        }
    }

    /// The transfer that has to succeed before `new_member` is admitted, or
    /// the reason for which the admission is refused.
    pub open spec fn member_grant(
        self,
        call: InvocationView,
        admin: Seq<char>,
        new_member: Seq<char>,
    ) -> Result<TokenTransferView, DaoError> {
        if !call.signers.contains(admin) {
            Err(DaoError::Unauthorized)
        } else if self.token_address is None || self.members is None {
            Err(DaoError::NotInitialized)
        } else if is_member(self.members->0, new_member) {
            Err(DaoError::DuplicateMember)
        } else {
            Ok(
                TokenTransferView {
                    token: self.token_address->0,
                    from: admin,
                    to: new_member,
                    amount: MEMBER_ALLOTMENT,
                },
            )
        }
    }

    /// `add_member`, given how the transfer of the allotment ended.
    pub open spec fn add_member(
        self,
        call: InvocationView,
        admin: Seq<char>,
        new_member: Seq<char>,
        transfer: CallOutcome,
    ) -> Result<DaoState, DaoError> {
        match self.member_grant(call, admin, new_member) {
            Err(e) => Err(e),
            Ok(_) => if transfer == CallOutcome::Failed {
                Err(DaoError::ExternalCallFailed)
            } else {
                Ok(
                    DaoState {
                        members: Some(
                            self.members->0.push(self::new_member(new_member, call.timestamp)),
                        ),
                        ..self
                    },
                )
            },
        }
    }

    /// The reason for which `create_proposal` is refused, if it is.
    ///
    /// A period of zero is not valid. A counter or a deadline that does not
    /// fit its type is an overflow, however long the period. A period longer
    /// than [`max_voting_period`] whose deadline fits is not valid either.
    pub open spec fn create_proposal_refusal(
        self,
        call: InvocationView,
        proposer: Seq<char>,
        deadline_in_seconds: u64,
    ) -> Option<DaoError> {
        if !call.signers.contains(proposer) {
            Some(DaoError::Unauthorized)
        } else if self.members is None || self.proposals is None || self.proposal_count is None {
            Some(DaoError::NotInitialized)
        } else if !is_member(self.members->0, proposer) {
            Some(DaoError::NotAMember)
        } else if deadline_in_seconds == 0 {
            Some(DaoError::InvalidDeadline)
        } else if self.proposal_count->0 == u32::MAX || call.timestamp + deadline_in_seconds
            > u64::MAX {
            Some(DaoError::Overflow)
        } else if deadline_in_seconds > max_voting_period() {
            Some(DaoError::InvalidDeadline)
        } else {
            None
        }
    }

    /// `create_proposal`: the state with the new proposal in it.
    pub open spec fn create_proposal(
        self,
        call: InvocationView,
        proposer: Seq<char>,
        description: Seq<u8>,
        target: Seq<char>,
        function: Seq<char>,
        parameters: Seq<u64>,
        deadline_in_seconds: u64,
    ) -> Result<DaoState, DaoError> {
        match self.create_proposal_refusal(call, proposer, deadline_in_seconds) {
            Some(e) => Err(e),
            None => {
                let id = (self.proposal_count->0 + 1) as u32;
                Ok(
                    DaoState {
                        proposals: Some(
                            self.proposals->0.push(
                                ProposalView {
                                    id,
                                    proposer,
                                    description,
                                    target,
                                    function,
                                    parameters,
                                    votes_for: 0,
                                    votes_against: 0,
                                    status: ProposalStatus::Active,
                                    deadline: (call.timestamp + deadline_in_seconds) as u64,
                                },
                            ),
                        ),
                        proposal_count: Some(id),
                        ..self
                    },
                )
            },
        }
    }

    /// The reason for which `vote` is refused, if it is.
    pub open spec fn vote_refusal(
        self,
        call: InvocationView,
        voter: Seq<char>,
        proposal_id: u32,
        vote_for: bool,
    ) -> Option<DaoError> {
        if !call.signers.contains(voter) {
            Some(DaoError::Unauthorized)
        } else if self.members is None || self.proposals is None {
            Some(DaoError::NotInitialized)
        } else if self.member(voter) is None {
            Some(DaoError::NotAMember)
        } else if self.proposal(proposal_id) is None {
            Some(DaoError::ProposalNotFound)
        } else {
            let member = self.member(voter)->0;
            let proposal = self.proposal(proposal_id)->0;
            let tally = if vote_for {
                proposal.votes_for
            } else {
                proposal.votes_against
            };
            if member.voted_proposals.contains(proposal_id) {
                Some(DaoError::AlreadyVoted)
            } else if call.timestamp > proposal.deadline {
                Some(DaoError::VotingClosed)
            } else if proposal.status != ProposalStatus::Active {
                Some(DaoError::AlreadyFinalized)
            } else if !(i128::MIN <= tally + member.token_balance <= i128::MAX) {
                Some(DaoError::Overflow)
            } else {
                None
            }
        }
    }

    /// `vote`: the voter's weight is added to one side of the tally, and the
    /// proposal is added to what the voter has voted on.
    pub open spec fn vote(
        self,
        call: InvocationView,
        voter: Seq<char>,
        proposal_id: u32,
        vote_for: bool,
    ) -> Result<DaoState, DaoError> {
        match self.vote_refusal(call, voter, proposal_id, vote_for) {
            Some(e) => Err(e),
            None => {
                let members = self.members->0;
                let proposals = self.proposals->0;
                let at = member_index(members, voter);
                let member = members[at];
                let proposal = proposals[proposal_id - 1];
                let weight = member.token_balance;
                let counted = if vote_for {
                    ProposalView { votes_for: (proposal.votes_for + weight) as i128, ..proposal }
                } else {
                    ProposalView {
                        votes_against: (proposal.votes_against + weight) as i128,
                        ..proposal
                    }
                };
                Ok(
                    DaoState {
                        members: Some(
                            members.update(
                                at,
                                MemberView {
                                    voted_proposals: member.voted_proposals.push(proposal_id),
                                    ..member
                                },
                            ),
                        ),
                        proposals: Some(proposals.update(proposal_id - 1, counted)),
                        ..self
                    },
                )
            },
        }
    }

    /// What executing the proposal would dispatch, `None` where the proposal
    /// does not pass, or the reason for which the execution is refused.
    pub open spec fn pending_dispatch(
        self,
        call: InvocationView,
        caller: Seq<char>,
        proposal_id: u32,
    ) -> Result<Option<DispatchView>, DaoError> {
        if !call.signers.contains(caller) {
            Err(DaoError::Unauthorized)
        } else if self.proposals is None {
            Err(DaoError::NotInitialized)
        } else if self.proposal(proposal_id) is None {
            Err(DaoError::ProposalNotFound)
        } else {
            let proposal = self.proposal(proposal_id)->0;
            if proposal.status != ProposalStatus::Active {
                Err(DaoError::AlreadyFinalized)
            } else if self.window == ExecutionWindow::AfterVoting && call.timestamp
                <= proposal.deadline {
                Err(DaoError::VotingStillOpen)
            } else if self.window == ExecutionWindow::DuringVoting && call.timestamp
                > proposal.deadline {
                Err(DaoError::VotingClosed)
            } else if proposal.passes() {
                Ok(Some(proposal.dispatch()))
            } else {
                Ok(None)
            }
        }
    }

    /// `execute_proposal`, given how the dispatch ended: the status that the
    /// proposal takes.
    pub open spec fn execution(
        self,
        call: InvocationView,
        caller: Seq<char>,
        proposal_id: u32,
        dispatch: CallOutcome,
    ) -> Result<ProposalStatus, DaoError> {
        match self.pending_dispatch(call, caller, proposal_id) {
            Err(e) => Err(e),
            Ok(None) => Ok(ProposalStatus::Rejected),
            Ok(Some(_)) => if dispatch == CallOutcome::Failed {
                Err(DaoError::ExternalCallFailed)
            } else {
                Ok(ProposalStatus::Executed)
            },
        }
    }

    /// This state with the status of the proposal set.
    pub open spec fn with_status(self, proposal_id: u32, status: ProposalStatus) -> DaoState {
        let proposals = self.proposals->0;
        DaoState {
            proposals: Some(
                proposals.update(
                    proposal_id - 1,
                    ProposalView { status, ..proposals[proposal_id - 1] },
                ),
            ),
            ..self
        }
    }

    /// `execute_proposal`: the state after it.
    pub open spec fn execute_proposal(
        self,
        call: InvocationView,
        caller: Seq<char>,
        proposal_id: u32,
        dispatch: CallOutcome,
    ) -> Result<DaoState, DaoError> {
        match self.execution(call, caller, proposal_id, dispatch) {
            Err(e) => Err(e),
            Ok(status) => Ok(self.with_status(proposal_id, status)),
        }
    }
}

} // verus!

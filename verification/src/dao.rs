//! The executable engine.

use vstd::prelude::*;
use crate::address::Address;
use crate::error::DaoError;
use crate::invocation::{CallOutcome, Invocation};
use crate::member::{Member, MemberView, MEMBER_ALLOTMENT};
use crate::model::{dense_ids, distinct_members, is_member, member_index, DaoState};
use crate::proposal::{
    Dispatch, ExecutionWindow, Proposal, ProposalStatus, ProposalView, TokenTransfer,
};

verus! {

/// The names of the entries that the engine keeps.
#[derive(Clone, Copy, Debug, PartialEq, Eq, Structural)]
pub enum DataKey {
    TokenAddress,
    Members,
    Proposals,
    ProposalCount,
}

/// The members as mathematical values, in the same order.
pub open spec fn members_view(members: Seq<Member>) -> Seq<MemberView> {
    Seq::new(members.len(), |i: int| members[i]@)
}

/// The proposals as mathematical values, in the same order.
pub open spec fn proposals_view(proposals: Seq<Proposal>) -> Seq<ProposalView> {
    Seq::new(proposals.len(), |i: int| proposals[i]@)
}

/// The governance engine: the entries it keeps and the rule for when
/// proposals may be executed.
#[derive(Debug, PartialEq, Eq)]
pub struct MiniDao {
    token_address: Option<Address>,
    members: Option<Vec<Member>>,
    proposals: Option<Vec<Proposal>>,
    proposal_count: Option<u32>,
    window: ExecutionWindow,
}

/// The state that the given entries make up.
pub open spec fn state_of(
    token_address: Option<Address>,
    members: Option<Vec<Member>>,
    proposals: Option<Vec<Proposal>>,
    proposal_count: Option<u32>,
    window: ExecutionWindow,
) -> DaoState {
    DaoState {
        token_address: match token_address {
            Some(address) => Some(address@),
            None => None,
        },
        members: match members {
            Some(members) => Some(members_view(members@)),
            None => None,
        },
        proposals: match proposals {
            Some(proposals) => Some(proposals_view(proposals@)),
            None => None,
        },
        proposal_count,
        window,
    }
}

impl View for MiniDao {
    type V = DaoState;

    closed spec fn view(&self) -> DaoState {
        state_of(
            self.token_address,
            self.members,
            self.proposals,
            self.proposal_count,
            self.window,
        )
    }
}

/// The place of the member with the given address, if there is one.
fn find_member(members: &Vec<Member>, address: &Address) -> (found: Option<usize>)
    requires
        distinct_members(members_view(members@)),
    ensures
        found is Some == is_member(members_view(members@), address@),
        found matches Some(i) ==> i == member_index(members_view(members@), address@) && i
            < members.len(),
{
    let ghost view = members_view(members@);
    let mut i: usize = 0;
    while i < members.len()
        invariant
            i <= members.len(),
            view == members_view(members@),
            distinct_members(view),
            forall|j: int| 0 <= j < i ==> (#[trigger] view[j]).address != address@,
        decreases members.len() - i,
    {
        if members[i].address.same(address) {
            proof {
                assert(view[i as int].address == address@);
                let chosen = member_index(view, address@);
                assert(0 <= chosen < view.len() && view[chosen].address == address@);
            }
            return Some(i);
        }
        i += 1;
    }
    None
}

/// Whether no two of the members have the same address.
fn all_distinct(members: &Vec<Member>) -> (distinct: bool)
    ensures
        distinct == distinct_members(members_view(members@)),
{
    let ghost view = members_view(members@);
    let mut i: usize = 0;
    while i < members.len()
        invariant
            i <= members.len(),
            view == members_view(members@),
            forall|a: int, b: int|
                0 <= a < i && 0 <= b < i && #[trigger] view[a].address == #[trigger] view[b].address
                    ==> a == b,
        decreases members.len() - i,
    {
        let mut j: usize = 0;
        while j < i
            invariant
                j <= i < members.len(),
                view == members_view(members@),
                forall|b: int|
                    0 <= b < j ==> (#[trigger] view[b]).address != view[i as int].address,
            decreases i - j,
        {
            if members[j].address.same(&members[i].address) {
                assert(view[j as int].address == view[i as int].address);
                return false;
            }
            j += 1;
        }
        i += 1;
    }
    true
}

/// Whether the ids of the proposals are 1, 2, 3, ... in their order.
fn ids_dense(proposals: &Vec<Proposal>) -> (dense: bool)
    ensures
        dense == dense_ids(proposals_view(proposals@)),
{
    let ghost view = proposals_view(proposals@);
    if proposals.len() > 0xffff_ffff {
        return false;
    }
    let mut i: usize = 0;
    while i < proposals.len()
        invariant
            i <= proposals.len() <= u32::MAX,
            view == proposals_view(proposals@),
            forall|k: int| 0 <= k < i ==> (#[trigger] view[k]).id == k + 1,
        decreases proposals.len() - i,
    {
        if proposals[i].id as usize != i + 1 {
            assert(view[i as int].id != i + 1);
            return false;
        }
        i += 1;
    }
    true
}

impl MiniDao {
    /// Whether the engine is in a state it can work from: see
    /// [`DaoState::valid`].
    pub open spec fn wf(&self) -> bool {
        self@.valid()
    }

    /// An engine in which nothing has been installed yet.
    pub fn new(window: ExecutionWindow) -> (dao: MiniDao)
        ensures
            dao.wf(),
            dao@ == DaoState::empty(window),
    {
        MiniDao {
            token_address: None,
            members: None,
            proposals: None,
            proposal_count: None,
            window,
        }
    }

    /// Records a new proposal of the member `proposer` and returns its id.
    ///
    /// Voting on it is open for `deadline_in_seconds` from now. The ids are
    /// 1, 2, 3, ... in the order of creation.
    pub fn create_proposal(
        &mut self,
        call: &Invocation,
        proposer: Address,
        description: [u8; 32],
        target: Address,
        function: String,
        parameters: Vec<u64>,
        deadline_in_seconds: u64,
    ) -> (result: Result<u32, DaoError>)
        requires
            old(self).wf(),
        ensures
            final(self).wf(),
            match old(self)@.create_proposal(
                call@,
                proposer@,
                description@,
                target@,
                function@,
                parameters@,
                deadline_in_seconds,
            ) {
                Ok(next) => {
                    &&& result matches Ok(id) && next.proposal_count == Some(id)
                    &&& final(self)@ == next
                },
                Err(e) => {
                    &&& result matches Err(refused) && refused == e
                    &&& final(self)@ == old(self)@
                },
            },
    {
        if !call.authorized_by(&proposer) {
            return Err(DaoError::Unauthorized);
        }
        if self.members.is_none() || self.proposals.is_none() || self.proposal_count.is_none() {
            return Err(DaoError::NotInitialized);
        }
        let count: u32 = self.proposal_count.unwrap();
        if find_member(self.members.as_ref().unwrap(), &proposer).is_none() {
            return Err(DaoError::NotAMember);
        }
        if deadline_in_seconds == 0 {
            return Err(DaoError::InvalidDeadline);
        }
        if count == u32::MAX || deadline_in_seconds > u64::MAX - call.timestamp {
            return Err(DaoError::Overflow);
        }
        if deadline_in_seconds > 0x7fff_ffff_ffff_ffff {
            return Err(DaoError::InvalidDeadline);
        }
        let id: u32 = count + 1;
        let proposal = Proposal {
            id,
            proposer,
            description,
            target,
            function,
            parameters,
            votes_for: 0,
            votes_against: 0,
            status: ProposalStatus::Active,
            deadline: call.timestamp + deadline_in_seconds,
        };
        let mut proposals = self.proposals.take().unwrap();
        let ghost before = proposals@;
        proposals.push(proposal);
        proof {
            assert(proposals_view(proposals@) =~= proposals_view(before).push(proposal@));
        }
        self.proposals = Some(proposals);
        self.proposal_count = Some(id);
        Ok(id)
    }

    /// Casts the vote of the member `voter` on a proposal.
    ///
    /// The weight of the vote is the balance recorded when the member joined.
    /// A vote is taken up to and including the deadline, once for each member
    /// and proposal.
    pub fn vote(
        &mut self,
        call: &Invocation,
        voter: &Address,
        proposal_id: u32,
        vote_for: bool,
    ) -> (result: Result<(), DaoError>)
        requires
            old(self).wf(),
        ensures
            final(self).wf(),
            match old(self)@.vote(call@, voter@, proposal_id, vote_for) {
                Ok(next) => result is Ok && final(self)@ == next,
                Err(e) => {
                    &&& result matches Err(refused) && refused == e
                    &&& final(self)@ == old(self)@
                },
            },
    {
        if !call.authorized_by(voter) {
            return Err(DaoError::Unauthorized);
        }
        if self.members.is_none() || self.proposals.is_none() {
            return Err(DaoError::NotInitialized);
        }
        let at = match find_member(self.members.as_ref().unwrap(), voter) {
            Some(at) => at,
            None => {
                return Err(DaoError::NotAMember);
            },
        };
        if proposal_id == 0 || proposal_id as usize > self.proposals.as_ref().unwrap().len() {
            return Err(DaoError::ProposalNotFound);
        }
        let slot = (proposal_id - 1) as usize;
        let member = &self.members.as_ref().unwrap()[at];
        let proposal = &self.proposals.as_ref().unwrap()[slot];
        if member.has_voted(proposal_id) {
            return Err(DaoError::AlreadyVoted);
        }
        if call.timestamp > proposal.deadline {
            return Err(DaoError::VotingClosed);
        }
        if proposal.status != ProposalStatus::Active {
            return Err(DaoError::AlreadyFinalized);
        }
        let tally = if vote_for {
            proposal.votes_for
        } else {
            proposal.votes_against
        };
        let counted = match tally.checked_add(member.token_balance) {
            Some(counted) => counted,
            None => {
                return Err(DaoError::Overflow);
            },
        };
        let mut members = self.members.take().unwrap();
        let mut proposals = self.proposals.take().unwrap();
        let ghost members_before = members@;
        let ghost proposals_before = proposals@;
        members[at].voted_proposals.push(proposal_id);
        if vote_for {
            proposals[slot].votes_for = counted;
        } else {
            proposals[slot].votes_against = counted;
        }
        proof {
            let expected = old(self)@.vote(call@, voter@, proposal_id, vote_for)->Ok_0;
            assert(members_view(members@) =~= expected.members->0);
            assert(proposals_view(proposals@) =~= expected.proposals->0);
        }
        self.members = Some(members);
        self.proposals = Some(proposals);
        Ok(())
    }

    /// What executing the proposal now would dispatch, without executing it:
    /// the external call where the proposal passes, `None` where it does not.
    ///
    /// Whoever embeds the engine makes that call and then reports how it
    /// ended to [`MiniDao::execute_proposal`].
    pub fn pending_dispatch(
        &self,
        call: &Invocation,
        caller: &Address,
        proposal_id: u32,
    ) -> (result: Result<Option<Dispatch>, DaoError>)
        requires
            self.wf(),
        ensures
            match self@.pending_dispatch(call@, caller@, proposal_id) {
                Ok(Some(pending)) => result matches Ok(Some(dispatch)) && dispatch@ == pending,
                Ok(None) => result matches Ok(None),
                Err(e) => result matches Err(refused) && refused == e,
            },
    {
        if !call.authorized_by(caller) {
            return Err(DaoError::Unauthorized);
        }
        if self.proposals.is_none() {
            return Err(DaoError::NotInitialized);
        }
        let proposals = self.proposals.as_ref().unwrap();
        if proposal_id == 0 || proposal_id as usize > proposals.len() {
            return Err(DaoError::ProposalNotFound);
        }
        let proposal = &proposals[(proposal_id - 1) as usize];
        if proposal.status != ProposalStatus::Active {
            return Err(DaoError::AlreadyFinalized);
        }
        match self.window {
            ExecutionWindow::AfterVoting => {
                if call.timestamp <= proposal.deadline {
                    return Err(DaoError::VotingStillOpen);
                }
            },
            ExecutionWindow::DuringVoting => {
                if call.timestamp > proposal.deadline {
                    return Err(DaoError::VotingClosed);
                }
            },
        }
        if proposal.votes_for > proposal.votes_against {
            Ok(
                Some(
                    Dispatch {
                        target: proposal.target.clone(),
                        function: proposal.function.clone(),
                        parameters: proposal.parameters.clone(),
                    },
                ),
            )
        } else {
            Ok(None)
        }
    }

    /// Settles a proposal: `Executed` where it has strictly more weight for
    /// than against, `Rejected` otherwise. Returns the status it took.
    ///
    /// `dispatch` says how the call named by [`MiniDao::pending_dispatch`]
    /// ended. It is read only where the proposal passes: a proposal whose
    /// dispatch failed stays active and the call is refused. A settled
    /// proposal is never settled again.
    pub fn execute_proposal(
        &mut self,
        call: &Invocation,
        caller: &Address,
        proposal_id: u32,
        dispatch: CallOutcome,
    ) -> (result: Result<ProposalStatus, DaoError>)
        requires
            old(self).wf(),
        ensures
            final(self).wf(),
            result == old(self)@.execution(call@, caller@, proposal_id, dispatch),
            match old(self)@.execute_proposal(call@, caller@, proposal_id, dispatch) {
                Ok(next) => final(self)@ == next,
                Err(_) => final(self)@ == old(self)@,
            },
    {
        let status = match self.pending_dispatch(call, caller, proposal_id) {
            Err(e) => {
                return Err(e);
            },
            Ok(None) => ProposalStatus::Rejected,
            Ok(Some(_)) => match dispatch {
                CallOutcome::Failed => {
                    return Err(DaoError::ExternalCallFailed);
                },
                CallOutcome::Completed => ProposalStatus::Executed,
            },
        };
        let mut proposals = self.proposals.take().unwrap();
        proposals[(proposal_id - 1) as usize].status = status;
        proof {
            assert(proposals_view(proposals@) =~= old(self)@.with_status(
                proposal_id,
                status,
            ).proposals->0);
        }
        self.proposals = Some(proposals);
        Ok(status)
    }

    /// The transfer of the allotment that has to succeed before `new_member`
    /// is admitted, without admitting it.
    ///
    /// Whoever embeds the engine makes that transfer and then reports how it
    /// ended to [`MiniDao::add_member`].
    pub fn member_grant(
        &self,
        call: &Invocation,
        admin: &Address,
        new_member: &Address,
    ) -> (result: Result<TokenTransfer, DaoError>)
        requires
            self.wf(),
        ensures
            match self@.member_grant(call@, admin@, new_member@) {
                Ok(grant) => result matches Ok(transfer) && transfer@ == grant,
                Err(e) => result matches Err(refused) && refused == e,
            },
    {
        if !call.authorized_by(admin) {
            return Err(DaoError::Unauthorized);
        }
        if self.token_address.is_none() || self.members.is_none() {
            return Err(DaoError::NotInitialized);
        }
        if find_member(self.members.as_ref().unwrap(), new_member).is_some() {
            return Err(DaoError::DuplicateMember);
        }
        Ok(
            TokenTransfer {
                token: self.token_address.as_ref().unwrap().clone(),
                from: admin.clone(),
                to: new_member.clone(),
                amount: MEMBER_ALLOTMENT,
            },
        )
    }

    /// Admits `new_member` with the allotment as its balance and no votes
    /// cast.
    ///
    /// `transfer` says how the transfer named by [`MiniDao::member_grant`]
    /// ended: nobody is admitted whose allotment was not transferred.
    pub fn add_member(
        &mut self,
        call: &Invocation,
        admin: &Address,
        new_member: Address,
        transfer: CallOutcome,
    ) -> (result: Result<(), DaoError>)
        requires
            old(self).wf(),
        ensures
            final(self).wf(),
            match old(self)@.add_member(call@, admin@, new_member@, transfer) {
                Ok(next) => result is Ok && final(self)@ == next,
                Err(e) => {
                    &&& result matches Err(refused) && refused == e
                    &&& final(self)@ == old(self)@
                },
            },
    {
        let grant = match self.member_grant(call, admin, &new_member) {
            Ok(grant) => grant,
            Err(e) => {
                return Err(e);
            },
        };
        match transfer {
            CallOutcome::Failed => {
                return Err(DaoError::ExternalCallFailed);
            },
            CallOutcome::Completed => {},
        }
        let member = Member {
            address: new_member,
            token_balance: grant.amount,
            joined_timestamp: call.timestamp,
            voted_proposals: Vec::new(),
        };
        let mut members = self.members.take().unwrap();
        let ghost before = members@;
        members.push(member);
        proof {
            assert(members_view(members@) =~= members_view(before).push(member@));
            assert(member@ == crate::model::new_member(new_member@, call@.timestamp));
        }
        self.members = Some(members);
        Ok(())
    }

    /// Installs the token address, empty registries of members and proposals
    /// and a proposal counter of zero.
    ///
    /// Whatever was installed before is gone: an engine is initialized once.
    pub fn initalize(
        &mut self,
        call: &Invocation,
        admin: &Address,
        token_address: Address,
    ) -> (result: Result<(), DaoError>)
        requires
            old(self).wf(),
        ensures
            final(self).wf(),
            match old(self)@.initialize(call@, admin@, token_address@) {
                Ok(next) => result is Ok && final(self)@ == next,
                Err(e) => {
                    &&& result matches Err(refused) && refused == e
                    &&& final(self)@ == old(self)@
                },
            },
    {
        if !call.authorized_by(admin) {
            return Err(DaoError::Unauthorized);
        }
        self.token_address = Some(token_address);
        self.members = Some(Vec::new());
        self.proposals = Some(Vec::new());
        self.proposal_count = Some(0);
        proof {
            let expected = old(self)@.initialize(call@, admin@, token_address@)->Ok_0;
            assert(self@.members->0 =~= expected.members->0);
            assert(self@.proposals->0 =~= expected.proposals->0);
        }
        Ok(())
    }

    /// The member with the given address, if there is one.
    pub fn get_member(&self, address: &Address) -> (member: Option<Member>)
        requires
            self.wf(),
        ensures
            match self@.member(address@) {
                Some(found) => member matches Some(member) && member@ == found,
                None => member is None,
            },
    {
        match &self.members {
            None => None,
            Some(members) => match find_member(members, address) {
                None => None,
                Some(at) => Some(members[at].clone()),
            },
        }
    }

    /// The proposal with the given id, if there is one.
    pub fn get_proposal(&self, proposal_id: u32) -> (proposal: Option<Proposal>)
        requires
            self.wf(),
        ensures
            match self@.proposal(proposal_id) {
                Some(found) => proposal matches Some(proposal) && proposal@ == found,
                None => proposal is None,
            },
    {
        match &self.proposals {
            None => None,
            Some(proposals) => if proposal_id == 0 || proposal_id as usize > proposals.len() {
                None
            } else {
                Some(proposals[(proposal_id - 1) as usize].clone())
            },
        }
    }

    /// Whether the entry named by `key` is installed.
    pub fn has(&self, key: DataKey) -> (installed: bool)
        ensures
            installed == match key {
                DataKey::TokenAddress => self@.token_address is Some,
                DataKey::Members => self@.members is Some,
                DataKey::Proposals => self@.proposals is Some,
                DataKey::ProposalCount => self@.proposal_count is Some,
            },
    {
        match key {
            DataKey::TokenAddress => self.token_address.is_some(),
            DataKey::Members => self.members.is_some(),
            DataKey::Proposals => self.proposals.is_some(),
            DataKey::ProposalCount => self.proposal_count.is_some(),
        }
    }

    /// The engine that keeps the given entries, or `None` where they do not
    /// make up a valid state: see [`DaoState::valid`].
    pub fn restore(
        token_address: Option<Address>,
        members: Option<Vec<Member>>,
        proposals: Option<Vec<Proposal>>,
        proposal_count: Option<u32>,
        window: ExecutionWindow,
    ) -> (dao: Option<MiniDao>)
        ensures
            dao is Some == state_of(
                token_address,
                members,
                proposals,
                proposal_count,
                window,
            ).valid(),
            dao matches Some(dao) ==> dao.wf() && dao@ == state_of(
                token_address,
                members,
                proposals,
                proposal_count,
                window,
            ),
    {
        if let Some(members) = &members {
            if !all_distinct(members) {
                return None;
            }
        }
        if let Some(proposals) = &proposals {
            if !ids_dense(proposals) {
                return None;
            }
            if let Some(count) = proposal_count {
                if count as usize != proposals.len() {
                    return None;
                }
            }
        }
        Some(MiniDao { token_address, members, proposals, proposal_count, window })
    }

    /// The entries that the engine keeps: the token address, the members,
    /// the proposals and the proposal counter.
    pub fn into_entries(self) -> (entries: (
        Option<Address>,
        Option<Vec<Member>>,
        Option<Vec<Proposal>>,
        Option<u32>,
    ))
        ensures
            self@ == state_of(entries.0, entries.1, entries.2, entries.3, self@.window),
    {
        (self.token_address, self.members, self.proposals, self.proposal_count)
    }

    /// The rule for when proposals may be executed.
    pub fn window(&self) -> (window: ExecutionWindow)
        ensures
            window == self@.window,
    {
        self.window
    }
}

} // verus!

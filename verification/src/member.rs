//! Members: who may vote, and with what weight.

use vstd::prelude::*;
use crate::address::Address;

verus! {

/// The number of tokens that a member is granted on joining, which is also
/// the weight of each of its votes.
pub const MEMBER_ALLOTMENT: i128 = 100;

/// A registered participant.
///
/// The balance is the one recorded when the member joined. It is the weight
/// of each vote the member casts and is never read again from the token
/// ledger.
#[derive(Debug, PartialEq, Eq)]
pub struct Member {
    pub address: Address,
    pub token_balance: i128,
    pub joined_timestamp: u64,
    /// The ids of the proposals this member has voted on, oldest first.
    pub voted_proposals: Vec<u32>,
}

/// A [`Member`] as a mathematical value.
pub struct MemberView {
    pub address: Seq<char>,
    pub token_balance: i128,
    pub joined_timestamp: u64,
    pub voted_proposals: Seq<u32>,
}

impl View for Member {
    type V = MemberView;

    open spec fn view(&self) -> MemberView {
        MemberView {
            address: self.address@,
            token_balance: self.token_balance,
            joined_timestamp: self.joined_timestamp,
            voted_proposals: self.voted_proposals@,
        }
    }
}

impl Clone for Member {
    fn clone(&self) -> (member: Member)
        ensures
            member@ == self@,
    {
        Member {
            address: self.address.clone(),
            token_balance: self.token_balance,
            joined_timestamp: self.joined_timestamp,
            voted_proposals: self.voted_proposals.clone(),
        }
    }
}

impl Member {
    /// Whether this member has already voted on the proposal.
    pub fn has_voted(&self, proposal_id: u32) -> (voted: bool)
        ensures
            voted == self@.voted_proposals.contains(proposal_id),
    {
        let mut i: usize = 0;
        while i < self.voted_proposals.len()
            invariant
                i <= self.voted_proposals.len(),
                forall|j: int| 0 <= j < i ==> self.voted_proposals@[j] != proposal_id,
            decreases self.voted_proposals.len() - i,
        {
            if self.voted_proposals[i] == proposal_id {
                return true;
            }
            i += 1;
        }
        false
    }
}

} // verus!

//! Proposals: a recorded intent to call a function of an external contract,
//! and the votes cast on it.

use vstd::prelude::*;
use crate::address::Address;

verus! {

/// Where a proposal stands. `Executed` and `Rejected` are final.
#[derive(Clone, Copy, Debug, PartialEq, Eq, Structural)]
pub enum ProposalStatus {
    Active,
    Executed,
    Rejected,
}

/// When a proposal may be executed, relative to its deadline.
///
/// Voting is open up to and including the deadline.
#[derive(Clone, Copy, Debug, PartialEq, Eq, Structural)]
pub enum ExecutionWindow {
    /// Only once voting has closed, that is strictly after the deadline.
    AfterVoting,
    /// Only while voting is open, that is up to and including the deadline.
    /// A proposal executed in this window takes no further votes.
    DuringVoting,
}

impl Default for ExecutionWindow {
    fn default() -> (window: ExecutionWindow)
        ensures
            window == ExecutionWindow::AfterVoting,
    {
        ExecutionWindow::AfterVoting
    }
}

/// A proposal and its tally.
#[derive(Debug, PartialEq, Eq)]
pub struct Proposal {
    pub id: u32,
    pub proposer: Address,
    /// A 32-byte digest that identifies the text of the proposal.
    pub description: [u8; 32],
    /// The contract to call if the proposal passes.
    pub target: Address,
    /// The name of the function to call on the target.
    pub function: String,
    /// The arguments of that call, each an opaque 64-bit value.
    pub parameters: Vec<u64>,
    pub votes_for: i128,
    pub votes_against: i128,
    pub status: ProposalStatus,
    /// The last second at which a vote is taken.
    pub deadline: u64,
}

/// A [`Proposal`] as a mathematical value.
pub struct ProposalView {
    pub id: u32,
    pub proposer: Seq<char>,
    pub description: Seq<u8>,
    pub target: Seq<char>,
    pub function: Seq<char>,
    pub parameters: Seq<u64>,
    pub votes_for: i128,
    pub votes_against: i128,
    pub status: ProposalStatus,
    pub deadline: u64,
}

impl View for Proposal {
    type V = ProposalView;

    open spec fn view(&self) -> ProposalView {
        ProposalView {
            id: self.id,
            proposer: self.proposer@,
            description: self.description@,
            target: self.target@,
            function: self.function@,
            parameters: self.parameters@,
            votes_for: self.votes_for,
            votes_against: self.votes_against,
            status: self.status,
            deadline: self.deadline,
        }
    }
}

impl Clone for Proposal {
    fn clone(&self) -> (proposal: Proposal)
        ensures
            proposal@ == self@,
    {
        Proposal {
            id: self.id,
            proposer: self.proposer.clone(),
            description: self.description,
            target: self.target.clone(),
            function: self.function.clone(),
            parameters: self.parameters.clone(),
            votes_for: self.votes_for,
            votes_against: self.votes_against,
            status: self.status,
            deadline: self.deadline,
        }
    }
}

impl ProposalView {
    /// Whether the proposal passes: strictly more weight for than against.
    pub open spec fn passes(self) -> bool {
        self.votes_for > self.votes_against
    }

    /// The external call this proposal asks for.
    pub open spec fn dispatch(self) -> DispatchView {
        DispatchView {
            target: self.target,
            function: self.function,
            parameters: self.parameters,
        }
    }
}

/// An external call: a function of a target contract and its arguments.
#[derive(Debug, PartialEq, Eq)]
pub struct Dispatch {
    pub target: Address,
    pub function: String,
    pub parameters: Vec<u64>,
}

/// A [`Dispatch`] as a mathematical value.
pub struct DispatchView {
    pub target: Seq<char>,
    pub function: Seq<char>,
    pub parameters: Seq<u64>,
}

impl View for Dispatch {
    type V = DispatchView;

    open spec fn view(&self) -> DispatchView {
        DispatchView {
            target: self.target@,
            function: self.function@,
            parameters: self.parameters@,
        }
    }
}

/// A transfer on the token ledger.
#[derive(Debug, PartialEq, Eq)]
pub struct TokenTransfer {
    /// The token contract that holds the balances.
    pub token: Address,
    pub from: Address,
    pub to: Address,
    pub amount: i128,
}

/// A [`TokenTransfer`] as a mathematical value.
pub struct TokenTransferView {
    pub token: Seq<char>,
    pub from: Seq<char>,
    pub to: Seq<char>,
    pub amount: i128,
}

impl View for TokenTransfer {
    type V = TokenTransferView;

    open spec fn view(&self) -> TokenTransferView {
        TokenTransferView {
            token: self.token@,
            from: self.from@,
            to: self.to@,
            amount: self.amount,
        }
    }
}

} // verus!

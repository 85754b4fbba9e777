//! The reasons for which the engine turns a call down.

use vstd::prelude::*;

verus! {

/// Why a call was refused. A refused call leaves the engine as it was.
#[derive(Clone, Copy, Debug, PartialEq, Eq, Structural)]
pub enum DaoError {
    /// The identity that has to sign the call did not authorize it.
    Unauthorized,
    /// An entry that the call needs has not been installed yet.
    NotInitialized,
    /// The address is already a member.
    DuplicateMember,
    /// The address is not a member.
    NotAMember,
    /// No proposal has the given id.
    ProposalNotFound,
    /// The member has already voted on the proposal.
    AlreadyVoted,
    /// The deadline of the proposal has passed.
    VotingClosed,
    /// The deadline of the proposal has not passed yet.
    VotingStillOpen,
    /// The proposal has already been executed or rejected.
    AlreadyFinalized,
    /// The token transfer or the dispatched action failed.
    ExternalCallFailed,
    /// A deadline, a tally or the proposal counter does not fit its type.
    Overflow,
    /// The voting period is empty, or longer than a signed 64-bit number of
    /// seconds while its deadline still fits.
    InvalidDeadline,
}

} // verus!

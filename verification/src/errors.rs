use vstd::prelude::*;

verus! {

/// Why an operation on a proposal was refused. Every failure is a
/// precondition violation surfaced synchronously to the caller; where a
/// condition is numeric, the variant carries the actual and the required
/// values.
#[derive(Clone, Copy, Debug, PartialEq, Eq, Structural)]
pub enum ProposalError {
    /// An identity does not satisfy the account-syntax rules.
    InvalidAccount,
    /// Creation: `voting_start` does not lie strictly after the current time.
    VotingStartNotFuture { current: u64, voting_start: u64 },
    /// Creation: the voting duration lies outside the policy bounds.
    DurationOutOfBounds { duration: u32, min_duration: u32, max_duration: u32 },
    /// Creation: `voting_start + voting_duration` does not fit in 64 bits.
    WindowOverflow { voting_start: u64, voting_duration: u32 },
    /// Creation: `execute_before` does not lie strictly after the voting end.
    ExecuteBeforeNotAfterVoting { execute_before: u64, voting_end: u64 },
    /// Voting: the current time lies outside `[voting_start, voting_end]`.
    VotingNotActive { current: u64, voting_start: u64, voting_end: u64 },
    /// Voting: this identity has already cast a vote on this proposal.
    AlreadyVoted,
    /// Execution: the current time lies outside `(voting_end, execute_before]`.
    OutsideExecutionWindow { current: u64, voting_end: u64, execute_before: u64 },
    /// Execution: `votes_for` is below the required quorum threshold.
    NotEnoughSupport { got: u32, required: u32 },
    /// Execution: `votes_for` does not strictly exceed `votes_against`.
    DidNotPass { votes_for: u32, votes_against: u32 },
    /// Execution: the proposal has already been executed.
    AlreadyExecuted,
}

} // verus!

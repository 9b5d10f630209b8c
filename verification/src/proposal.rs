use vstd::prelude::*;

use crate::action::internal_of;
use crate::action::internal_valid;
use crate::action::external_of;
use crate::action::Action;
use crate::action::ActionInt;
use crate::action::ActionIntModel;
use crate::errors::ProposalError;

verus! {

/// Nanoseconds in one second; ambient block timestamps arrive in nanoseconds.
pub const FROM_NANO: u64 = 1_000_000_000;

/// Converts an ambient timestamp in nanoseconds to whole seconds.
pub fn timestamp_to_seconds(nanos: u64) -> (r: u64)
    ensures
        r == nanos / FROM_NANO,
{
    nanos / FROM_NANO
}

/// One voter: an identity and the voting power the external eligibility
/// collaborator granted it. The power must lie in `[1, 10000]`.
#[derive(Clone, Debug, PartialEq)]
pub struct Voter {
    pub account: String,
    /// voting power, must be in [1...10000]
    pub power: u16,
}

impl Voter {
    /// The power lies within the allowed range.
    pub open spec fn wf(&self) -> bool {
        1 <= self.power <= 10000
    }
}

/// Mathematical content of a proposal.
pub struct ProposalModel {
    pub proposer: Seq<char>,
    pub description: Seq<char>,
    pub action: ActionIntModel,
    pub voters: Seq<Seq<char>>,
    pub voting_start: int,
    pub voting_end: int,
    pub votes_for: int,
    pub votes_against: int,
    pub execute_before: int,
    pub executed: bool,
}

impl ProposalModel {
    /// No identity occurs twice among the voters, the voting window is
    /// ordered, the execution deadline lies strictly after it, and the
    /// tallies are non-negative.
    pub open spec fn wf(self) -> bool {
        &&& forall|i: int, j: int|
            0 <= i < j < self.voters.len() ==> self.voters[i] != self.voters[j]
        &&& 0 <= self.voting_start <= self.voting_end < self.execute_before
        &&& 0 <= self.votes_for
        &&& 0 <= self.votes_against
    }

    /// Whether `account` has already cast a vote on this proposal.
    pub open spec fn has_voted(self, account: Seq<char>) -> bool {
        self.voters.contains(account)
    }

    /// The voting window admits time `t`.
    pub open spec fn in_voting_window(self, t: int) -> bool {
        self.voting_start <= t <= self.voting_end
    }

    /// The execution window admits time `t`.
    pub open spec fn in_execution_window(self, t: int) -> bool {
        self.voting_end < t <= self.execute_before
    }

    /// A vote cast by `account` at time `t` is accepted: the voting window is
    /// open and the identity has not voted yet.
    pub open spec fn vote_allowed(self, account: Seq<char>, t: int) -> bool {
        self.in_voting_window(t) && !self.has_voted(account)
    }

    /// The proposal after an accepted vote: the identity joins the voters and
    /// its power joins the tally chosen by `vote_yes`.
    pub open spec fn vote_step(self, account: Seq<char>, power: int, vote_yes: bool) -> ProposalModel {
        ProposalModel {
            voters: self.voters.push(account),
            votes_for: if vote_yes { self.votes_for + power } else { self.votes_for },
            votes_against: if vote_yes { self.votes_against } else { self.votes_against + power },
            ..self
        }
    }

    /// Execution at time `t` against quorum threshold `min_support` is
    /// accepted: the execution window is open, the support reaches the
    /// quorum, the vote passes by strict majority, and the proposal has not
    /// been executed before.
    pub open spec fn execute_allowed(self, min_support: int, t: int) -> bool {
        &&& self.in_execution_window(t)
        &&& self.votes_for >= min_support
        &&& self.votes_for > self.votes_against
        &&& !self.executed
    }

    /// The proposal after a successful execution: only the executed flag
    /// flips, irreversibly.
    pub open spec fn execute_step(self) -> ProposalModel {
        ProposalModel { executed: true, ..self }
    }
}

/// The effect a successful execution hands to the external effect executor.
#[derive(Clone, Debug, PartialEq)]
pub enum EffectRequest {
    /// Move `amount` to `dest`.
    Transfer { dest: String, amount: u128 },
    /// An account removal in favour of `dest`; `initiator` is the contract's
    /// own identity, the paying and initiating party of the removal.
    Delete { initiator: String, dest: String },
}

/// Mathematical content of an effect request.
pub enum EffectModel {
    Transfer { dest: Seq<char>, amount: u128 },
    Delete { initiator: Seq<char>, dest: Seq<char> },
}

impl View for EffectRequest {
    type V = EffectModel;

    open spec fn view(&self) -> EffectModel {
        match self {
            EffectRequest::Transfer { dest, amount } => EffectModel::Transfer {
                dest: dest@,
                amount: *amount,
            },
            EffectRequest::Delete { initiator, dest } => EffectModel::Delete {
                initiator: initiator@,
                dest: dest@,
            },
        }
    }
}

/// The effect that executing `action` dispatches when the contract's own
/// identity is `current`.
pub open spec fn effect_of(action: ActionIntModel, current: Seq<char>) -> EffectModel {
    match action {
        ActionIntModel::Transfer { dest, amount } => EffectModel::Transfer { dest, amount },
        ActionIntModel::Delete { dest } => EffectModel::Delete { initiator: current, dest },
    }
}

/// Whether the list already holds an identity with the same characters.
fn contains_account(voters: &Vec<String>, account: &String) -> (r: bool)
    ensures
        r == voters@.map_values(|s: String| s@).contains(account@),
{
    let ghost views = voters@.map_values(|s: String| s@);
    let mut i: usize = 0;
    while i < voters.len()
        invariant
            0 <= i <= voters@.len(),
            views == voters@.map_values(|s: String| s@),
            forall|k: int| 0 <= k < i ==> views[k] != account@,
        decreases voters@.len() - i,
    {
        if voters[i].eq(account) {
            assert(views[i as int] == account@);
            return true;
        }
        i = i + 1;
    }
    assert(forall|k: int| 0 <= k < views.len() ==> views[k] != account@);
    false
}

/// The central entity: one validated action plus the voting and execution
/// state machine — time windows, tally, voter set and executed flag.
#[derive(Clone, Debug, PartialEq)]
pub struct Proposal {
    pub proposer: String,
    pub description: String,
    pub action: ActionInt,
    /// Identities that have already cast a vote; pairwise distinct.
    pub voters: Vec<String>,
    /// Timestamp in seconds when voting starts.
    pub voting_start: u64,
    /// Timestamp in seconds when voting ends.
    pub voting_end: u64,
    pub votes_for: u32,
    pub votes_against: u32,
    /// Last timestamp in seconds at which the proposal may be executed.
    pub execute_before: u64,
    pub executed: bool,
}

impl View for Proposal {
    type V = ProposalModel;

    open spec fn view(&self) -> ProposalModel {
        ProposalModel {
            proposer: self.proposer@,
            description: self.description@,
            action: self.action@,
            voters: self.voters@.map_values(|s: String| s@),
            voting_start: self.voting_start as int,
            voting_end: self.voting_end as int,
            votes_for: self.votes_for as int,
            votes_against: self.votes_against as int,
            execute_before: self.execute_before as int,
            executed: self.executed,
        }
    }
}

impl Proposal {
    /// The mathematical content of the proposal is well-formed.
    pub open spec fn wf(&self) -> bool {
        self@.wf()
    }

    /// Casts one vote at time `current_time` (seconds): during the voting
    /// window, each identity may vote exactly once, and its power joins
    /// `votes_for` or `votes_against` as chosen. On failure the proposal is
    /// unchanged.
    pub fn vote(&mut self, voter: &Voter, vote_yes: bool, current_time: u64) -> (r: Result<
        (),
        ProposalError,
    >)
        requires
            old(self).wf(),
            voter.wf(),
            old(self).votes_for + voter.power <= u32::MAX,
            old(self).votes_against + voter.power <= u32::MAX,
        ensures
            final(self).wf(),
            r is Ok <==> old(self)@.vote_allowed(voter.account@, current_time as int),
            r is Ok ==> final(self)@ == old(self)@.vote_step(
                voter.account@,
                voter.power as int,
                vote_yes,
            ),
            r is Err ==> *final(self) == *old(self),
            !old(self)@.in_voting_window(current_time as int) ==> r == Err::<
                (),
                ProposalError,
            >(
                ProposalError::VotingNotActive {
                    current: current_time,
                    voting_start: old(self).voting_start,
                    voting_end: old(self).voting_end,
                },
            ),
            old(self)@.in_voting_window(current_time as int) && old(self)@.has_voted(
                voter.account@,
            ) ==> r == Err::<(), ProposalError>(ProposalError::AlreadyVoted),
    {
        if !(self.voting_start <= current_time && current_time <= self.voting_end) {
            return Err(
                ProposalError::VotingNotActive {
                    current: current_time,
                    voting_start: self.voting_start,
                    voting_end: self.voting_end,
                },
            );
        }
        if contains_account(&self.voters, &voter.account) {
            return Err(ProposalError::AlreadyVoted);
        }
        let ghost pre = *self;
        self.voters.push(voter.account.clone());
        proof {
            assert(self.voters@.map_values(|s: String| s@) =~= pre.voters@.map_values(
                |s: String| s@,
            ).push(voter.account@));
        }
        let p: u32 = voter.power as u32;
        if vote_yes {
            self.votes_for = self.votes_for + p;
        } else {
            self.votes_against = self.votes_against + p;
        }
        proof {
            let m = pre@.vote_step(voter.account@, voter.power as int, vote_yes);
            assert(self@.voters == m.voters);
            assert(self@ == m);
        }
        Ok(())
    }

    /// Executes the proposal at time `current_time` (seconds): inside the
    /// execution window, with the quorum reached and a strict majority in
    /// favour, and at most once. On success the executed flag flips before
    /// the effect request is handed out; `current_account` is the contract's
    /// own identity, named as the initiating party of a removal. On failure
    /// the proposal is unchanged.
    pub fn execute(&mut self, min_support: u32, current_time: u64, current_account: &String) -> (r:
        Result<EffectRequest, ProposalError>)
        requires
            old(self).wf(),
        ensures
            final(self).wf(),
            r is Ok <==> old(self)@.execute_allowed(min_support as int, current_time as int),
            r is Ok ==> final(self)@ == old(self)@.execute_step() && r->Ok_0@ == effect_of(
                old(self)@.action,
                current_account@,
            ),
            r is Err ==> *final(self) == *old(self),
            !old(self)@.in_execution_window(current_time as int) ==> r == Err::<
                EffectRequest,
                ProposalError,
            >(
                ProposalError::OutsideExecutionWindow {
                    current: current_time,
                    voting_end: old(self).voting_end,
                    execute_before: old(self).execute_before,
                },
            ),
            old(self)@.in_execution_window(current_time as int) && old(self).votes_for
                < min_support ==> r == Err::<EffectRequest, ProposalError>(
                ProposalError::NotEnoughSupport { got: old(self).votes_for, required: min_support },
            ),
            old(self)@.in_execution_window(current_time as int) && old(self).votes_for
                >= min_support && old(self).votes_for <= old(self).votes_against ==> r == Err::<
                EffectRequest,
                ProposalError,
            >(
                ProposalError::DidNotPass {
                    votes_for: old(self).votes_for,
                    votes_against: old(self).votes_against,
                },
            ),
            old(self)@.in_execution_window(current_time as int) && old(self).votes_for
                >= min_support && old(self).votes_for > old(self).votes_against && old(
                self,
            ).executed ==> r == Err::<EffectRequest, ProposalError>(ProposalError::AlreadyExecuted),
    {
        if !(self.voting_end < current_time && current_time <= self.execute_before) {
            return Err(
                ProposalError::OutsideExecutionWindow {
                    current: current_time,
                    voting_end: self.voting_end,
                    execute_before: self.execute_before,
                },
            );
        }
        if self.votes_for < min_support {
            return Err(
                ProposalError::NotEnoughSupport { got: self.votes_for, required: min_support },
            );
        }
        if self.votes_for <= self.votes_against {
            return Err(
                ProposalError::DidNotPass {
                    votes_for: self.votes_for,
                    votes_against: self.votes_against,
                },
            );
        }
        if self.executed {
            return Err(ProposalError::AlreadyExecuted);
        }
        self.executed = true;
        match &self.action {
            ActionInt::Transfer { dest, amount } => Ok(
                EffectRequest::Transfer { dest: dest.clone(), amount: *amount },
            ),
            ActionInt::Delete { dest } => Ok(
                EffectRequest::Delete { initiator: current_account.clone(), dest: dest.clone() },
            ),
        }
    }
}

/// Creation input for a proposal, as an external caller supplies it.
#[derive(Clone, Debug, PartialEq)]
pub struct NewProposal {
    pub action: Action,
    pub description: String,
    /// Timestamp (seconds) when the voting starts; must lie strictly after
    /// the current time.
    pub voting_start: u64,
    /// Voting duration in seconds; must lie within the policy bounds.
    pub voting_duration: u32,
    /// Last timestamp (seconds) at which the proposal may be executed; must
    /// lie strictly after the voting window.
    pub execute_before: u64,
}

impl NewProposal {
    /// Creation of a proposal from this input at time `current_time` is
    /// accepted: the start lies strictly after the current time, the duration
    /// respects the policy bounds, the derived voting end fits in 64 bits,
    /// and the execution deadline lies strictly after it.
    pub open spec fn creation_allowed(
        &self,
        min_duration: u32,
        max_duration: u32,
        current_time: u64,
    ) -> bool {
        &&& self.voting_start > current_time
        &&& min_duration <= self.voting_duration <= max_duration
        &&& self.voting_start + self.voting_duration <= u64::MAX
        &&& self.execute_before > self.voting_start + self.voting_duration
    }

    /// Validates this input at time `current_time` (seconds) into a proposal
    /// created by `proposer`, the calling identity captured by the boundary.
    /// `min_duration` and `max_duration` are the policy bounds in seconds. On
    /// success the voting window is `[voting_start, voting_start +
    /// voting_duration]`, the tallies start at zero, the voter set starts
    /// empty and the proposal is not executed.
    pub fn into_proposal(
        &self,
        min_duration: u32,
        max_duration: u32,
        current_time: u64,
        proposer: &String,
    ) -> (r: Result<Proposal, ProposalError>)
        ensures
            r is Ok <==> self.creation_allowed(min_duration, max_duration, current_time),
            r is Ok ==> r->Ok_0.wf() && r->Ok_0@ == (ProposalModel {
                proposer: proposer@,
                description: self.description@,
                action: internal_of(self.action@),
                voters: Seq::<Seq<char>>::empty(),
                voting_start: self.voting_start as int,
                voting_end: self.voting_start + self.voting_duration,
                votes_for: 0,
                votes_against: 0,
                execute_before: self.execute_before as int,
                executed: false,
            }),
            self.voting_start <= current_time ==> r == Err::<Proposal, ProposalError>(
                ProposalError::VotingStartNotFuture {
                    current: current_time,
                    voting_start: self.voting_start,
                },
            ),
            self.voting_start > current_time && !(min_duration <= self.voting_duration
                <= max_duration) ==> r == Err::<Proposal, ProposalError>(
                ProposalError::DurationOutOfBounds {
                    duration: self.voting_duration,
                    min_duration,
                    max_duration,
                },
            ),
            self.voting_start > current_time && min_duration <= self.voting_duration
                <= max_duration && self.voting_start + self.voting_duration > u64::MAX ==> r
                == Err::<Proposal, ProposalError>(
                ProposalError::WindowOverflow {
                    voting_start: self.voting_start,
                    voting_duration: self.voting_duration,
                },
            ),
            self.voting_start > current_time && min_duration <= self.voting_duration
                <= max_duration && self.voting_start + self.voting_duration <= u64::MAX
                && self.execute_before <= self.voting_start + self.voting_duration ==> r == Err::<
                Proposal,
                ProposalError,
            >(
                ProposalError::ExecuteBeforeNotAfterVoting {
                    execute_before: self.execute_before,
                    voting_end: (self.voting_start + self.voting_duration as u64) as u64,
                },
            ),
    {
        if self.voting_start <= current_time {
            return Err(
                ProposalError::VotingStartNotFuture {
                    current: current_time,
                    voting_start: self.voting_start,
                },
            );
        }
        if !(min_duration <= self.voting_duration && self.voting_duration <= max_duration) {
            return Err(
                ProposalError::DurationOutOfBounds {
                    duration: self.voting_duration,
                    min_duration,
                    max_duration,
                },
            );
        }
        let duration: u64 = self.voting_duration as u64;
        if self.voting_start > u64::MAX - duration {
            return Err(
                ProposalError::WindowOverflow {
                    voting_start: self.voting_start,
                    voting_duration: self.voting_duration,
                },
            );
        }
        let voting_end: u64 = self.voting_start + duration;
        if self.execute_before <= voting_end {
            return Err(
                ProposalError::ExecuteBeforeNotAfterVoting {
                    execute_before: self.execute_before,
                    voting_end,
                },
            );
        }
        let proposal = Proposal {
            proposer: proposer.clone(),
            description: self.description.clone(),
            action: self.action.to_aint(),
            voters: Vec::new(),
            voting_start: self.voting_start,
            voting_end,
            votes_for: 0,
            votes_against: 0,
            execute_before: self.execute_before,
            executed: false,
        };
        proof {
            assert(proposal.voters@.map_values(|s: String| s@) =~= Seq::<Seq<char>>::empty());
        }
        Ok(proposal)
    }
}

/// Read-only external projection of a proposal: the action converted back to
/// its external form, the scalar fields copied.
#[derive(Clone, Debug, PartialEq)]
pub struct ProposalOut {
    pub action: Action,
    pub description: String,
    /// Timestamp in seconds when voting starts.
    pub voting_start: u64,
    /// Timestamp in seconds when voting ends.
    pub voting_end: u64,
    pub votes_for: u32,
    pub votes_against: u32,
    pub execute_before: u64,
    pub executed: bool,
}

impl ProposalOut {
    /// Projects a proposal to its external read view. Fails only when the
    /// stored destination identity does not pass the account-syntax check,
    /// which cannot happen to a proposal created through
    /// [`NewProposal::into_proposal`] from a well-formed action.
    pub fn from(p: Proposal) -> (r: Result<ProposalOut, ProposalError>)
        ensures
            r is Ok <==> internal_valid(p@.action),
            r is Ok ==> {
                let o = r->Ok_0;
                &&& o.action@ == external_of(p@.action)
                &&& o.action.wf()
                &&& o.description@ == p@.description
                &&& o.voting_start == p.voting_start
                &&& o.voting_end == p.voting_end
                &&& o.votes_for == p.votes_for
                &&& o.votes_against == p.votes_against
                &&& o.execute_before == p.execute_before
                &&& o.executed == p.executed
            },
            r is Err ==> r->Err_0 == ProposalError::InvalidAccount,
    {
        match p.action.into_action() {
            Ok(action) => Ok(
                ProposalOut {
                    action,
                    description: p.description,
                    voting_start: p.voting_start,
                    voting_end: p.voting_end,
                    votes_for: p.votes_for,
                    votes_against: p.votes_against,
                    execute_before: p.execute_before,
                    executed: p.executed,
                },
            ),
            Err(e) => Err(e),
        }
    }
}

} // verus!

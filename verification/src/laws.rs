use vstd::prelude::*;

use crate::proposal::ProposalModel;

verus! {

/// One attempted vote call: the caster's identity and power, the choice, and
/// the time at which the call is made.
pub struct VoteCall {
    pub account: Seq<char>,
    pub power: int,
    pub vote_yes: bool,
    pub t: int,
}

impl VoteCall {
    /// The power lies within the allowed range.
    pub open spec fn wf(self) -> bool {
        1 <= self.power <= 10000
    }
}

/// The proposal after one attempted vote call: changed by the vote when the
/// call is accepted, unchanged when it is refused.
pub open spec fn vote_call_step(m: ProposalModel, c: VoteCall) -> ProposalModel {
    if m.vote_allowed(c.account, c.t) {
        m.vote_step(c.account, c.power, c.vote_yes)
    } else {
        m
    }
}

/// The proposal after a sequence of attempted vote calls.
pub open spec fn apply_votes(m: ProposalModel, calls: Seq<VoteCall>) -> ProposalModel
    decreases calls.len(),
{
    if calls.len() == 0 {
        m
    } else {
        apply_votes(vote_call_step(m, calls[0]), calls.drop_first())
    }
}

/// How many of the attempted calls are accepted.
pub open spec fn accepted_count(m: ProposalModel, calls: Seq<VoteCall>) -> int
    decreases calls.len(),
{
    if calls.len() == 0 {
        0
    } else {
        (if m.vote_allowed(calls[0].account, calls[0].t) {
            1int
        } else {
            0int
        }) + accepted_count(vote_call_step(m, calls[0]), calls.drop_first())
    }
}

/// The summed power of the accepted calls whose choice is `vote_yes`.
pub open spec fn accepted_power(m: ProposalModel, calls: Seq<VoteCall>, vote_yes: bool) -> int
    decreases calls.len(),
{
    if calls.len() == 0 {
        0
    } else {
        (if m.vote_allowed(calls[0].account, calls[0].t) && calls[0].vote_yes == vote_yes {
            calls[0].power
        } else {
            0int
        }) + accepted_power(vote_call_step(m, calls[0]), calls.drop_first(), vote_yes)
    }
}

/// One attempted vote call keeps the proposal well-formed: an accepted call
/// inserts an identity that was not among the voters, so the voters stay
/// pairwise distinct.
proof fn lemma_vote_call_step_wf(m: ProposalModel, c: VoteCall)
    requires
        m.wf(),
        c.power >= 0,
    ensures
        vote_call_step(m, c).wf(),
{
    if m.vote_allowed(c.account, c.t) {
        let m1 = m.vote_step(c.account, c.power, c.vote_yes);
        assert forall|i: int, j: int|
            0 <= i < j < m1.voters.len() implies m1.voters[i] != m1.voters[j] by {
            if j < m.voters.len() {
            } else {
                assert(m1.voters[j] == c.account);
                assert(!m.voters.contains(c.account));
                assert(m.voters[i] != c.account);
            }
        }
    }
}

/// Law: over any sequence of vote calls on one proposal, no identity is
/// counted more than once — an accepted call inserts a fresh identity and the
/// voter list stays pairwise distinct — the number of voters grows by exactly
/// the number of accepted calls, and each tally grows by exactly the summed
/// power of the accepted calls with the matching choice. The windows, the
/// action, the proposer and the executed flag are untouched by voting.
pub proof fn lemma_vote_history(m: ProposalModel, calls: Seq<VoteCall>)
    requires
        m.wf(),
        forall|k: int| 0 <= k < calls.len() ==> (#[trigger] calls[k]).wf(),
    ensures
        apply_votes(m, calls).wf(),
        apply_votes(m, calls).voters.len() == m.voters.len() + accepted_count(m, calls),
        apply_votes(m, calls).votes_for == m.votes_for + accepted_power(m, calls, true),
        apply_votes(m, calls).votes_against == m.votes_against + accepted_power(m, calls, false),
        apply_votes(m, calls).voting_start == m.voting_start,
        apply_votes(m, calls).voting_end == m.voting_end,
        apply_votes(m, calls).execute_before == m.execute_before,
        apply_votes(m, calls).executed == m.executed,
        apply_votes(m, calls).proposer == m.proposer,
        apply_votes(m, calls).action == m.action,
    decreases calls.len(),
{
    if calls.len() > 0 {
        let m1 = vote_call_step(m, calls[0]);
        lemma_vote_call_step_wf(m, calls[0]);
        assert forall|k: int|
            0 <= k < calls.drop_first().len() implies (#[trigger] calls.drop_first()[k]).wf() by {
            assert(calls.drop_first()[k] == calls[k + 1]);
        }
        lemma_vote_history(m1, calls.drop_first());
    }
}

/// The summed power of accepted calls is never negative.
proof fn lemma_accepted_power_nonneg(m: ProposalModel, calls: Seq<VoteCall>, vote_yes: bool)
    requires
        forall|k: int| 0 <= k < calls.len() ==> (#[trigger] calls[k]).wf(),
    ensures
        accepted_power(m, calls, vote_yes) >= 0,
    decreases calls.len(),
{
    if calls.len() > 0 {
        assert forall|k: int|
            0 <= k < calls.drop_first().len() implies (#[trigger] calls.drop_first()[k]).wf() by {
            assert(calls.drop_first()[k] == calls[k + 1]);
        }
        lemma_accepted_power_nonneg(vote_call_step(m, calls[0]), calls.drop_first(), vote_yes);
    }
}

/// Law: the tallies never decrease across a proposal's lifetime. After any
/// further sequence of vote calls, `votes_for` and `votes_against` are at
/// least what they were, and a successful execution leaves both unchanged.
pub proof fn lemma_tally_monotonic(m: ProposalModel, calls: Seq<VoteCall>)
    requires
        m.wf(),
        forall|k: int| 0 <= k < calls.len() ==> (#[trigger] calls[k]).wf(),
    ensures
        apply_votes(m, calls).votes_for >= m.votes_for,
        apply_votes(m, calls).votes_against >= m.votes_against,
        m.execute_step().votes_for == m.votes_for,
        m.execute_step().votes_against == m.votes_against,
{
    lemma_vote_history(m, calls);
    lemma_accepted_power_nonneg(m, calls, true);
    lemma_accepted_power_nonneg(m, calls, false);
}

/// Law: execution succeeds at most once. A successful execution sets the
/// executed flag; no sequence of further vote calls clears it, so no later
/// execution attempt is accepted, whatever its time and threshold.
pub proof fn lemma_execute_at_most_once(
    m: ProposalModel,
    calls: Seq<VoteCall>,
    min_support: int,
    t: int,
)
    requires
        m.wf(),
        forall|k: int| 0 <= k < calls.len() ==> (#[trigger] calls[k]).wf(),
    ensures
        m.execute_step().executed,
        apply_votes(m.execute_step(), calls).executed,
        !apply_votes(m.execute_step(), calls).execute_allowed(min_support, t),
{
    assert(m.execute_step().wf());
    lemma_vote_history(m.execute_step(), calls);
}

} // verus!

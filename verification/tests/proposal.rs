use proposal_vote::account::ValidAccountId;
use proposal_vote::action::Action;
use proposal_vote::action::ActionInt;
use proposal_vote::errors::ProposalError;
use proposal_vote::proposal::timestamp_to_seconds;
use proposal_vote::proposal::EffectRequest;
use proposal_vote::proposal::NewProposal;
use proposal_vote::proposal::Proposal;
use proposal_vote::proposal::ProposalOut;
use proposal_vote::proposal::Voter;
use proposal_vote::proposal::FROM_NANO;

const T0: u64 = 1000;

fn transfer_input() -> NewProposal {
    NewProposal {
        action: Action::Transfer {
            dest: ValidAccountId::new("alice.near".to_string()).unwrap(),
            amount: 500,
        },
        description: "fund alice".to_string(),
        voting_start: T0 + 100,
        voting_duration: 200,
        execute_before: T0 + 400,
    }
}

fn proposer() -> String {
    "dao.near".to_string()
}

fn created() -> Proposal {
    transfer_input()
        .into_proposal(100, 1000, T0, &proposer())
        .unwrap()
}

fn voter(account: &str, power: u16) -> Voter {
    Voter {
        account: account.to_string(),
        power,
    }
}

/// A proposal with 11000 votes in favour, ready for execution after T0 + 300.
fn passed() -> Proposal {
    let mut p = created();
    p.vote(&voter("bob.near", 6000), true, T0 + 150).unwrap();
    p.vote(&voter("carol.near", 5000), true, T0 + 200).unwrap();
    p
}

#[test]
fn creation_succeeds_with_derived_voting_end() {
    let p = created();
    assert_eq!(p.proposer, "dao.near".to_string());
    assert_eq!(p.description, "fund alice".to_string());
    assert_eq!(p.voting_start, T0 + 100);
    assert_eq!(p.voting_end, T0 + 300);
    assert_eq!(p.execute_before, T0 + 400);
    assert_eq!(p.votes_for, 0);
    assert_eq!(p.votes_against, 0);
    assert!(p.voters.is_empty());
    assert!(!p.executed);
    assert_eq!(
        p.action,
        ActionInt::Transfer {
            dest: "alice.near".to_string(),
            amount: 500,
        }
    );
}

#[test]
fn creation_rejects_start_not_in_future() {
    let mut np = transfer_input();
    np.voting_start = T0;
    assert_eq!(
        np.into_proposal(100, 1000, T0, &proposer()),
        Err(ProposalError::VotingStartNotFuture {
            current: T0,
            voting_start: T0,
        })
    );
}

#[test]
fn creation_rejects_duration_out_of_bounds() {
    let mut np = transfer_input();
    np.voting_duration = 50;
    assert_eq!(
        np.into_proposal(100, 1000, T0, &proposer()),
        Err(ProposalError::DurationOutOfBounds {
            duration: 50,
            min_duration: 100,
            max_duration: 1000,
        })
    );
    np.voting_duration = 1001;
    assert_eq!(
        np.into_proposal(100, 1000, T0, &proposer()),
        Err(ProposalError::DurationOutOfBounds {
            duration: 1001,
            min_duration: 100,
            max_duration: 1000,
        })
    );
}

#[test]
fn creation_rejects_window_overflow() {
    let mut np = transfer_input();
    np.voting_start = u64::MAX - 10;
    np.voting_duration = 200;
    assert_eq!(
        np.into_proposal(100, 1000, T0, &proposer()),
        Err(ProposalError::WindowOverflow {
            voting_start: u64::MAX - 10,
            voting_duration: 200,
        })
    );
}

#[test]
fn creation_rejects_execute_before_not_after_voting() {
    let mut np = transfer_input();
    np.execute_before = T0 + 300;
    assert_eq!(
        np.into_proposal(100, 1000, T0, &proposer()),
        Err(ProposalError::ExecuteBeforeNotAfterVoting {
            execute_before: T0 + 300,
            voting_end: T0 + 300,
        })
    );
}

#[test]
fn two_votes_sum_and_duplicate_is_rejected() {
    let mut p = created();
    assert_eq!(p.vote(&voter("bob.near", 6000), true, T0 + 150), Ok(()));
    assert_eq!(p.vote(&voter("carol.near", 5000), true, T0 + 200), Ok(()));
    assert_eq!(p.votes_for, 11000);
    assert_eq!(p.votes_against, 0);
    assert_eq!(p.voters.len(), 2);
    assert_eq!(
        p.vote(&voter("carol.near", 5000), true, T0 + 250),
        Err(ProposalError::AlreadyVoted)
    );
    assert_eq!(p.votes_for, 11000);
    assert_eq!(p.voters.len(), 2);
}

#[test]
fn vote_against_adds_to_other_tally() {
    let mut p = created();
    assert_eq!(p.vote(&voter("bob.near", 700), false, T0 + 150), Ok(()));
    assert_eq!(p.votes_for, 0);
    assert_eq!(p.votes_against, 700);
}

#[test]
fn vote_outside_window_is_rejected() {
    let mut p = created();
    assert_eq!(
        p.vote(&voter("bob.near", 6000), true, T0),
        Err(ProposalError::VotingNotActive {
            current: T0,
            voting_start: T0 + 100,
            voting_end: T0 + 300,
        })
    );
    assert_eq!(
        p.vote(&voter("bob.near", 6000), true, T0 + 301),
        Err(ProposalError::VotingNotActive {
            current: T0 + 301,
            voting_start: T0 + 100,
            voting_end: T0 + 300,
        })
    );
    assert_eq!(p.votes_for, 0);
    assert!(p.voters.is_empty());
}

#[test]
fn vote_accepted_on_window_bounds() {
    let mut p = created();
    assert_eq!(p.vote(&voter("bob.near", 10), true, T0 + 100), Ok(()));
    assert_eq!(p.vote(&voter("carol.near", 10), true, T0 + 300), Ok(()));
    assert_eq!(p.votes_for, 20);
}

#[test]
fn execute_succeeds_once_then_reports_already_executed() {
    let mut p = passed();
    let effect = p.execute(10000, T0 + 350, &"dao.near".to_string()).unwrap();
    assert_eq!(
        effect,
        EffectRequest::Transfer {
            dest: "alice.near".to_string(),
            amount: 500,
        }
    );
    assert!(p.executed);
    assert_eq!(
        p.execute(10000, T0 + 360, &"dao.near".to_string()),
        Err(ProposalError::AlreadyExecuted)
    );
    assert!(p.executed);
}

#[test]
fn execute_during_voting_window_is_rejected() {
    let mut p = passed();
    assert_eq!(
        p.execute(10000, T0 + 250, &"dao.near".to_string()),
        Err(ProposalError::OutsideExecutionWindow {
            current: T0 + 250,
            voting_end: T0 + 300,
            execute_before: T0 + 400,
        })
    );
    assert!(!p.executed);
}

#[test]
fn execute_after_deadline_is_rejected() {
    let mut p = passed();
    assert_eq!(
        p.execute(10000, T0 + 401, &"dao.near".to_string()),
        Err(ProposalError::OutsideExecutionWindow {
            current: T0 + 401,
            voting_end: T0 + 300,
            execute_before: T0 + 400,
        })
    );
}

#[test]
fn execute_without_quorum_reports_shortfall() {
    let mut p = passed();
    assert_eq!(
        p.execute(12000, T0 + 350, &"dao.near".to_string()),
        Err(ProposalError::NotEnoughSupport {
            got: 11000,
            required: 12000,
        })
    );
    assert!(!p.executed);
}

#[test]
fn execute_tie_does_not_pass() {
    let mut p = created();
    p.vote(&voter("bob.near", 4000), true, T0 + 150).unwrap();
    p.vote(&voter("carol.near", 4000), false, T0 + 200).unwrap();
    assert_eq!(
        p.execute(1000, T0 + 350, &"dao.near".to_string()),
        Err(ProposalError::DidNotPass {
            votes_for: 4000,
            votes_against: 4000,
        })
    );
    assert!(!p.executed);
}

#[test]
fn execute_delete_names_the_initiating_account() {
    let np = NewProposal {
        action: Action::Delete {
            dest: ValidAccountId::new("old.near".to_string()).unwrap(),
        },
        description: "remove old".to_string(),
        voting_start: T0 + 100,
        voting_duration: 200,
        execute_before: T0 + 400,
    };
    let mut p = np.into_proposal(100, 1000, T0, &proposer()).unwrap();
    p.vote(&voter("bob.near", 9000), true, T0 + 150).unwrap();
    let effect = p.execute(9000, T0 + 350, &"dao.near".to_string()).unwrap();
    assert_eq!(
        effect,
        EffectRequest::Delete {
            initiator: "dao.near".to_string(),
            dest: "old.near".to_string(),
        }
    );
}

#[test]
fn proposal_out_projects_all_fields() {
    let p = passed();
    let out = ProposalOut::from(p).unwrap();
    assert_eq!(
        out.action,
        Action::Transfer {
            dest: ValidAccountId::new("alice.near".to_string()).unwrap(),
            amount: 500,
        }
    );
    assert_eq!(out.description, "fund alice".to_string());
    assert_eq!(out.voting_start, T0 + 100);
    assert_eq!(out.voting_end, T0 + 300);
    assert_eq!(out.votes_for, 11000);
    assert_eq!(out.votes_against, 0);
    assert_eq!(out.execute_before, T0 + 400);
    assert!(!out.executed);
}

#[test]
fn proposal_out_rejects_invalid_stored_destination() {
    let mut p = created();
    p.action = ActionInt::Delete {
        dest: "..bad".to_string(),
    };
    assert_eq!(ProposalOut::from(p), Err(ProposalError::InvalidAccount));
}

#[test]
fn timestamps_convert_from_nanoseconds() {
    assert_eq!(FROM_NANO, 1_000_000_000);
    assert_eq!(timestamp_to_seconds(1_500_000_000), 1);
    assert_eq!(timestamp_to_seconds(999_999_999), 0);
    assert_eq!(timestamp_to_seconds(2_000_000_001), 2);
}

//! End-to-end tests of the governance engine: propose, vote, execute.

use investment_dao::engine::ExecutionContext;
use investment_dao::engine::Governor;
use investment_dao::engine::TransferAction;
use investment_dao::types::GovernorError;
use investment_dao::types::Proposal;
use investment_dao::types::ProposalVote;
use investment_dao::types::VoteType;
use investment_dao::types::ONE_MINUTE;

const TOKEN: u128 = 0x01;
const ALICE: u128 = 1;
const BOB: u128 = 2;
const CHARLIE: u128 = 3;
const DJANGO: u128 = 4;

fn ctx(caller: u128, block_timestamp: u64) -> ExecutionContext {
    ExecutionContext { caller, block_timestamp }
}

fn create_governor(quorum: u8) -> Governor {
    Governor::new(TOKEN, quorum)
}

#[test]
fn propose_works() {
    let mut governor = create_governor(50);
    let at_start = ctx(ALICE, 0);
    assert_eq!(
        governor.propose(DJANGO, 0, 1, &at_start),
        Err(GovernorError::AmountShouldNotBeZero)
    );
    assert_eq!(
        governor.propose(DJANGO, 100, 0, &at_start),
        Err(GovernorError::DurationError)
    );
    let result = governor.propose(DJANGO, 100, 1, &at_start);
    assert_eq!(result, Ok(1));
    let proposal = governor.get_proposal(1).unwrap();
    let now = governor.now(&at_start);
    assert_eq!(
        proposal,
        Proposal {
            to: DJANGO,
            amount: 100,
            vote_start: 0,
            vote_end: now + 1 * ONE_MINUTE,
            executed: false,
        }
    );
    assert_eq!(governor.next_proposal_id(), 1);
}

#[test]
fn quorum_not_reached() {
    let mut governor = create_governor(50);
    let result = governor.propose(BOB, 100, 1, &ctx(ALICE, 0));
    assert_eq!(result, Ok(1));
    assert_eq!(governor.next_proposal_id(), 1);
    let execute = governor.execute(1, &ctx(ALICE, 0));
    assert_eq!(execute, Err(GovernorError::QuorumNotReached));
}

#[test]
fn propose_rejects_oversized_window() {
    let mut governor = create_governor(50);
    assert_eq!(
        governor.propose(DJANGO, 100, u64::MAX, &ctx(ALICE, 1)),
        Err(GovernorError::DurationError)
    );
    assert_eq!(governor.next_proposal_id(), 0);
}

#[test]
fn propose_checks_amount_before_duration() {
    let mut governor = create_governor(50);
    assert_eq!(
        governor.propose(DJANGO, 0, 0, &ctx(ALICE, 0)),
        Err(GovernorError::AmountShouldNotBeZero)
    );
}

#[test]
fn propose_assigns_sequential_ids() {
    let mut governor = create_governor(50);
    assert_eq!(governor.next_proposal_id(), 0);
    assert_eq!(governor.propose(BOB, 100, 1, &ctx(ALICE, 0)), Ok(1));
    assert_eq!(governor.next_proposal_id(), 1);
    assert_eq!(governor.propose(CHARLIE, 7, 2, &ctx(ALICE, 5)), Ok(2));
    assert_eq!(governor.next_proposal_id(), 2);
    assert_eq!(governor.get_proposal(1).unwrap().to, BOB);
    assert_eq!(governor.get_proposal(2).unwrap().to, CHARLIE);
}

#[test]
fn vote_on_missing_proposal_fails() {
    let mut governor = create_governor(50);
    assert_eq!(
        governor.vote(1, VoteType::For, &ctx(ALICE, 0), 500, 1000),
        Err(GovernorError::ProposalNotFound)
    );
}

#[test]
fn vote_after_window_fails() {
    let mut governor = create_governor(50);
    governor.propose(DJANGO, 100, 1, &ctx(ALICE, 0)).unwrap();
    // The window is the half-open interval [vote_start, vote_end): a vote at
    // the last instant before vote_end counts, one at vote_end does not.
    assert_eq!(
        governor.vote(1, VoteType::For, &ctx(ALICE, ONE_MINUTE), 500, 1000),
        Err(GovernorError::VotePeriodEnded)
    );
    assert_eq!(
        governor.vote(1, VoteType::For, &ctx(ALICE, ONE_MINUTE - 1), 500, 1000),
        Ok(())
    );
}

#[test]
fn vote_twice_fails_regardless_of_choice() {
    let mut governor = create_governor(50);
    governor.propose(DJANGO, 100, 1, &ctx(ALICE, 0)).unwrap();
    assert_eq!(governor.vote(1, VoteType::For, &ctx(ALICE, 0), 500, 1000), Ok(()));
    assert_eq!(
        governor.vote(1, VoteType::Against, &ctx(ALICE, 1), 500, 1000),
        Err(GovernorError::AlreadyVoted)
    );
    assert_eq!(
        governor.vote(1, VoteType::For, &ctx(ALICE, 1), 500, 1000),
        Err(GovernorError::AlreadyVoted)
    );
}

#[test]
fn vote_on_executed_proposal_fails() {
    let mut governor = create_governor(50);
    governor.propose(DJANGO, 100, 1, &ctx(ALICE, 0)).unwrap();
    governor.vote(1, VoteType::For, &ctx(ALICE, 0), 600, 1000).unwrap();
    let after_window = ctx(BOB, ONE_MINUTE);
    governor.execute(1, &after_window).unwrap();
    governor.confirm_execution(1, &after_window, true).unwrap();
    assert_eq!(
        governor.vote(1, VoteType::Against, &ctx(BOB, ONE_MINUTE), 400, 1000),
        Err(GovernorError::ProposalAlreadyExecuted)
    );
}

#[test]
fn weights_are_proportional_to_balances() {
    let mut governor = create_governor(50);
    governor.propose(DJANGO, 100, 1, &ctx(ALICE, 0)).unwrap();
    // Balance 500 of total supply 1000 contributes weight 50.
    assert_eq!(governor.vote(1, VoteType::For, &ctx(ALICE, 0), 500, 1000), Ok(()));
    assert_eq!(
        governor.get_proposal_votes(1),
        Some(ProposalVote { for_votes: 50, against_votes: 0 })
    );
    assert_eq!(governor.vote(1, VoteType::Against, &ctx(BOB, 0), 250, 1000), Ok(()));
    assert_eq!(
        governor.get_proposal_votes(1),
        Some(ProposalVote { for_votes: 50, against_votes: 25 })
    );
}

#[test]
fn zero_balance_vote_counts_nothing_but_marks_the_account() {
    let mut governor = create_governor(50);
    governor.propose(DJANGO, 100, 1, &ctx(ALICE, 0)).unwrap();
    assert_eq!(governor.vote(1, VoteType::For, &ctx(ALICE, 0), 0, 1000), Ok(()));
    assert_eq!(
        governor.get_proposal_votes(1),
        Some(ProposalVote { for_votes: 0, against_votes: 0 })
    );
    assert_eq!(
        governor.vote(1, VoteType::For, &ctx(ALICE, 0), 0, 1000),
        Err(GovernorError::AlreadyVoted)
    );
}

#[test]
fn execute_below_quorum_fails() {
    let mut governor = create_governor(50);
    governor.propose(DJANGO, 100, 1, &ctx(ALICE, 0)).unwrap();
    // Weight 40 in total, quorum 50.
    governor.vote(1, VoteType::For, &ctx(ALICE, 0), 400, 1000).unwrap();
    assert_eq!(
        governor.execute(1, &ctx(ALICE, ONE_MINUTE)),
        Err(GovernorError::QuorumNotReached)
    );
}

#[test]
fn execute_tie_is_not_accepted() {
    let mut governor = create_governor(50);
    governor.propose(DJANGO, 100, 1, &ctx(ALICE, 0)).unwrap();
    governor.vote(1, VoteType::For, &ctx(ALICE, 0), 300, 1000).unwrap();
    governor.vote(1, VoteType::Against, &ctx(BOB, 0), 300, 1000).unwrap();
    assert_eq!(
        governor.execute(1, &ctx(ALICE, ONE_MINUTE)),
        Err(GovernorError::ProposalNotAccepted)
    );
}

#[test]
fn execute_minority_for_is_not_accepted() {
    let mut governor = create_governor(50);
    governor.propose(DJANGO, 100, 1, &ctx(ALICE, 0)).unwrap();
    governor.vote(1, VoteType::For, &ctx(ALICE, 0), 200, 1000).unwrap();
    governor.vote(1, VoteType::Against, &ctx(BOB, 0), 400, 1000).unwrap();
    assert_eq!(
        governor.execute(1, &ctx(ALICE, ONE_MINUTE)),
        Err(GovernorError::ProposalNotAccepted)
    );
}

#[test]
fn execute_missing_proposal_fails() {
    let governor = create_governor(50);
    assert_eq!(
        governor.execute(7, &ctx(ALICE, 0)),
        Err(GovernorError::ProposalNotFound)
    );
}

#[test]
fn accepted_proposal_executes_exactly_once() {
    let mut governor = create_governor(50);
    governor.propose(DJANGO, 100, 1, &ctx(ALICE, 0)).unwrap();
    governor.vote(1, VoteType::For, &ctx(ALICE, 0), 600, 1000).unwrap();
    governor.vote(1, VoteType::Against, &ctx(BOB, 0), 200, 1000).unwrap();
    let after_window = ctx(CHARLIE, ONE_MINUTE);
    let action = governor.execute(1, &after_window);
    assert_eq!(action, Ok(TransferAction { to: DJANGO, amount: 100 }));
    assert_eq!(governor.confirm_execution(1, &after_window, true), Ok(()));
    assert!(governor.get_proposal(1).unwrap().executed);
    // The second attempt authorizes no transfer.
    assert_eq!(
        governor.execute(1, &after_window),
        Err(GovernorError::ProposalAlreadyExecuted)
    );
    assert_eq!(
        governor.confirm_execution(1, &after_window, true),
        Err(GovernorError::ProposalAlreadyExecuted)
    );
}

#[test]
fn failed_transfer_leaves_no_state_change() {
    let mut governor = create_governor(50);
    governor.propose(DJANGO, 100, 1, &ctx(ALICE, 0)).unwrap();
    governor.vote(1, VoteType::For, &ctx(ALICE, 0), 600, 1000).unwrap();
    let after_window = ctx(ALICE, ONE_MINUTE);
    governor.execute(1, &after_window).unwrap();
    assert_eq!(
        governor.confirm_execution(1, &after_window, false),
        Err(GovernorError::TransactionFailed)
    );
    // Nothing was persisted, so the execution can be retried.
    assert!(!governor.get_proposal(1).unwrap().executed);
    assert_eq!(governor.confirm_execution(1, &after_window, true), Ok(()));
    assert!(governor.get_proposal(1).unwrap().executed);
}

#[test]
fn execute_before_window_close_is_premature() {
    let mut governor = create_governor(50);
    governor.propose(DJANGO, 100, 1, &ctx(ALICE, 0)).unwrap();
    // Even a unanimous vote cannot be executed before vote_end.
    governor.vote(1, VoteType::For, &ctx(ALICE, 0), 1000, 1000).unwrap();
    assert_eq!(
        governor.execute(1, &ctx(ALICE, ONE_MINUTE - 1)),
        Err(GovernorError::QuorumNotReached)
    );
    assert_eq!(
        governor.execute(1, &ctx(ALICE, ONE_MINUTE)),
        Ok(TransferAction { to: DJANGO, amount: 100 })
    );
}

#[test]
fn repeated_reads_return_identical_results() {
    let mut governor = create_governor(50);
    governor.propose(DJANGO, 100, 1, &ctx(ALICE, 0)).unwrap();
    let first_read = governor.get_proposal(1);
    let second_read = governor.get_proposal(1);
    assert_eq!(first_read, second_read);
    assert_eq!(governor.next_proposal_id(), governor.next_proposal_id());
    assert_eq!(governor.get_proposal_votes(1), governor.get_proposal_votes(1));
}

#[test]
fn now_reports_the_context_clock() {
    let governor = create_governor(50);
    assert_eq!(governor.now(&ctx(ALICE, 42)), 42);
}

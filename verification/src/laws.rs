//! The governance rules stated as theorems over the engine's abstract state,
//! proved once and for all inputs.

use vstd::prelude::*;

use crate::engine::lemma_vote_weight_bounds;
use crate::engine::GovState;
use crate::engine::TransferAction;
use crate::types::AccountId;
use crate::types::Balance;
use crate::types::GovernorError;
use crate::types::ONE_MINUTE;
use crate::types::Proposal;
use crate::types::ProposalId;
use crate::types::ProposalVote;
use crate::types::Timestamp;
use crate::types::VoteType;

verus! {

/// A successful `propose` at time `now` appends exactly one record: the new
/// id is one past the previous count, the stored proposal is
/// `{to, amount, vote_start: now, vote_end: now + duration minutes,
/// executed: false}` with zero tallies, and every earlier record and every
/// vote mark is untouched.
pub proof fn lemma_propose_creates_record(
    s: GovState,
    to: AccountId,
    amount: Balance,
    duration: u64,
    now: Timestamp,
)
    requires
        s.wf(),
        s.proposal_count() < u32::MAX as nat,
        GovState::propose_check(amount, duration, now) == Ok::<(), GovernorError>(()),
    ensures
        ({
            let next = s.propose_step(to, amount, duration, now);
            let id = ((s.proposal_count() + 1) as ProposalId);
            &&& next.wf()
            &&& next.proposal_count() == s.proposal_count() + 1
            &&& next.has_proposal(id)
            &&& next.proposal_at(id) == (Proposal {
                to,
                amount,
                vote_start: now,
                vote_end: ((now + duration * ONE_MINUTE) as u64),
                executed: false,
            })
            &&& next.tally_at(id) == (ProposalVote { for_votes: 0, against_votes: 0 })
            &&& forall|i: ProposalId|
                #[trigger] s.has_proposal(i) ==> next.proposal_at(i) == s.proposal_at(i)
                    && next.tally_at(i) == s.tally_at(i)
            &&& next.voted == s.voted
        }),
{
}

/// The error discipline of `vote`, for every state and every caller: each
/// precondition is answered with its specific error, in order, regardless of
/// the choice; a vote is accepted exactly when the proposal exists, is not
/// executed, its window is still open, and the caller has not voted on it.
pub proof fn lemma_vote_error_cases(
    s: GovState,
    proposal_id: ProposalId,
    caller: AccountId,
    now: Timestamp,
)
    ensures
        s.vote_check(proposal_id, caller, now) == Err::<(), GovernorError>(
            GovernorError::ProposalNotFound,
        ) <==> !s.has_proposal(proposal_id),
        s.vote_check(proposal_id, caller, now) == Err::<(), GovernorError>(
            GovernorError::ProposalAlreadyExecuted,
        ) <==> s.has_proposal(proposal_id) && s.proposal_at(proposal_id).executed,
        s.vote_check(proposal_id, caller, now) == Err::<(), GovernorError>(
            GovernorError::VotePeriodEnded,
        ) <==> s.has_proposal(proposal_id) && !s.proposal_at(proposal_id).executed && now
            >= s.proposal_at(proposal_id).vote_end,
        s.vote_check(proposal_id, caller, now) == Err::<(), GovernorError>(
            GovernorError::AlreadyVoted,
        ) <==> s.has_proposal(proposal_id) && !s.proposal_at(proposal_id).executed && now
            < s.proposal_at(proposal_id).vote_end && s.has_voted(proposal_id, caller),
        s.vote_check(proposal_id, caller, now) == Ok::<(), GovernorError>(()) <==> s.has_proposal(
            proposal_id,
        ) && !s.proposal_at(proposal_id).executed && now < s.proposal_at(proposal_id).vote_end
            && !s.has_voted(proposal_id, caller),
{
}

/// Two distinct accounts voting `For` and `Against` in turn both get their
/// votes accepted, and each side's tally grows by exactly that account's
/// weight: its balance as a percentage of the total supply.
pub proof fn lemma_two_accounts_accumulate_weight(
    s: GovState,
    proposal_id: ProposalId,
    first: AccountId,
    second: AccountId,
    first_balance: Balance,
    second_balance: Balance,
    total_supply: Balance,
    now: Timestamp,
)
    requires
        s.wf(),
        total_supply > 0,
        first_balance <= total_supply,
        second_balance <= total_supply,
        s.tally_at(proposal_id).for_votes + 100 <= u128::MAX,
        s.tally_at(proposal_id).against_votes + 100 <= u128::MAX,
        first != second,
        s.vote_check(proposal_id, first, now) == Ok::<(), GovernorError>(()),
        !s.has_voted(proposal_id, second),
    ensures
        ({
            let first_weight = GovState::vote_weight(first_balance, total_supply);
            let second_weight = GovState::vote_weight(second_balance, total_supply);
            let after_first = s.vote_step(
                proposal_id,
                VoteType::For,
                first,
                (first_weight as u128),
            );
            let after_both = after_first.vote_step(
                proposal_id,
                VoteType::Against,
                second,
                (second_weight as u128),
            );
            &&& after_first.vote_check(proposal_id, second, now) == Ok::<(), GovernorError>(())
            &&& after_both.tally_at(proposal_id).for_votes == s.tally_at(proposal_id).for_votes
                + first_weight
            &&& after_both.tally_at(proposal_id).against_votes == s.tally_at(
                proposal_id,
            ).against_votes + second_weight
        }),
{
    lemma_vote_weight_bounds(first_balance, total_supply);
    lemma_vote_weight_bounds(second_balance, total_supply);
}

/// The outcome of `execute`, for every state and every time: executing
/// before the window closes or with participation below the quorum is
/// refused as `QuorumNotReached`; a closed window with the quorum met but
/// without a strict `for` majority is refused as `ProposalNotAccepted`; and
/// with a strict majority the proposal's own transfer, and nothing else, is
/// authorized.
pub proof fn lemma_execute_outcomes(s: GovState, proposal_id: ProposalId, now: Timestamp)
    ensures
        s.execute_check(proposal_id, now) == Err::<TransferAction, GovernorError>(
            GovernorError::ProposalNotFound,
        ) <==> !s.has_proposal(proposal_id),
        s.execute_check(proposal_id, now) == Err::<TransferAction, GovernorError>(
            GovernorError::ProposalAlreadyExecuted,
        ) <==> s.has_proposal(proposal_id) && s.proposal_at(proposal_id).executed,
        s.execute_check(proposal_id, now) == Err::<TransferAction, GovernorError>(
            GovernorError::QuorumNotReached,
        ) <==> s.has_proposal(proposal_id) && !s.proposal_at(proposal_id).executed && (now
            < s.proposal_at(proposal_id).vote_end || s.tally_at(proposal_id).total() < s.quorum as int),
        s.execute_check(proposal_id, now) == Err::<TransferAction, GovernorError>(
            GovernorError::ProposalNotAccepted,
        ) <==> s.has_proposal(proposal_id) && !s.proposal_at(proposal_id).executed && now
            >= s.proposal_at(proposal_id).vote_end && s.tally_at(proposal_id).total()
            >= s.quorum as int && s.tally_at(proposal_id).for_votes <= s.tally_at(
            proposal_id,
        ).against_votes,
        s.execute_check(proposal_id, now) == Ok::<TransferAction, GovernorError>(
            TransferAction {
                to: s.proposal_at(proposal_id).to,
                amount: s.proposal_at(proposal_id).amount,
            },
        ) <==> s.has_proposal(proposal_id) && !s.proposal_at(proposal_id).executed && now
            >= s.proposal_at(proposal_id).vote_end && s.tally_at(proposal_id).total()
            >= s.quorum as int && s.tally_at(proposal_id).for_votes > s.tally_at(
            proposal_id,
        ).against_votes,
{
}

/// Execution happens at most once: after an accepted execution is confirmed,
/// every later `execute` on the same proposal is refused as
/// `ProposalAlreadyExecuted`, whatever the time, so no second transfer is
/// ever authorized. Confirming touches nothing but the executed flag.
pub proof fn lemma_execute_only_once(
    s: GovState,
    proposal_id: ProposalId,
    now: Timestamp,
    later: Timestamp,
)
    requires
        s.wf(),
        s.execute_check(proposal_id, now) is Ok,
    ensures
        ({
            let done = s.mark_executed(proposal_id);
            &&& done.wf()
            &&& done.execute_check(proposal_id, later) == Err::<TransferAction, GovernorError>(
                GovernorError::ProposalAlreadyExecuted,
            )
            &&& done.proposal_count() == s.proposal_count()
            &&& done.proposal_at(proposal_id) == (Proposal {
                executed: true,
                ..s.proposal_at(proposal_id)
            })
            &&& forall|i: ProposalId|
                #[trigger] s.has_proposal(i) && i != proposal_id ==> done.proposal_at(i)
                    == s.proposal_at(i)
            &&& done.tallies == s.tallies
            &&& done.voted == s.voted
        }),
{
}

/// Reads are idempotent: the results of `get_proposal`, `get_proposal_votes`
/// and `next_proposal_id` are functions of the abstract state alone, so two
/// reads without an intervening write answer identically.
pub proof fn lemma_reads_idempotent(before: GovState, after: GovState, proposal_id: ProposalId)
    requires
        before == after,
    ensures
        before.proposal_count() == after.proposal_count(),
        before.has_proposal(proposal_id) == after.has_proposal(proposal_id),
        before.has_proposal(proposal_id) ==> before.proposal_at(proposal_id) == after.proposal_at(
            proposal_id,
        ),
        before.tally_at(proposal_id) == after.tally_at(proposal_id),
{
}

} // verus!

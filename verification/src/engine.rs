//! The governance engine: orchestrates propose / vote / execute against the
//! proposal store and the vote ledger, and enforces every invariant of the
//! governance rules.
//!
//! The engine is deliberately free of any ambient environment. The host's
//! caller identity and clock arrive as an [`ExecutionContext`]; the
//! governance token's balance and total supply arrive as plain values read
//! just before the call; and `execute` hands back the [`TransferAction`] the
//! host must perform, whose outcome is then reported to
//! [`Governor::confirm_execution`]. The executed flag is only persisted once
//! the transfer has succeeded, so a failed transfer leaves no partial state
//! change and execution stays idempotent under retry.

use vstd::arithmetic::div_mod::lemma_div_is_ordered;
use vstd::arithmetic::div_mod::lemma_div_multiples_vanish;
use vstd::prelude::*;

use crate::ledger::VoteLedger;
use crate::store::ProposalStore;
use crate::types::AccountId;
use crate::types::Balance;
use crate::types::GovernorError;
use crate::types::ONE_MINUTE;
use crate::types::Proposal;
use crate::types::ProposalId;
use crate::types::ProposalVote;
use crate::types::Timestamp;
use crate::types::VoteType;

verus! {

/// What the host execution environment supplies for one call: the identity
/// of the account making the call and the current block timestamp.
#[derive(Clone, Copy, Debug, PartialEq, Eq, Structural)]
pub struct ExecutionContext {
    pub caller: AccountId,
    pub block_timestamp: Timestamp,
}

/// The fund transfer that an accepted proposal authorizes: the host must
/// transfer `amount` of the governance token to `to`.
#[derive(Clone, Copy, Debug, PartialEq, Eq, Structural)]
pub struct TransferAction {
    pub to: AccountId,
    pub amount: Balance,
}

/// The abstract state of a [`Governor`]: the stored proposals and tallies in
/// id order (the proposal with id `i` is element `i - 1`), the set of
/// `(proposal, account)` pairs that have voted, and the immutable
/// configuration.
#[verifier::ext_equal]
pub ghost struct GovState {
    pub proposals: Seq<Proposal>,
    pub tallies: Seq<ProposalVote>,
    pub voted: Set<(ProposalId, AccountId)>,
    pub quorum: u8,
    pub governance_token: AccountId,
}

impl GovState {
    /// How many proposals have been created; also the last allocated id.
    pub open spec fn proposal_count(self) -> nat {
        self.proposals.len()
    }

    /// Whether a proposal with this id exists.
    pub open spec fn has_proposal(self, proposal_id: ProposalId) -> bool {
        1 <= proposal_id && proposal_id as nat <= self.proposal_count()
    }

    /// The proposal stored under an existing id.
    pub open spec fn proposal_at(self, proposal_id: ProposalId) -> Proposal {
        self.proposals[proposal_id as int - 1]
    }

    /// The tallies stored under an id; zero on both sides where no proposal
    /// exists.
    pub open spec fn tally_at(self, proposal_id: ProposalId) -> ProposalVote {
        if self.has_proposal(proposal_id) {
            self.tallies[proposal_id as int - 1]
        } else {
            ProposalVote { for_votes: 0, against_votes: 0 }
        }
    }

    /// Whether `account` has already voted on the proposal with this id.
    pub open spec fn has_voted(self, proposal_id: ProposalId, account: AccountId) -> bool {
        self.voted.contains((proposal_id, account))
    }

    /// Internal consistency: one tally record per proposal, every id fits
    /// the id type, and every stored record satisfies the creation-time
    /// checks.
    pub open spec fn wf(self) -> bool {
        &&& self.tallies.len() == self.proposals.len()
        &&& self.proposals.len() <= u32::MAX as nat
        &&& forall|i: int| 0 <= i < self.proposals.len() ==> (#[trigger] self.proposals[i]).valid()
    }

    /// The voting weight of an account holding `balance` of `total_supply`
    /// tokens: its balance as a percentage of the supply, rounded down.
    pub open spec fn vote_weight(balance: Balance, total_supply: Balance) -> int {
        (balance * 100) / (total_supply as int)
    }

    /// The input validation of `propose`: the amount must be positive, the
    /// duration must be positive and the scaled window end must fit in a
    /// timestamp.
    pub open spec fn propose_check(amount: Balance, duration: u64, now: Timestamp) -> Result<
        (),
        GovernorError,
    > {
        if amount == 0 {
            Err(GovernorError::AmountShouldNotBeZero)
        } else if duration == 0 || now + duration * ONE_MINUTE > u64::MAX {
            Err(GovernorError::DurationError)
        } else {
            Ok(())
        }
    }

    /// The record a successful `propose` stores: the voting window opens at
    /// `now` and closes `duration` minutes later, and the proposal starts
    /// unexecuted.
    pub open spec fn proposed(
        to: AccountId,
        amount: Balance,
        duration: u64,
        now: Timestamp,
    ) -> Proposal {
        Proposal {
            to,
            amount,
            vote_start: now,
            vote_end: (now + duration * ONE_MINUTE) as u64,
            executed: false,
        }
    }

    /// The state after a successful `propose`: the new record and its zero
    /// tallies are appended, everything else is unchanged.
    pub open spec fn propose_step(
        self,
        to: AccountId,
        amount: Balance,
        duration: u64,
        now: Timestamp,
    ) -> GovState {
        GovState {
            proposals: self.proposals.push(Self::proposed(to, amount, duration, now)),
            tallies: self.tallies.push(ProposalVote { for_votes: 0, against_votes: 0 }),
            ..self
        }
    }

    /// The preconditions of `vote`, each a hard check answered with its
    /// specific error: the proposal must exist, must not be executed, its
    /// window must still be open, and the caller must not have voted on it.
    pub open spec fn vote_check(
        self,
        proposal_id: ProposalId,
        caller: AccountId,
        now: Timestamp,
    ) -> Result<(), GovernorError> {
        if !self.has_proposal(proposal_id) {
            Err(GovernorError::ProposalNotFound)
        } else if self.proposal_at(proposal_id).executed {
            Err(GovernorError::ProposalAlreadyExecuted)
        } else if now >= self.proposal_at(proposal_id).vote_end {
            Err(GovernorError::VotePeriodEnded)
        } else if self.has_voted(proposal_id, caller) {
            Err(GovernorError::AlreadyVoted)
        } else {
            Ok(())
        }
    }

    /// The state after a successful `vote`: `weight` is added to the chosen
    /// side of the proposal's tallies, the caller is recorded as having
    /// voted, and everything else is unchanged.
    pub open spec fn vote_step(
        self,
        proposal_id: ProposalId,
        choice: VoteType,
        caller: AccountId,
        weight: u128,
    ) -> GovState {
        GovState {
            tallies: self.tallies.update(
                proposal_id as int - 1,
                self.tally_at(proposal_id).cast(choice, weight),
            ),
            voted: self.voted.insert((proposal_id, caller)),
            ..self
        }
    }

    /// The decision of `execute`: the proposal must exist, must not be
    /// executed already, its window must be closed, total participation must
    /// meet the quorum and `for` votes must strictly exceed `against` votes;
    /// then the proposal's transfer is authorized. Execution before the
    /// window closes is answered exactly like insufficient participation.
    pub open spec fn execute_check(self, proposal_id: ProposalId, now: Timestamp) -> Result<
        TransferAction,
        GovernorError,
    > {
        if !self.has_proposal(proposal_id) {
            Err(GovernorError::ProposalNotFound)
        } else if self.proposal_at(proposal_id).executed {
            Err(GovernorError::ProposalAlreadyExecuted)
        } else if now < self.proposal_at(proposal_id).vote_end {
            Err(GovernorError::QuorumNotReached)
        } else if self.tally_at(proposal_id).total() < self.quorum as int {
            Err(GovernorError::QuorumNotReached)
        } else if self.tally_at(proposal_id).for_votes <= self.tally_at(proposal_id).against_votes {
            Err(GovernorError::ProposalNotAccepted)
        } else {
            Ok(
                TransferAction {
                    to: self.proposal_at(proposal_id).to,
                    amount: self.proposal_at(proposal_id).amount,
                },
            )
        }
    }

    /// The state after a confirmed execution: the proposal's executed flag
    /// is set, everything else is unchanged.
    pub open spec fn mark_executed(self, proposal_id: ProposalId) -> GovState {
        GovState {
            proposals: self.proposals.update(
                proposal_id as int - 1,
                (Proposal { executed: true, ..self.proposal_at(proposal_id) }),
            ),
            ..self
        }
    }
}

/// The voting weight formula stays within 0 and 100 whenever the account's
/// balance does not exceed the total supply.
pub proof fn lemma_vote_weight_bounds(balance: Balance, total_supply: Balance)
    requires
        total_supply > 0,
        balance <= total_supply,
    ensures
        0 <= GovState::vote_weight(balance, total_supply) <= 100,
{
    lemma_div_is_ordered(balance * 100, total_supply * 100, total_supply as int);
    lemma_div_multiples_vanish(100, total_supply as int);
}

/// The governance engine. It exclusively owns the proposal store and the
/// vote ledger; the quorum and the governance token address are fixed at
/// construction.
pub struct Governor {
    store: ProposalStore,
    ledger: VoteLedger,
    quorum: u8,
    governance_token: AccountId,
}

impl View for Governor {
    type V = GovState;

    closed spec fn view(&self) -> GovState {
        GovState {
            proposals: self.store.proposals_seq(),
            tallies: self.store.tallies_seq(),
            voted: self.ledger.voted_set(),
            quorum: self.quorum,
            governance_token: self.governance_token,
        }
    }
}

impl Governor {
    /// Internal consistency of the engine's state.
    pub open spec fn wf(self) -> bool {
        self@.wf()
    }

    /// A fresh engine for the given governance token, with the given quorum
    /// and no proposals.
    pub fn new(governance_token: AccountId, quorum: u8) -> (g: Governor)
        ensures
            g.wf(),
            g@.proposals == Seq::<Proposal>::empty(),
            g@.tallies == Seq::<ProposalVote>::empty(),
            g@.voted == Set::<(ProposalId, AccountId)>::empty(),
            g@.quorum == quorum,
            g@.governance_token == governance_token,
    {
        Governor { store: ProposalStore::new(), ledger: VoteLedger::new(), quorum, governance_token }
    }

    /// Creates a proposal to transfer `amount` to `to`, with a voting window
    /// of `duration` minutes starting at the context's clock, and returns its
    /// id. A zero amount, a zero duration, or a window end that does not fit
    /// in a timestamp is rejected before any state changes. No funds move at
    /// this stage.
    pub fn propose(
        &mut self,
        to: AccountId,
        amount: Balance,
        duration: u64,
        ctx: &ExecutionContext,
    ) -> (r: Result<ProposalId, GovernorError>)
        requires
            old(self).wf(),
            old(self)@.proposal_count() < u32::MAX as nat,
        ensures
            final(self).wf(),
            (match GovState::propose_check(amount, duration, ctx.block_timestamp) {
                Ok(()) => {
                    &&& r == Ok::<ProposalId, GovernorError>(
                        ((old(self)@.proposal_count() + 1) as ProposalId),
                    )
                    &&& final(self)@ == old(self)@.propose_step(
                        to,
                        amount,
                        duration,
                        ctx.block_timestamp,
                    )
                },
                Err(e) => {
                    &&& r == Err::<ProposalId, GovernorError>(e)
                    &&& final(self)@ == old(self)@
                },
            }),
    {
        if amount == 0 {
            return Err(GovernorError::AmountShouldNotBeZero);
        }
        if duration == 0 {
            return Err(GovernorError::DurationError);
        }
        let now = ctx.block_timestamp;
        let scaled = match duration.checked_mul(ONE_MINUTE) {
            Some(s) => s,
            None => {
                return Err(GovernorError::DurationError);
            },
        };
        let vote_end = match now.checked_add(scaled) {
            Some(e) => e,
            None => {
                return Err(GovernorError::DurationError);
            },
        };
        let proposal = Proposal { to, amount, vote_start: now, vote_end, executed: false };
        let id = self.store.create(proposal).unwrap();
        proof {
            assert(proposal == GovState::proposed(to, amount, duration, now));
            assert(self@ =~= old(self)@.propose_step(to, amount, duration, now));
        }
        Ok(id)
    }

    /// Casts the caller's vote on a proposal. The caller's voting weight is
    /// computed from the supplied token readings as its balance's percentage
    /// of the total supply (a zero total supply is a configuration error and
    /// is ruled out beforehand). Every precondition is answered with its
    /// specific error before any state changes; on success the caller is
    /// recorded as having voted and the chosen side's tally grows by the
    /// weight, atomically.
    pub fn vote(
        &mut self,
        proposal_id: ProposalId,
        choice: VoteType,
        ctx: &ExecutionContext,
        balance: Balance,
        total_supply: Balance,
    ) -> (r: Result<(), GovernorError>)
        requires
            old(self).wf(),
            total_supply > 0,
            balance <= total_supply,
            total_supply * 100 <= u128::MAX,
            old(self)@.tally_at(proposal_id).for_votes + 100 <= u128::MAX,
            old(self)@.tally_at(proposal_id).against_votes + 100 <= u128::MAX,
        ensures
            final(self).wf(),
            (match old(self)@.vote_check(proposal_id, ctx.caller, ctx.block_timestamp) {
                Ok(()) => {
                    &&& r == Ok::<(), GovernorError>(())
                    &&& final(self)@ == old(self)@.vote_step(
                        proposal_id,
                        choice,
                        ctx.caller,
                        (GovState::vote_weight(balance, total_supply) as u128),
                    )
                },
                Err(e) => {
                    &&& r == Err::<(), GovernorError>(e)
                    &&& final(self)@ == old(self)@
                },
            }),
    {
        let caller = ctx.caller;
        let now = ctx.block_timestamp;
        let proposal = match self.store.get(proposal_id) {
            Some(p) => p,
            None => {
                return Err(GovernorError::ProposalNotFound);
            },
        };
        if proposal.executed {
            return Err(GovernorError::ProposalAlreadyExecuted);
        }
        if now >= proposal.vote_end {
            return Err(GovernorError::VotePeriodEnded);
        }
        if self.ledger.has_voted(proposal_id, caller) {
            return Err(GovernorError::AlreadyVoted);
        }
        proof {
            lemma_vote_weight_bounds(balance, total_supply);
        }
        let weight = balance * 100 / total_supply;
        // The caller is recorded as having voted before the tallies grow, so
        // no path can count the same account twice.
        self.ledger.mark_voted(proposal_id, caller);
        self.store.record_vote(proposal_id, choice, weight);
        proof {
            assert(self@ =~= old(self)@.vote_step(proposal_id, choice, caller, weight));
        }
        Ok(())
    }

    /// Decides whether a proposal may be executed now, and if so authorizes
    /// its transfer. The engine's state is not touched: the host performs
    /// the returned transfer and reports its outcome to
    /// [`Governor::confirm_execution`], which alone persists the executed
    /// flag.
    pub fn execute(&self, proposal_id: ProposalId, ctx: &ExecutionContext) -> (r: Result<
        TransferAction,
        GovernorError,
    >)
        requires
            self.wf(),
        ensures
            r == self@.execute_check(proposal_id, ctx.block_timestamp),
    {
        let now = ctx.block_timestamp;
        let proposal = match self.store.get(proposal_id) {
            Some(p) => p,
            None => {
                return Err(GovernorError::ProposalNotFound);
            },
        };
        if proposal.executed {
            return Err(GovernorError::ProposalAlreadyExecuted);
        }
        if now < proposal.vote_end {
            return Err(GovernorError::QuorumNotReached);
        }
        let tally = self.store.get_votes(proposal_id).unwrap();
        // The quorum is a u8 compared against u128 tallies: widen it
        // explicitly, and compare without forming the possibly huge sum.
        let quorum = self.quorum as u128;
        let quorum_reached = tally.for_votes >= quorum || quorum - tally.for_votes
            <= tally.against_votes;
        if !quorum_reached {
            return Err(GovernorError::QuorumNotReached);
        }
        if tally.for_votes <= tally.against_votes {
            return Err(GovernorError::ProposalNotAccepted);
        }
        Ok(TransferAction { to: proposal.to, amount: proposal.amount })
    }

    /// Records the outcome of the transfer that `execute` authorized. The
    /// acceptance checks are re-verified, so the executed flag can only ever
    /// transition once, and only for an accepted proposal; a failed transfer
    /// is answered with `TransactionFailed` and leaves no state change, so
    /// the whole execution can be retried.
    pub fn confirm_execution(
        &mut self,
        proposal_id: ProposalId,
        ctx: &ExecutionContext,
        transfer_ok: bool,
    ) -> (r: Result<(), GovernorError>)
        requires
            old(self).wf(),
        ensures
            final(self).wf(),
            (match old(self)@.execute_check(proposal_id, ctx.block_timestamp) {
                Ok(_) => {
                    if transfer_ok {
                        &&& r == Ok::<(), GovernorError>(())
                        &&& final(self)@ == old(self)@.mark_executed(proposal_id)
                    } else {
                        &&& r == Err::<(), GovernorError>(GovernorError::TransactionFailed)
                        &&& final(self)@ == old(self)@
                    }
                },
                Err(e) => {
                    &&& r == Err::<(), GovernorError>(e)
                    &&& final(self)@ == old(self)@
                },
            }),
    {
        match self.execute(proposal_id, ctx) {
            Err(e) => Err(e),
            Ok(_) => {
                if !transfer_ok {
                    return Err(GovernorError::TransactionFailed);
                }
                self.store.set_executed(proposal_id);
                proof {
                    assert(self@ =~= old(self)@.mark_executed(proposal_id));
                }
                Ok(())
            },
        }
    }

    /// The context's clock; a read-only inspection aid.
    pub fn now(&self, ctx: &ExecutionContext) -> (t: Timestamp)
        ensures
            t == ctx.block_timestamp,
    {
        ctx.block_timestamp
    }

    /// Keyed lookup of a proposal.
    pub fn get_proposal(&self, proposal_id: ProposalId) -> (r: Option<Proposal>)
        ensures
            r == if self@.has_proposal(proposal_id) {
                Some(self@.proposal_at(proposal_id))
            } else {
                None::<Proposal>
            },
    {
        self.store.get(proposal_id)
    }

    /// Keyed lookup of a proposal's tallies.
    pub fn get_proposal_votes(&self, proposal_id: ProposalId) -> (r: Option<ProposalVote>)
        requires
            self.wf(),
        ensures
            r == if self@.has_proposal(proposal_id) {
                Some(self@.tally_at(proposal_id))
            } else {
                None::<ProposalVote>
            },
    {
        self.store.get_votes(proposal_id)
    }

    /// The last allocated proposal id; 0 while no proposal exists.
    pub fn next_proposal_id(&self) -> (r: ProposalId)
        requires
            self.wf(),
        ensures
            r as nat == self@.proposal_count(),
    {
        self.store.len()
    }
}

} // verus!

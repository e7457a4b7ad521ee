//! The data model shared by the proposal store, the vote ledger and the
//! governance engine.

use vstd::prelude::*;

verus! {

/// Identifier of a proposal. Ids are allocated by a monotonic counter
/// starting at 1; they are never reused.
pub type ProposalId = u32;

/// An account address, reduced to a plain integer key.
pub type AccountId = u128;

/// A token quantity.
pub type Balance = u128;

/// A block timestamp, in the host's elapsed-time units.
pub type Timestamp = u64;

/// Scale factor that converts a caller-supplied duration into elapsed-time
/// units: a duration of `d` opens a voting window of `d` minutes.
pub const ONE_MINUTE: u64 = 60;

/// The two ways an account can vote on a proposal.
#[derive(Clone, Copy, Debug, PartialEq, Eq, Structural)]
pub enum VoteType {
    For,
    Against,
}

/// Every expected, recoverable-by-caller outcome of a governance operation.
#[derive(Clone, Copy, Debug, PartialEq, Eq, Structural)]
pub enum GovernorError {
    /// `propose` was given a zero amount.
    AmountShouldNotBeZero,
    /// `propose` was given a zero duration, or one whose window end does not
    /// fit in a timestamp.
    DurationError,
    /// `execute` came before the voting window closed, or total participation
    /// is below the quorum.
    QuorumNotReached,
    /// No proposal carries the given id.
    ProposalNotFound,
    /// The proposal was already executed.
    ProposalAlreadyExecuted,
    /// `vote` came at or after the end of the voting window.
    VotePeriodEnded,
    /// The caller already voted on this proposal.
    AlreadyVoted,
    /// The tallies met the quorum but `for` votes do not strictly exceed
    /// `against` votes.
    ProposalNotAccepted,
    /// The downstream transfer failed; the proposal is left unexecuted.
    TransactionFailed,
}

/// A pending request to transfer `amount` to `to`, gated by a vote inside
/// the half-open window `[vote_start, vote_end)`.
#[derive(Clone, Copy, Debug, PartialEq, Eq, Structural)]
pub struct Proposal {
    pub to: AccountId,
    pub amount: Balance,
    pub vote_start: Timestamp,
    pub vote_end: Timestamp,
    pub executed: bool,
}

impl Proposal {
    /// What `propose` establishes for every stored record: a positive amount
    /// and a non-empty voting window.
    pub open spec fn valid(self) -> bool {
        self.amount > 0 && self.vote_start < self.vote_end
    }
}

/// The running tallies of one proposal: accumulated voting weight for and
/// against.
#[derive(Clone, Copy, Debug, PartialEq, Eq, Structural)]
pub struct ProposalVote {
    pub for_votes: u128,
    pub against_votes: u128,
}

impl Default for ProposalVote {
    /// Fresh tallies: no weight accumulated on either side.
    fn default() -> (r: Self)
        ensures
            r.for_votes == 0,
            r.against_votes == 0,
    {
        ProposalVote { for_votes: 0, against_votes: 0 }
    }
}

impl ProposalVote {
    /// Total participation: the sum of both sides' weight.
    pub open spec fn total(self) -> int {
        self.for_votes + self.against_votes
    }

    /// The tallies after one vote of the given weight is added to the side
    /// named by `choice`.
    pub open spec fn cast(self, choice: VoteType, weight: u128) -> ProposalVote {
        match choice {
            VoteType::For => ProposalVote {
                for_votes: (self.for_votes + weight) as u128,
                against_votes: self.against_votes,
            },
            VoteType::Against => ProposalVote {
                for_votes: self.for_votes,
                against_votes: (self.against_votes + weight) as u128,
            },
        }
    }
}

} // verus!

//! The proposal store: durable keyed storage of proposals and their vote
//! tallies, with a monotonic id allocator.

use vstd::prelude::*;

use crate::types::Proposal;
use crate::types::ProposalId;
use crate::types::ProposalVote;
use crate::types::VoteType;

verus! {

/// Proposals and their tallies, keyed by id. The proposal with id `i`
/// (ids start at 1) sits at index `i - 1`; its tallies sit at the same
/// index of the parallel column. Records are never deleted, so the id
/// allocator is simply the number of records plus one.
pub struct ProposalStore {
    proposals: Vec<Proposal>,
    tallies: Vec<ProposalVote>,
}

impl ProposalStore {
    /// The stored proposals, in id order: the record with id `i` is element
    /// `i - 1`.
    pub closed spec fn proposals_seq(self) -> Seq<Proposal> {
        self.proposals@
    }

    /// The stored tallies, in the same order as `proposals_seq`.
    pub closed spec fn tallies_seq(self) -> Seq<ProposalVote> {
        self.tallies@
    }

    /// How many proposals have been created; also the last allocated id.
    pub open spec fn count(self) -> nat {
        self.proposals_seq().len()
    }

    /// Whether a proposal with this id exists.
    pub open spec fn has(self, proposal_id: ProposalId) -> bool {
        1 <= proposal_id && proposal_id as nat <= self.count()
    }

    /// The proposal stored under an existing id.
    pub open spec fn proposal_at(self, proposal_id: ProposalId) -> Proposal {
        self.proposals_seq()[proposal_id as int - 1]
    }

    /// The tallies stored under an id; zero on both sides where no proposal
    /// exists.
    pub open spec fn tally_at(self, proposal_id: ProposalId) -> ProposalVote {
        if self.has(proposal_id) {
            self.tallies_seq()[proposal_id as int - 1]
        } else {
            ProposalVote { for_votes: 0, against_votes: 0 }
        }
    }

    /// Internal consistency: one tally record per proposal, every id fits the
    /// id type, and every stored record satisfies the creation-time checks.
    pub open spec fn wf(self) -> bool {
        &&& self.tallies_seq().len() == self.count()
        &&& self.count() <= u32::MAX as nat
        &&& forall|i: int| 0 <= i < self.count() ==> (#[trigger] self.proposals_seq()[i]).valid()
    }

    /// An empty store.
    pub fn new() -> (s: ProposalStore)
        ensures
            s.wf(),
            s.proposals_seq() == Seq::<Proposal>::empty(),
            s.tallies_seq() == Seq::<ProposalVote>::empty(),
    {
        ProposalStore { proposals: Vec::new(), tallies: Vec::new() }
    }

    /// Stores a new proposal under the next id and gives it zero tallies.
    /// Allocation is guarded against overflow of the id counter: when the id
    /// space is exhausted the store is left unchanged and no id is returned.
    pub fn create(&mut self, proposal: Proposal) -> (r: Option<ProposalId>)
        requires
            old(self).wf(),
            proposal.valid(),
        ensures
            final(self).wf(),
            old(self).count() == u32::MAX as nat ==> {
                &&& r is None
                &&& final(self).proposals_seq() == old(self).proposals_seq()
                &&& final(self).tallies_seq() == old(self).tallies_seq()
            },
            old(self).count() < u32::MAX as nat ==> {
                &&& r == Some(((old(self).count() + 1) as ProposalId))
                &&& final(self).proposals_seq() == old(self).proposals_seq().push(proposal)
                &&& final(self).tallies_seq() == old(self).tallies_seq().push(
                    ProposalVote { for_votes: 0, against_votes: 0 },
                )
            },
    {
        if self.proposals.len() >= u32::MAX as usize {
            return None;
        }
        self.proposals.push(proposal);
        self.tallies.push(ProposalVote { for_votes: 0, against_votes: 0 });
        Some(self.proposals.len() as u32)
    }

    /// The number of stored proposals; also the last allocated id.
    pub fn len(&self) -> (n: u32)
        requires
            self.wf(),
        ensures
            n as nat == self.count(),
    {
        self.proposals.len() as u32
    }

    /// Keyed lookup of a proposal.
    pub fn get(&self, proposal_id: ProposalId) -> (r: Option<Proposal>)
        ensures
            r == if self.has(proposal_id) {
                Some(self.proposal_at(proposal_id))
            } else {
                None::<Proposal>
            },
    {
        if proposal_id >= 1 && proposal_id as usize <= self.proposals.len() {
            Some(self.proposals[proposal_id as usize - 1])
        } else {
            None
        }
    }

    /// Keyed lookup of a proposal's tallies.
    pub fn get_votes(&self, proposal_id: ProposalId) -> (r: Option<ProposalVote>)
        requires
            self.wf(),
        ensures
            r == if self.has(proposal_id) {
                Some(self.tally_at(proposal_id))
            } else {
                None::<ProposalVote>
            },
    {
        if proposal_id >= 1 && proposal_id as usize <= self.tallies.len() {
            Some(self.tallies[proposal_id as usize - 1])
        } else {
            None
        }
    }

    /// Marks an existing proposal as executed; everything else is unchanged.
    pub fn set_executed(&mut self, proposal_id: ProposalId)
        requires
            old(self).wf(),
            old(self).has(proposal_id),
        ensures
            final(self).wf(),
            final(self).proposals_seq() == old(self).proposals_seq().update(
                proposal_id as int - 1,
                (Proposal { executed: true, ..old(self).proposal_at(proposal_id) }),
            ),
            final(self).tallies_seq() == old(self).tallies_seq(),
    {
        let i = proposal_id as usize - 1;
        let mut p = self.proposals[i];
        p.executed = true;
        self.proposals.set(i, p);
    }

    /// Adds `weight` to the side of an existing proposal's tallies named by
    /// `choice`; everything else is unchanged.
    pub fn record_vote(&mut self, proposal_id: ProposalId, choice: VoteType, weight: u128)
        requires
            old(self).wf(),
            old(self).has(proposal_id),
            old(self).tally_at(proposal_id).for_votes + weight <= u128::MAX,
            old(self).tally_at(proposal_id).against_votes + weight <= u128::MAX,
        ensures
            final(self).wf(),
            final(self).proposals_seq() == old(self).proposals_seq(),
            final(self).tallies_seq() == old(self).tallies_seq().update(
                proposal_id as int - 1,
                old(self).tally_at(proposal_id).cast(choice, weight),
            ),
    {
        let i = proposal_id as usize - 1;
        let mut tally = self.tallies[i];
        match choice {
            VoteType::For => {
                tally.for_votes = tally.for_votes + weight;
            },
            VoteType::Against => {
                tally.against_votes = tally.against_votes + weight;
            },
        }
        self.tallies.set(i, tally);
    }
}

} // verus!

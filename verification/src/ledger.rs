//! The vote ledger: a durable record of which accounts have already voted on
//! which proposals, used by the engine to block re-voting.

use vstd::prelude::*;

use crate::types::AccountId;
use crate::types::ProposalId;

verus! {

/// A presence-only record of `(proposal, account)` pairs. Idempotency is the
/// caller's responsibility: the ledger itself does not reject duplicate
/// marks, it only answers whether a pair is present.
pub struct VoteLedger {
    entries: Vec<(ProposalId, AccountId)>,
}

impl VoteLedger {
    /// The set of `(proposal, account)` pairs that have been marked.
    pub closed spec fn voted_set(self) -> Set<(ProposalId, AccountId)> {
        Set::new(
            |pair: (ProposalId, AccountId)|
                exists|i: int| 0 <= i < self.entries@.len() && self.entries@[i] == pair,
        )
    }

    /// An empty ledger: nobody has voted on anything.
    pub fn new() -> (l: VoteLedger)
        ensures
            l.voted_set() == Set::<(ProposalId, AccountId)>::empty(),
    {
        let l = VoteLedger { entries: Vec::new() };
        proof {
            assert(l.voted_set() =~= Set::<(ProposalId, AccountId)>::empty());
        }
        l
    }

    /// Whether `account` has already voted on the proposal with id
    /// `proposal_id`.
    pub fn has_voted(&self, proposal_id: ProposalId, account: AccountId) -> (r: bool)
        ensures
            r == self.voted_set().contains((proposal_id, account)),
    {
        let n = self.entries.len();
        let mut i: usize = 0;
        while i < n
            invariant
                n == self.entries@.len(),
                i <= n,
                forall|j: int| 0 <= j < i ==> self.entries@[j] != (proposal_id, account),
            decreases n - i,
        {
            let entry = self.entries[i];
            if entry.0 == proposal_id && entry.1 == account {
                return true;
            }
            i = i + 1;
        }
        false
    }

    /// Marks `account` as having voted on the proposal with id `proposal_id`.
    /// A duplicate mark leaves the recorded set unchanged.
    pub fn mark_voted(&mut self, proposal_id: ProposalId, account: AccountId)
        ensures
            final(self).voted_set() == old(self).voted_set().insert((proposal_id, account)),
    {
        self.entries.push((proposal_id, account));
        proof {
            let old_entries = old(self).entries@;
            let new_entries = self.entries@;
            let marked = old(self).voted_set().insert((proposal_id, account));
            assert forall|pair: (ProposalId, AccountId)|
                self.voted_set().contains(pair) implies marked.contains(pair) by {
                let i = choose|i: int| 0 <= i < new_entries.len() && new_entries[i] == pair;
                if i < old_entries.len() {
                    assert(old_entries[i] == pair);
                } else {
                    assert(pair == (proposal_id, account));
                }
            }
            assert forall|pair: (ProposalId, AccountId)|
                marked.contains(pair) implies self.voted_set().contains(pair) by {
                if pair == (proposal_id, account) {
                    assert(new_entries[old_entries.len() as int] == pair);
                } else {
                    let i = choose|i: int| 0 <= i < old_entries.len() && old_entries[i] == pair;
                    assert(new_entries[i] == pair);
                }
            }
            assert(self.voted_set() =~= marked);
        }
    }
}

} // verus!

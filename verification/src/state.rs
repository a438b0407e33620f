//! The persisted protocol state as one keyed store.
//!
//! Singleton records live in `Option` slots at their derived addresses;
//! proposals and voters are keyed by id and identity.  The well-formedness
//! predicate `gov_wf` collects the structural invariants that every handler
//! preserves: keys are unique, proposal ids are nonzero and below the
//! counter, and a declared winner carries at least one vote.

use vstd::prelude::*;
use crate::ledger::{Ledger, LedgerView, distinct_token_addrs, distinct_base_addrs};
use crate::records::{TreasuryConfig, ProposalCounter, Proposal, ProposalView, Voter, Winner, WinnerView};

verus! {

/// All records the protocol persists, plus the ledger it moves value on.
pub struct GovState {
    pub treasury: Option<TreasuryConfig>,
    pub counter: Option<ProposalCounter>,
    pub proposals: Vec<Proposal>,
    pub voters: Vec<Voter>,
    pub winner: Option<Winner>,
    pub ledger: Ledger,
}

/// The mathematical view of the protocol state.
#[verifier::ext_equal]
pub struct GovView {
    pub treasury: Option<TreasuryConfig>,
    pub counter: Option<ProposalCounter>,
    pub proposals: Seq<ProposalView>,
    pub voters: Seq<Voter>,
    pub winner: Option<WinnerView>,
    pub ledger: LedgerView,
}

impl View for GovState {
    type V = GovView;

    open spec fn view(&self) -> GovView {
        GovView {
            treasury: self.treasury,
            counter: self.counter,
            proposals: self.proposals@.map_values(|p: Proposal| p@),
            voters: self.voters@,
            winner: match self.winner {
                Some(w) => Some(w@),
                None => None,
            },
            ledger: self.ledger@,
        }
    }
}

/// Whether a proposal with this id is registered.
pub open spec fn has_proposal(s: Seq<ProposalView>, id: u8) -> bool {
    exists|i: int| 0 <= i < s.len() && (#[trigger] s[i]).proposal_id == id
}

/// The index of the proposal with this id (meaningful when one exists).
pub open spec fn proposal_at(s: Seq<ProposalView>, id: u8) -> int {
    choose|i: int| 0 <= i < s.len() && (#[trigger] s[i]).proposal_id == id
}

/// The proposal registered under this id (meaningful when one exists).
pub open spec fn proposal_of(s: Seq<ProposalView>, id: u8) -> ProposalView {
    s[proposal_at(s, id)]
}

/// Each proposal id occurs at most once.
pub open spec fn distinct_proposal_ids(s: Seq<ProposalView>) -> bool {
    forall|i: int, j: int|
        0 <= i < j < s.len() ==> (#[trigger] s[i]).proposal_id != (#[trigger] s[j]).proposal_id
}

/// Whether this identity holds a voter record.
pub open spec fn has_voter(s: Seq<Voter>, id: u64) -> bool {
    exists|i: int| 0 <= i < s.len() && (#[trigger] s[i]).voter_id == id
}

/// The index of this identity's voter record (meaningful when one exists).
pub open spec fn voter_at(s: Seq<Voter>, id: u64) -> int {
    choose|i: int| 0 <= i < s.len() && (#[trigger] s[i]).voter_id == id
}

/// This identity's voter record (meaningful when one exists).
pub open spec fn voter_of(s: Seq<Voter>, id: u64) -> Voter {
    s[voter_at(s, id)]
}

/// Each identity holds at most one voter record.
pub open spec fn distinct_voter_ids(s: Seq<Voter>) -> bool {
    forall|i: int, j: int|
        0 <= i < j < s.len() ==> (#[trigger] s[i]).voter_id != (#[trigger] s[j]).voter_id
}

/// The structural invariants of a protocol state.
pub open spec fn gov_wf(s: GovView) -> bool {
    &&& distinct_token_addrs(s.ledger.tokens)
    &&& distinct_base_addrs(s.ledger.base)
    &&& distinct_proposal_ids(s.proposals)
    &&& forall|i: int| 0 <= i < s.proposals.len() ==> 1 <= (#[trigger] s.proposals[i]).proposal_id
    &&& s.counter is None ==> s.proposals.len() == 0
    &&& (s.counter matches Some(c) ==> 1 <= c.proposal_count && forall|i: int|
        0 <= i < s.proposals.len() ==> (#[trigger] s.proposals[i]).proposal_id < c.proposal_count)
    &&& distinct_voter_ids(s.voters)
    &&& (s.winner matches Some(w) ==> 1 <= w.winning_votes)
}

/// With distinct ids, a proposal's index is the looked-up index.
pub proof fn lemma_proposal_at_unique(s: Seq<ProposalView>, id: u8, i: int)
    requires
        distinct_proposal_ids(s),
        0 <= i < s.len(),
        s[i].proposal_id == id,
    ensures
        has_proposal(s, id),
        proposal_at(s, id) == i,
{
    assert(has_proposal(s, id));
    let j = proposal_at(s, id);
    if i < j {
        assert(s[i].proposal_id != s[j].proposal_id);
    } else if j < i {
        assert(s[j].proposal_id != s[i].proposal_id);
    }
}

/// With distinct identities, a voter record's index is the looked-up index.
pub proof fn lemma_voter_at_unique(s: Seq<Voter>, id: u64, i: int)
    requires
        distinct_voter_ids(s),
        0 <= i < s.len(),
        s[i].voter_id == id,
    ensures
        has_voter(s, id),
        voter_at(s, id) == i,
{
    assert(has_voter(s, id));
    let j = voter_at(s, id);
    if i < j {
        assert(s[i].voter_id != s[j].voter_id);
    } else if j < i {
        assert(s[j].voter_id != s[i].voter_id);
    }
}

/// Replacing a proposal without changing its id leaves every lookup where it
/// was.
pub proof fn lemma_proposal_update(s: Seq<ProposalView>, k: int, p: ProposalView)
    requires
        distinct_proposal_ids(s),
        0 <= k < s.len(),
        p.proposal_id == s[k].proposal_id,
    ensures
        distinct_proposal_ids(s.update(k, p)),
        forall|id: u8| #[trigger] has_proposal(s.update(k, p), id) == has_proposal(s, id),
        has_proposal(s, p.proposal_id) && proposal_at(s.update(k, p), p.proposal_id) == k
            && proposal_at(s, p.proposal_id) == k,
        forall|id: u8| id != p.proposal_id && has_proposal(s, id) ==> #[trigger] proposal_of(
            s.update(k, p),
            id,
        ) == proposal_of(s, id),
{
    let s2 = s.update(k, p);
    assert(forall|i: int|
        0 <= i < s.len() ==> (#[trigger] s2[i]).proposal_id == s[i].proposal_id);
    lemma_proposal_at_unique(s, p.proposal_id, k);
    lemma_proposal_at_unique(s2, p.proposal_id, k);
    assert forall|id: u8| #[trigger] has_proposal(s2, id) == has_proposal(s, id) by {
        if has_proposal(s, id) {
            let i = proposal_at(s, id);
            assert(0 <= i < s.len() && s[i].proposal_id == id);
            lemma_proposal_at_unique(s2, id, i);
        }
        if has_proposal(s2, id) {
            let i = proposal_at(s2, id);
            assert(s[i].proposal_id == id);
            lemma_proposal_at_unique(s, id, i);
        }
    }
    assert forall|id: u8| id != p.proposal_id && has_proposal(s, id) implies #[trigger] proposal_of(
        s2,
        id,
    ) == proposal_of(s, id) by {
        let i = proposal_at(s, id);
        assert(0 <= i < s.len() && s[i].proposal_id == id);
        lemma_proposal_at_unique(s2, id, i);
        assert(i != k);
    }
}

/// Appending a proposal with a fresh id leaves every other lookup where it
/// was.
pub proof fn lemma_proposal_push(s: Seq<ProposalView>, p: ProposalView)
    requires
        distinct_proposal_ids(s),
        !has_proposal(s, p.proposal_id),
    ensures
        distinct_proposal_ids(s.push(p)),
        has_proposal(s.push(p), p.proposal_id),
        proposal_of(s.push(p), p.proposal_id) == p,
        forall|id: u8| id != p.proposal_id ==> #[trigger] has_proposal(s.push(p), id)
            == has_proposal(s, id),
        forall|id: u8| id != p.proposal_id && has_proposal(s, id) ==> #[trigger] proposal_of(
            s.push(p),
            id,
        ) == proposal_of(s, id),
{
    let s2 = s.push(p);
    assert(forall|i: int| 0 <= i < s.len() ==> s2[i] == #[trigger] s[i]);
    assert(s2[s.len() as int] == p);
    assert(distinct_proposal_ids(s2)) by {
        assert forall|i: int, j: int| 0 <= i < j < s2.len() implies (#[trigger] s2[i]).proposal_id
            != (#[trigger] s2[j]).proposal_id by {
            if j < s.len() {
            } else {
                assert(s2[j] == p);
            }
        }
    }
    lemma_proposal_at_unique(s2, p.proposal_id, s.len() as int);
    assert forall|id: u8| id != p.proposal_id implies #[trigger] has_proposal(s2, id)
        == has_proposal(s, id) by {
        if has_proposal(s, id) {
            let i = proposal_at(s, id);
            assert(0 <= i < s.len() && s[i].proposal_id == id);
            lemma_proposal_at_unique(s2, id, i);
        }
        if has_proposal(s2, id) {
            let i = proposal_at(s2, id);
            assert(i < s.len());
            assert(s[i].proposal_id == id);
            lemma_proposal_at_unique(s, id, i);
        }
    }
    assert forall|id: u8| id != p.proposal_id && has_proposal(s, id) implies #[trigger] proposal_of(
        s2,
        id,
    ) == proposal_of(s, id) by {
        let i = proposal_at(s, id);
        assert(0 <= i < s.len() && s[i].proposal_id == id);
        lemma_proposal_at_unique(s2, id, i);
    }
}

/// Removing a proposal leaves every other lookup's record unchanged.
pub proof fn lemma_proposal_remove(s: Seq<ProposalView>, k: int)
    requires
        distinct_proposal_ids(s),
        0 <= k < s.len(),
    ensures
        distinct_proposal_ids(s.remove(k)),
        !has_proposal(s.remove(k), s[k].proposal_id),
        forall|id: u8| id != s[k].proposal_id ==> #[trigger] has_proposal(s.remove(k), id)
            == has_proposal(s, id),
        forall|id: u8| id != s[k].proposal_id && has_proposal(s, id) ==> #[trigger] proposal_of(
            s.remove(k),
            id,
        ) == proposal_of(s, id),
{
    let s2 = s.remove(k);
    assert(forall|i: int| 0 <= i < k ==> #[trigger] s2[i] == s[i]);
    assert(forall|i: int| k <= i < s2.len() ==> #[trigger] s2[i] == s[i + 1]);
    assert(distinct_proposal_ids(s2)) by {
        assert forall|i: int, j: int| 0 <= i < j < s2.len() implies (#[trigger] s2[i]).proposal_id
            != (#[trigger] s2[j]).proposal_id by {
            let i0 = if i < k { i } else { i + 1 };
            let j0 = if j < k { j } else { j + 1 };
            assert(s2[i] == s[i0] && s2[j] == s[j0]);
        }
    }
    assert(!has_proposal(s2, s[k].proposal_id)) by {
        if has_proposal(s2, s[k].proposal_id) {
            let i = proposal_at(s2, s[k].proposal_id);
            let i0 = if i < k { i } else { i + 1 };
            assert(s2[i] == s[i0]);
            assert(i0 != k);
            assert(s[i0].proposal_id != s[k].proposal_id);
        }
    }
    assert forall|id: u8| id != s[k].proposal_id implies #[trigger] has_proposal(s2, id)
        == has_proposal(s, id) by {
        if has_proposal(s, id) {
            let i = proposal_at(s, id);
            assert(0 <= i < s.len() && s[i].proposal_id == id);
            assert(i != k);
            if i < k {
                assert(s2[i] == s[i]);
            } else {
                assert(s2[i - 1] == s[i]);
            }
        }
        if has_proposal(s2, id) {
            let i = proposal_at(s2, id);
            let i0 = if i < k { i } else { i + 1 };
            assert(s2[i] == s[i0]);
        }
    }
    assert forall|id: u8| id != s[k].proposal_id && has_proposal(s, id) implies #[trigger] proposal_of(
        s2,
        id,
    ) == proposal_of(s, id) by {
        let i = proposal_at(s, id);
        assert(0 <= i < s.len() && s[i].proposal_id == id);
        assert(i != k);
        lemma_proposal_at_unique(s, id, i);
        if i < k {
            assert(s2[i] == s[i]);
            lemma_proposal_at_unique(s2, id, i);
        } else {
            assert(s2[i - 1] == s[i]);
            lemma_proposal_at_unique(s2, id, i - 1);
        }
    }
}

/// Replacing a voter record without changing its identity leaves every
/// lookup where it was.
pub proof fn lemma_voter_update(s: Seq<Voter>, k: int, v: Voter)
    requires
        distinct_voter_ids(s),
        0 <= k < s.len(),
        v.voter_id == s[k].voter_id,
    ensures
        distinct_voter_ids(s.update(k, v)),
        forall|id: u64| #[trigger] has_voter(s.update(k, v), id) == has_voter(s, id),
        has_voter(s, v.voter_id) && voter_at(s.update(k, v), v.voter_id) == k && voter_at(
            s,
            v.voter_id,
        ) == k,
        forall|id: u64| id != v.voter_id && has_voter(s, id) ==> #[trigger] voter_of(
            s.update(k, v),
            id,
        ) == voter_of(s, id),
{
    let s2 = s.update(k, v);
    assert(forall|i: int| 0 <= i < s.len() ==> (#[trigger] s2[i]).voter_id == s[i].voter_id);
    lemma_voter_at_unique(s, v.voter_id, k);
    lemma_voter_at_unique(s2, v.voter_id, k);
    assert forall|id: u64| #[trigger] has_voter(s2, id) == has_voter(s, id) by {
        if has_voter(s, id) {
            let i = voter_at(s, id);
            assert(0 <= i < s.len() && s[i].voter_id == id);
            lemma_voter_at_unique(s2, id, i);
        }
        if has_voter(s2, id) {
            let i = voter_at(s2, id);
            assert(s[i].voter_id == id);
            lemma_voter_at_unique(s, id, i);
        }
    }
    assert forall|id: u64| id != v.voter_id && has_voter(s, id) implies #[trigger] voter_of(
        s2,
        id,
    ) == voter_of(s, id) by {
        let i = voter_at(s, id);
        assert(0 <= i < s.len() && s[i].voter_id == id);
        lemma_voter_at_unique(s2, id, i);
        assert(i != k);
    }
}

/// Appending a voter record for a fresh identity leaves every other lookup
/// where it was.
pub proof fn lemma_voter_push(s: Seq<Voter>, v: Voter)
    requires
        distinct_voter_ids(s),
        !has_voter(s, v.voter_id),
    ensures
        distinct_voter_ids(s.push(v)),
        has_voter(s.push(v), v.voter_id),
        voter_of(s.push(v), v.voter_id) == v,
        forall|id: u64| id != v.voter_id ==> #[trigger] has_voter(s.push(v), id) == has_voter(
            s,
            id,
        ),
        forall|id: u64| id != v.voter_id && has_voter(s, id) ==> #[trigger] voter_of(
            s.push(v),
            id,
        ) == voter_of(s, id),
{
    let s2 = s.push(v);
    assert(forall|i: int| 0 <= i < s.len() ==> s2[i] == #[trigger] s[i]);
    assert(s2[s.len() as int] == v);
    assert(distinct_voter_ids(s2)) by {
        assert forall|i: int, j: int| 0 <= i < j < s2.len() implies (#[trigger] s2[i]).voter_id
            != (#[trigger] s2[j]).voter_id by {
            if j < s.len() {
            } else {
                assert(s2[j] == v);
            }
        }
    }
    lemma_voter_at_unique(s2, v.voter_id, s.len() as int);
    assert forall|id: u64| id != v.voter_id implies #[trigger] has_voter(s2, id) == has_voter(
        s,
        id,
    ) by {
        if has_voter(s, id) {
            let i = voter_at(s, id);
            assert(0 <= i < s.len() && s[i].voter_id == id);
            lemma_voter_at_unique(s2, id, i);
        }
        if has_voter(s2, id) {
            let i = voter_at(s2, id);
            assert(i < s.len());
            assert(s[i].voter_id == id);
            lemma_voter_at_unique(s, id, i);
        }
    }
    assert forall|id: u64| id != v.voter_id && has_voter(s, id) implies #[trigger] voter_of(
        s2,
        id,
    ) == voter_of(s, id) by {
        let i = voter_at(s, id);
        assert(0 <= i < s.len() && s[i].voter_id == id);
        lemma_voter_at_unique(s2, id, i);
    }
}

/// Removing a voter record leaves every other lookup's record unchanged.
pub proof fn lemma_voter_remove(s: Seq<Voter>, k: int)
    requires
        distinct_voter_ids(s),
        0 <= k < s.len(),
    ensures
        distinct_voter_ids(s.remove(k)),
        !has_voter(s.remove(k), s[k].voter_id),
        forall|id: u64| id != s[k].voter_id ==> #[trigger] has_voter(s.remove(k), id) == has_voter(
            s,
            id,
        ),
        forall|id: u64| id != s[k].voter_id && has_voter(s, id) ==> #[trigger] voter_of(
            s.remove(k),
            id,
        ) == voter_of(s, id),
{
    let s2 = s.remove(k);
    assert(forall|i: int| 0 <= i < k ==> #[trigger] s2[i] == s[i]);
    assert(forall|i: int| k <= i < s2.len() ==> #[trigger] s2[i] == s[i + 1]);
    assert(distinct_voter_ids(s2)) by {
        assert forall|i: int, j: int| 0 <= i < j < s2.len() implies (#[trigger] s2[i]).voter_id
            != (#[trigger] s2[j]).voter_id by {
            let i0 = if i < k { i } else { i + 1 };
            let j0 = if j < k { j } else { j + 1 };
            assert(s2[i] == s[i0] && s2[j] == s[j0]);
        }
    }
    assert(!has_voter(s2, s[k].voter_id)) by {
        if has_voter(s2, s[k].voter_id) {
            let i = voter_at(s2, s[k].voter_id);
            let i0 = if i < k { i } else { i + 1 };
            assert(s2[i] == s[i0]);
            assert(i0 != k);
            assert(s[i0].voter_id != s[k].voter_id);
        }
    }
    assert forall|id: u64| id != s[k].voter_id implies #[trigger] has_voter(s2, id) == has_voter(
        s,
        id,
    ) by {
        if has_voter(s, id) {
            let i = voter_at(s, id);
            assert(0 <= i < s.len() && s[i].voter_id == id);
            assert(i != k);
            if i < k {
                assert(s2[i] == s[i]);
            } else {
                assert(s2[i - 1] == s[i]);
            }
        }
        if has_voter(s2, id) {
            let i = voter_at(s2, id);
            let i0 = if i < k { i } else { i + 1 };
            assert(s2[i] == s[i0]);
        }
    }
    assert forall|id: u64| id != s[k].voter_id && has_voter(s, id) implies #[trigger] voter_of(
        s2,
        id,
    ) == voter_of(s, id) by {
        let i = voter_at(s, id);
        assert(0 <= i < s.len() && s[i].voter_id == id);
        assert(i != k);
        lemma_voter_at_unique(s, id, i);
        if i < k {
            assert(s2[i] == s[i]);
            lemma_voter_at_unique(s2, id, i);
        } else {
            assert(s2[i - 1] == s[i]);
            lemma_voter_at_unique(s2, id, i - 1);
        }
    }
}

impl GovState {
    /// An empty state: no records, an empty ledger.
    pub fn new() -> (s: GovState)
        ensures
            s@.treasury is None,
            s@.counter is None,
            s@.proposals.len() == 0,
            s@.voters.len() == 0,
            s@.winner is None,
            s@.ledger.tokens.len() == 0,
            s@.ledger.base.len() == 0,
            gov_wf(s@),
    {
        GovState {
            treasury: None,
            counter: None,
            proposals: Vec::new(),
            voters: Vec::new(),
            winner: None,
            ledger: Ledger::new(),
        }
    }

    /// Finds the index of the proposal registered under `id`.
    pub fn find_proposal(&self, id: u8) -> (r: Option<usize>)
        ensures
            match r {
                Some(i) => i < self@.proposals.len() && self@.proposals[i as int].proposal_id == id
                    && has_proposal(self@.proposals, id),
                None => !has_proposal(self@.proposals, id),
            },
    {
        let n = self.proposals.len();
        let mut i: usize = 0;
        while i < n
            invariant
                n == self.proposals@.len(),
                self@.proposals.len() == self.proposals@.len(),
                forall|j: int| 0 <= j < self.proposals@.len() ==> (#[trigger] self@.proposals[j])
                    == self.proposals@[j]@,
                i <= n,
                forall|j: int| 0 <= j < i ==> (#[trigger] self@.proposals[j]).proposal_id != id,
            decreases n - i,
        {
            if self.proposals[i].proposal_id == id {
                return Some(i);
            }
            i = i + 1;
        }
        None
    }

    /// Finds the index of the voter record held by `id`.
    pub fn find_voter(&self, id: u64) -> (r: Option<usize>)
        ensures
            match r {
                Some(i) => i < self@.voters.len() && self@.voters[i as int].voter_id == id
                    && has_voter(self@.voters, id),
                None => !has_voter(self@.voters, id),
            },
    {
        let n = self.voters.len();
        let mut i: usize = 0;
        while i < n
            invariant
                n == self@.voters.len(),
                i <= n,
                forall|j: int| 0 <= j < i ==> (#[trigger] self@.voters[j]).voter_id != id,
            decreases n - i,
        {
            if self.voters[i].voter_id == id {
                return Some(i);
            }
            i = i + 1;
        }
        None
    }
}

} // verus!

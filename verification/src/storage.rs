//! The data model of the ledger and its keyed record store.

use vstd::prelude::*;

verus! {

/// A fixed-width account identity: 32 raw bytes, as the host hands them out.
#[derive(Clone, Copy, PartialEq, Eq, Debug)]
pub struct Address {
    pub bytes: [u8; 32],
}

impl View for Address {
    type V = Seq<u8>;

    open spec fn view(&self) -> Seq<u8> {
        self.bytes@
    }
}

impl Address {
    /// Whether this is the all-zero address, which may never receive a payout.
    pub open spec fn is_zero(self) -> bool {
        forall|i: int| 0 <= i < 32 ==> self@[i] == 0u8
    }

    pub fn new(bytes: [u8; 32]) -> (a: Address)
        ensures
            a@ == bytes@,
    {
        Address { bytes }
    }

    /// Byte-for-byte comparison of two addresses.
    pub fn equals(&self, other: &Address) -> (r: bool)
        ensures
            r == (self@ == other@),
    {
        let mut i: usize = 0;
        while i < 32
            invariant
                i <= 32,
                forall|j: int| 0 <= j < i ==> self.bytes@[j] == other.bytes@[j],
            decreases 32 - i,
        {
            if self.bytes[i] != other.bytes[i] {
                assert(self.bytes@[i as int] != other.bytes@[i as int]);
                return false;
            }
            i += 1;
        }
        proof {
            assert(self.bytes@.len() == 32);
            assert(other.bytes@.len() == 32);
            assert(self.bytes@ =~= other.bytes@);
        }
        true
    }

    /// Runtime check for the all-zero address.
    pub fn is_zero_address(&self) -> (r: bool)
        ensures
            r == self.is_zero(),
    {
        let mut i: usize = 0;
        while i < 32
            invariant
                i <= 32,
                forall|j: int| 0 <= j < i ==> self.bytes@[j] == 0u8,
            decreases 32 - i,
        {
            if self.bytes[i] != 0 {
                assert(self@[i as int] == self.bytes@[i as int]);
                assert(self@[i as int] != 0u8);
                return false;
            }
            i += 1;
        }
        proof {
            assert forall|k: int| 0 <= k < 32 implies self@[k] == 0u8 by {
                assert(self.bytes@[k] == 0u8);
            }
        }
        true
    }
}

/// Exact comparison of two byte strings.
pub fn bytes_eq(a: &Vec<u8>, b: &Vec<u8>) -> (r: bool)
    ensures
        r == (a@ == b@),
{
    if a.len() != b.len() {
        assert(a@.len() != b@.len());
        return false;
    }
    let mut i: usize = 0;
    while i < a.len()
        invariant
            i <= a@.len(),
            a@.len() == b@.len(),
            forall|j: int| 0 <= j < i ==> a@[j] == b@[j],
        decreases a@.len() - i,
    {
        if a[i] != b[i] {
            assert(a@[i as int] != b@[i as int]);
            return false;
        }
        i += 1;
    }
    proof {
        assert(a@ =~= b@);
    }
    true
}

/// A verified copy of a byte string.
pub fn clone_bytes(v: &Vec<u8>) -> (r: Vec<u8>)
    ensures
        r@ == v@,
{
    let mut r: Vec<u8> = Vec::new();
    let mut i: usize = 0;
    while i < v.len()
        invariant
            i <= v@.len(),
            r@.len() == i,
            forall|j: int| 0 <= j < i ==> r@[j] == v@[j],
        decreases v@.len() - i,
    {
        r.push(v[i]);
        i += 1;
    }
    proof {
        assert(r@ =~= v@);
    }
    r
}

/// One registered solver: an account address plus an external handle.
#[derive(Debug)]
pub struct Solver {
    pub solver_addr: Address,
    pub solver_github: Vec<u8>,
}

/// Whether `sl` carries exactly the given (address, external id) pair.
pub open spec fn is_solver(sl: Solver, addr: Address, github: Seq<u8>) -> bool {
    sl.solver_addr@ == addr@ && sl.solver_github@ == github
}

/// Whether the pair stands somewhere in the solver list.
pub open spec fn contains_solver(s: Seq<Solver>, addr: Address, github: Seq<u8>) -> bool {
    exists|i: int| 0 <= i < s.len() && is_solver(s[i], addr, github)
}

/// No two entries of the solver list carry the same (address, external id) pair.
pub open spec fn solvers_distinct(s: Seq<Solver>) -> bool {
    forall|i: int, j: int| #![trigger s[i], s[j]]
        0 <= i < j < s.len() ==> !is_solver(s[i], s[j].solver_addr, s[j].solver_github@)
}

/// Appending a pair that is not yet on the list keeps the entries distinct.
pub proof fn lemma_solvers_distinct_push(s: Seq<Solver>, sl: Solver)
    requires
        solvers_distinct(s),
        !contains_solver(s, sl.solver_addr, sl.solver_github@),
    ensures
        solvers_distinct(s.push(sl)),
{
    let t = s.push(sl);
    assert forall|i: int, j: int|
        0 <= i < j < t.len() implies !is_solver(t[i], t[j].solver_addr, t[j].solver_github@) by {
        if j < s.len() {
            assert(t[i] == s[i] && t[j] == s[j]);
        } else {
            assert(t[j] == sl && t[i] == s[i]);
            if is_solver(s[i], sl.solver_addr, sl.solver_github@) {
                assert(contains_solver(s, sl.solver_addr, sl.solver_github@));
            }
        }
    }
}

/// Scan a solver list for an exact (address, external id) pair.
pub fn solver_in(list: &Vec<Solver>, addr: &Address, github: &Vec<u8>) -> (r: bool)
    ensures
        r == contains_solver(list@, *addr, github@),
{
    let mut i: usize = 0;
    while i < list.len()
        invariant
            i <= list@.len(),
            forall|j: int| 0 <= j < i ==> !is_solver(list@[j], *addr, github@),
        decreases list@.len() - i,
    {
        if list[i].solver_addr.equals(addr) && bytes_eq(&list[i].solver_github, github) {
            assert(is_solver(list@[i as int], *addr, github@));
            return true;
        }
        i += 1;
    }
    false
}

/// Lifecycle state of a bounty record.
#[derive(Clone, Copy, PartialEq, Eq, Structural, Debug)]
pub enum BountyStatus {
    Funded,
    Registered,
    Completed,
}

/// One bounty record: the custodied amount and the lifecycle bookkeeping for
/// a single (repository owner, repository URL, issue) identity.
#[derive(Debug)]
pub struct Bounty {
    pub repo_url: Vec<u8>,
    pub issue_id: u64,
    pub repo_owner: Vec<u8>,
    pub amount: u128,
    pub proposer: Address,
    pub solvers: Vec<Solver>,
    pub status: BountyStatus,
    pub created_at: u64,
}

/// Whether record `b` sits at the composite key (owner, url, issue).
pub open spec fn key_matches(b: Bounty, owner: Seq<u8>, url: Seq<u8>, issue_id: u64) -> bool {
    b.repo_owner@ == owner && b.repo_url@ == url && b.issue_id == issue_id
}

/// Whether some record sits at the composite key.
pub open spec fn has_bounty(s: Seq<Bounty>, owner: Seq<u8>, url: Seq<u8>, issue_id: u64) -> bool {
    exists|i: int| 0 <= i < s.len() && key_matches(#[trigger] s[i], owner, url, issue_id)
}

/// The position of the record at the key; meaningful when the key is present
/// and the keys are unique.
pub open spec fn bounty_index(s: Seq<Bounty>, owner: Seq<u8>, url: Seq<u8>, issue_id: u64) -> int {
    choose|i: int| 0 <= i < s.len() && key_matches(#[trigger] s[i], owner, url, issue_id)
}

/// The record at the key; meaningful under the same conditions.
pub open spec fn bounty_at(s: Seq<Bounty>, owner: Seq<u8>, url: Seq<u8>, issue_id: u64) -> Bounty {
    s[bounty_index(s, owner, url, issue_id)]
}

/// Each composite key owns at most one record.
pub open spec fn keys_unique(s: Seq<Bounty>) -> bool {
    forall|i: int, j: int| #![trigger s[i], s[j]]
        0 <= i < j < s.len()
            ==> !key_matches(s[j], s[i].repo_owner@, s[i].repo_url@, s[i].issue_id)
}

/// With unique keys, a matching position is the position `bounty_index` picks.
pub proof fn lemma_index_unique(s: Seq<Bounty>, i: int, owner: Seq<u8>, url: Seq<u8>, issue_id: u64)
    requires
        keys_unique(s),
        0 <= i < s.len(),
        key_matches(s[i], owner, url, issue_id),
    ensures
        has_bounty(s, owner, url, issue_id),
        bounty_index(s, owner, url, issue_id) == i,
{
    assert(has_bounty(s, owner, url, issue_id));
    let j = bounty_index(s, owner, url, issue_id);
    assert(0 <= j < s.len() && key_matches(s[j], owner, url, issue_id));
    if i < j {
        assert(!key_matches(s[j], s[i].repo_owner@, s[i].repo_url@, s[i].issue_id));
        assert(false);
    } else if j < i {
        assert(!key_matches(s[i], s[j].repo_owner@, s[j].repo_url@, s[j].issue_id));
        assert(false);
    }
}

/// Appending a record at a fresh key keeps the keys unique.
pub proof fn lemma_keys_unique_push(s: Seq<Bounty>, b: Bounty)
    requires
        keys_unique(s),
        !has_bounty(s, b.repo_owner@, b.repo_url@, b.issue_id),
    ensures
        keys_unique(s.push(b)),
{
    let t = s.push(b);
    assert forall|i: int, j: int|
        0 <= i < j < t.len() implies !key_matches(
        t[j],
        t[i].repo_owner@,
        t[i].repo_url@,
        t[i].issue_id,
    ) by {
        if j < s.len() {
            assert(t[i] == s[i] && t[j] == s[j]);
        } else {
            assert(t[j] == b && t[i] == s[i]);
            if key_matches(b, s[i].repo_owner@, s[i].repo_url@, s[i].issue_id) {
                assert(key_matches(s[i], b.repo_owner@, b.repo_url@, b.issue_id));
                assert(has_bounty(s, b.repo_owner@, b.repo_url@, b.issue_id));
            }
        }
    }
}

/// Rewriting a record without touching its key fields keeps the keys unique.
pub proof fn lemma_keys_unique_update(s: Seq<Bounty>, i: int, nb: Bounty)
    requires
        keys_unique(s),
        0 <= i < s.len(),
        nb.repo_owner@ == s[i].repo_owner@,
        nb.repo_url@ == s[i].repo_url@,
        nb.issue_id == s[i].issue_id,
    ensures
        keys_unique(s.update(i, nb)),
{
    let t = s.update(i, nb);
    assert forall|p: int, q: int|
        0 <= p < q < t.len() implies !key_matches(
        t[q],
        t[p].repo_owner@,
        t[p].repo_url@,
        t[p].issue_id,
    ) by {
        assert(!key_matches(s[q], s[p].repo_owner@, s[p].repo_url@, s[p].issue_id));
    }
}

/// The share a record contributes to the paid-out total: its amount once
/// Completed, nothing before.
pub open spec fn completed_amount(b: Bounty) -> int {
    match b.status {
        BountyStatus::Completed => b.amount as int,
        _ => 0,
    }
}

/// Total value already paid out: the amounts of all Completed records.
pub open spec fn sum_completed(s: Seq<Bounty>) -> int
    decreases s.len(),
{
    if s.len() == 0 {
        0
    } else {
        sum_completed(s.drop_last()) + completed_amount(s.last())
    }
}

pub proof fn lemma_sum_completed_push(s: Seq<Bounty>, b: Bounty)
    ensures
        sum_completed(s.push(b)) == sum_completed(s) + completed_amount(b),
{
    assert(s.push(b).drop_last() =~= s);
    assert(s.push(b).last() == b);
}

pub proof fn lemma_sum_completed_update(s: Seq<Bounty>, i: int, b: Bounty)
    requires
        0 <= i < s.len(),
    ensures
        sum_completed(s.update(i, b)) == sum_completed(s) - completed_amount(s[i])
            + completed_amount(b),
    decreases s.len(),
{
    let t = s.update(i, b);
    if i == s.len() - 1 {
        assert(t.drop_last() =~= s.drop_last());
        assert(t.last() == b);
    } else {
        lemma_sum_completed_update(s.drop_last(), i, b);
        assert(t.drop_last() =~= s.drop_last().update(i, b));
        assert(t.last() == s.last());
    }
}

/// The ledger store: the keyed map of bounty records, held as a vector of
/// records keyed by the fields each record itself carries.
#[derive(Debug)]
pub struct StorageModule {
    pub bounties: Vec<Bounty>,
}

impl StorageModule {
    /// An empty store.
    pub fn new() -> (s: StorageModule)
        ensures
            s.bounties@.len() == 0,
    {
        StorageModule { bounties: Vec::new() }
    }

    /// Point lookup: the position of the record at the key, if any.
    pub fn find(&self, owner: &Vec<u8>, url: &Vec<u8>, issue_id: u64) -> (r: Option<usize>)
        ensures
            match r {
                Some(i) => i < self.bounties@.len() && key_matches(
                    self.bounties@[i as int],
                    owner@,
                    url@,
                    issue_id,
                ),
                None => !has_bounty(self.bounties@, owner@, url@, issue_id),
            },
    {
        let mut i: usize = 0;
        while i < self.bounties.len()
            invariant
                i <= self.bounties@.len(),
                forall|j: int|
                    0 <= j < i ==> !key_matches(self.bounties@[j], owner@, url@, issue_id),
            decreases self.bounties@.len() - i,
        {
            if self.bounties[i].issue_id == issue_id && bytes_eq(&self.bounties[i].repo_owner, owner)
                && bytes_eq(&self.bounties[i].repo_url, url) {
                return Some(i);
            }
            i += 1;
        }
        None
    }

    /// Existence check for a composite key.
    pub fn has(&self, owner: &Vec<u8>, url: &Vec<u8>, issue_id: u64) -> (r: bool)
        ensures
            r == has_bounty(self.bounties@, owner@, url@, issue_id),
    {
        match self.find(owner, url, issue_id) {
            Some(i) => {
                proof {
                    assert(key_matches(self.bounties@[i as int], owner@, url@, issue_id));
                }
                true
            },
            None => false,
        }
    }

    /// Atomic point read of the record at a key.
    pub fn get(&self, owner: &Vec<u8>, url: &Vec<u8>, issue_id: u64) -> (r: Option<&Bounty>)
        ensures
            match r {
                Some(b) => has_bounty(self.bounties@, owner@, url@, issue_id) && key_matches(
                    *b,
                    owner@,
                    url@,
                    issue_id,
                ) && (keys_unique(self.bounties@) ==> *b == bounty_at(
                    self.bounties@,
                    owner@,
                    url@,
                    issue_id,
                )),
                None => !has_bounty(self.bounties@, owner@, url@, issue_id),
            },
    {
        match self.find(owner, url, issue_id) {
            Some(i) => {
                proof {
                    if keys_unique(self.bounties@) {
                        lemma_index_unique(self.bounties@, i as int, owner@, url@, issue_id);
                    }
                }
                Some(&self.bounties[i])
            },
            None => None,
        }
    }

    /// Append a record; the caller answers for the key being fresh.
    pub fn insert(&mut self, b: Bounty)
        ensures
            final(self).bounties@ == old(self).bounties@.push(b),
    {
        self.bounties.push(b);
    }

    /// Mutable access to the record at position `i`.
    pub fn entry_mut(&mut self, i: usize) -> (b: &mut Bounty)
        requires
            i < old(self).bounties@.len(),
        ensures
            *b == old(self).bounties@[i as int],
            final(self).bounties@ == old(self).bounties@.update(i as int, *final(b)),
    {
        &mut self.bounties[i]
    }
}

} // verus!

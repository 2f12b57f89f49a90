//! The bounty lifecycle state machine.
//!
//! Each public operation is one atomic invocation: it validates every
//! precondition against the current ledger, and only if all of them hold does
//! it commit the new record, append the notification and (for a release)
//! report the value transfer. Any failed check leaves the ledger exactly as
//! it was.
//!
//! The host environment is kept outside: caller identity and block time come
//! in as plain arguments, and the payout goes out as a [`Transfer`]
//! instruction that the host applies together with the commit.

use vstd::prelude::*;
use crate::events::{
    EventLog, EventsModule, is_claim_event, is_complete_event, is_fund_event,
    lemma_sum_released_push, sum_released,
};
use crate::storage::{
    Address, Bounty, BountyStatus, Solver, StorageModule, bounty_at, bounty_index, clone_bytes,
    contains_solver, has_bounty, is_solver, key_matches, keys_unique, lemma_index_unique,
    lemma_keys_unique_push, lemma_keys_unique_update, lemma_solvers_distinct_push,
    lemma_sum_completed_push, lemma_sum_completed_update, solver_in, solvers_distinct,
    sum_completed,
};

verus! {

/// Why an invocation was rejected. Every failure is a validation failure: the
/// whole invocation aborts with no state change and no notification.
#[derive(Clone, Copy, PartialEq, Eq, Structural, Debug)]
pub enum BountyError {
    /// The attached payment was zero.
    ZeroPayment,
    /// A record already sits at the composite key.
    AlreadyExists,
    /// No record sits at the composite key.
    DoesNotExist,
    /// The record is not in the status the operation expects.
    WrongStatus,
    /// The exact (address, external id) pair is already on the solver list.
    SolverAlreadyRegistered,
    /// Only the proposer may release a bounty.
    NotProposer,
    /// The chosen pair was never registered on this bounty.
    SolverNotRegistered,
    /// The chosen solver address is the all-zero address.
    ZeroSolverAddress,
}

impl BountyError {
    /// The failure reason as the caller sees it.
    pub fn message(&self) -> (m: &'static str)
        ensures
            self is ZeroPayment ==> m@ == "Payment amount must be greater than 0"@,
            self is AlreadyExists ==> m@ == "Bounty already exists for this issue"@,
            self is DoesNotExist ==> m@ == "Bounty does not exist"@,
            self is WrongStatus ==> m@ == "Bounty is not in the expected status"@,
            self is SolverAlreadyRegistered ==> m@ == "Solver already registered for this bounty"@,
            self is NotProposer ==> m@ == "Only proposer can release the bounty"@,
            self is SolverNotRegistered ==> m@ == "Solver wasn't previously registered"@,
            self is ZeroSolverAddress ==> m@ == "Solver address must not be zero"@,
    {
        match self {
            BountyError::ZeroPayment => "Payment amount must be greater than 0",
            BountyError::AlreadyExists => "Bounty already exists for this issue",
            BountyError::DoesNotExist => "Bounty does not exist",
            BountyError::WrongStatus => "Bounty is not in the expected status",
            BountyError::SolverAlreadyRegistered => "Solver already registered for this bounty",
            BountyError::NotProposer => "Only proposer can release the bounty",
            BountyError::SolverNotRegistered => "Solver wasn't previously registered",
            BountyError::ZeroSolverAddress => "Solver address must not be zero",
        }
    }
}

/// A value-transfer instruction: move exactly `amount` of custodied native
/// currency to `to`. The host applies it atomically with the commit it was
/// returned with.
#[derive(Clone, Copy, PartialEq, Eq, Debug)]
pub struct Transfer {
    pub to: Address,
    pub amount: u128,
}

/// Every record respects the lifecycle rules: positive custody, no duplicate
/// solver pair, and a solver list exactly as the status allows.
pub open spec fn bounty_wf(b: Bounty) -> bool {
    &&& b.amount > 0
    &&& solvers_distinct(b.solvers@)
    &&& (b.status is Funded ==> b.solvers@.len() == 0)
    &&& (b.status !is Funded ==> b.solvers@.len() > 0)
}

/// The outcome `fund` reports, decided on the pre-state alone.
pub open spec fn fund_result(
    s: Seq<Bounty>,
    owner: Seq<u8>,
    url: Seq<u8>,
    issue_id: u64,
    amount: u128,
) -> Result<(), BountyError> {
    if amount == 0 {
        Err(BountyError::ZeroPayment)
    } else if has_bounty(s, owner, url, issue_id) {
        Err(BountyError::AlreadyExists)
    } else {
        Ok(())
    }
}

/// The outcome `register` reports, decided on the pre-state alone.
pub open spec fn register_result(
    s: Seq<Bounty>,
    owner: Seq<u8>,
    url: Seq<u8>,
    issue_id: u64,
    caller: Address,
    github: Seq<u8>,
) -> Result<(), BountyError> {
    if !has_bounty(s, owner, url, issue_id) {
        Err(BountyError::DoesNotExist)
    } else {
        let b = bounty_at(s, owner, url, issue_id);
        if !(b.status is Funded || b.status is Registered) {
            Err(BountyError::WrongStatus)
        } else if contains_solver(b.solvers@, caller, github) {
            Err(BountyError::SolverAlreadyRegistered)
        } else {
            Ok(())
        }
    }
}

/// The outcome `release_bounty` reports, decided on the pre-state alone:
/// either the exact transfer it commits to, or the validation failure.
pub open spec fn release_result(
    s: Seq<Bounty>,
    owner: Seq<u8>,
    url: Seq<u8>,
    issue_id: u64,
    caller: Address,
    solver_addr: Address,
    github: Seq<u8>,
) -> Result<Transfer, BountyError> {
    if !has_bounty(s, owner, url, issue_id) {
        Err(BountyError::DoesNotExist)
    } else {
        let b = bounty_at(s, owner, url, issue_id);
        if !(b.status is Registered) {
            Err(BountyError::WrongStatus)
        } else if b.proposer@ != caller@ {
            Err(BountyError::NotProposer)
        } else if !contains_solver(b.solvers@, solver_addr, github) {
            Err(BountyError::SolverNotRegistered)
        } else if solver_addr.is_zero() {
            Err(BountyError::ZeroSolverAddress)
        } else {
            Ok(Transfer { to: solver_addr, amount: b.amount })
        }
    }
}

/// The record a successful `fund` creates.
pub open spec fn is_new_bounty(
    b: Bounty,
    owner: Seq<u8>,
    url: Seq<u8>,
    issue_id: u64,
    amount: u128,
    proposer: Address,
    created_at: u64,
) -> bool {
    &&& b.repo_owner@ == owner
    &&& b.repo_url@ == url
    &&& b.issue_id == issue_id
    &&& b.amount == amount
    &&& b.proposer@ == proposer@
    &&& b.solvers@.len() == 0
    &&& b.status is Funded
    &&& b.created_at == created_at
}

/// How a successful `register` rewrites the record: one solver appended,
/// status set to Registered, everything else kept.
pub open spec fn is_registered_update(nb: Bounty, b: Bounty, caller: Address, github: Seq<u8>) -> bool {
    &&& nb.repo_owner@ == b.repo_owner@
    &&& nb.repo_url@ == b.repo_url@
    &&& nb.issue_id == b.issue_id
    &&& nb.amount == b.amount
    &&& nb.proposer@ == b.proposer@
    &&& nb.created_at == b.created_at
    &&& nb.status is Registered
    &&& nb.solvers@.len() == b.solvers@.len() + 1
    &&& nb.solvers@.drop_last() == b.solvers@
    &&& is_solver(nb.solvers@.last(), caller, github)
}

/// How a successful `release_bounty` rewrites the record: status set to
/// Completed, everything else — the custodied amount included — kept.
pub open spec fn is_completed_update(nb: Bounty, b: Bounty) -> bool {
    &&& nb.repo_owner@ == b.repo_owner@
    &&& nb.repo_url@ == b.repo_url@
    &&& nb.issue_id == b.issue_id
    &&& nb.amount == b.amount
    &&& nb.proposer@ == b.proposer@
    &&& nb.created_at == b.created_at
    &&& nb.status is Completed
    &&& nb.solvers@ == b.solvers@
}

/// The bounty ledger: the keyed store of records plus the log of emitted
/// notifications.
#[derive(Debug)]
pub struct XBounty {
    pub storage: StorageModule,
    pub events: EventLog,
}

impl XBounty {
    /// The standing invariant: unique keys, well-formed records, and
    /// conservation — what the log reports as released is exactly what the
    /// completed records custodied.
    pub open spec fn wf(self) -> bool {
        &&& keys_unique(self.storage.bounties@)
        &&& forall|i: int|
            0 <= i < self.storage.bounties@.len() ==> bounty_wf(
                #[trigger] self.storage.bounties@[i],
            )
        &&& sum_released(self.events.log@) == sum_completed(self.storage.bounties@)
    }

    /// A fresh, empty ledger.
    pub fn init() -> (s: XBounty)
        ensures
            s.wf(),
            s.storage.bounties@.len() == 0,
            s.events.log@.len() == 0,
    {
        XBounty { storage: StorageModule::new(), events: EventLog::new() }
    }

    /// The upgrade hook: provisioning is the host's concern, so the ledger
    /// itself is left untouched.
    pub fn upgrade(&mut self)
        ensures
            *final(self) == *old(self),
    {
    }

    /// Lock `payment_amount` against the composite key, creating the record.
    ///
    /// The payment is already in custody when the host accepts the call, so
    /// success commits the record and the fund notification and nothing else.
    pub fn fund(
        &mut self,
        repo_owner: Vec<u8>,
        repo_url: Vec<u8>,
        issue_id: u64,
        payment_amount: u128,
        caller: Address,
        current_timestamp: u64,
    ) -> (r: Result<(), BountyError>)
        requires
            old(self).wf(),
        ensures
            final(self).wf(),
            r == fund_result(
                old(self).storage.bounties@,
                repo_owner@,
                repo_url@,
                issue_id,
                payment_amount,
            ),
            r is Err ==> *final(self) == *old(self),
            r is Ok ==> {
                &&& final(self).storage.bounties@ == old(self).storage.bounties@.push(
                    final(self).storage.bounties@.last(),
                )
                &&& is_new_bounty(
                    final(self).storage.bounties@.last(),
                    repo_owner@,
                    repo_url@,
                    issue_id,
                    payment_amount,
                    caller,
                    current_timestamp,
                )
                &&& final(self).events.log@ == old(self).events.log@.push(
                    final(self).events.log@.last(),
                )
                &&& is_fund_event(
                    final(self).events.log@.last(),
                    repo_owner@,
                    repo_url@,
                    issue_id,
                    payment_amount,
                    caller,
                )
            },
    {
        if payment_amount == 0 {
            return Err(BountyError::ZeroPayment);
        }
        if self.storage.has(&repo_owner, &repo_url, issue_id) {
            return Err(BountyError::AlreadyExists);
        }
        let owner_copy = clone_bytes(&repo_owner);
        let url_copy = clone_bytes(&repo_url);
        let bounty = Bounty {
            repo_url: url_copy,
            issue_id,
            repo_owner: owner_copy,
            amount: payment_amount,
            proposer: caller,
            solvers: Vec::new(),
            status: BountyStatus::Funded,
            created_at: current_timestamp,
        };
        proof {
            lemma_keys_unique_push(self.storage.bounties@, bounty);
            lemma_sum_completed_push(self.storage.bounties@, bounty);
        }
        self.storage.insert(bounty);
        self.events.fund_event(repo_owner, repo_url, issue_id, payment_amount, caller);
        proof {
            lemma_sum_released_push(old(self).events.log@, self.events.log@.last());
        }
        Ok(())
    }

    /// Register `caller` as a solver on the bounty at the composite key,
    /// under the external handle `solver_github`.
    ///
    /// Registration stays open while the bounty is Funded or Registered; the
    /// same exact (address, handle) pair is rejected the second time, so the
    /// solver list never holds duplicates.
    pub fn register(
        &mut self,
        repo_owner: Vec<u8>,
        repo_url: Vec<u8>,
        issue_id: u64,
        caller: Address,
        solver_github: Vec<u8>,
    ) -> (r: Result<(), BountyError>)
        requires
            old(self).wf(),
        ensures
            final(self).wf(),
            r == register_result(
                old(self).storage.bounties@,
                repo_owner@,
                repo_url@,
                issue_id,
                caller,
                solver_github@,
            ),
            r is Err ==> *final(self) == *old(self),
            r is Ok ==> ({
                let idx = bounty_index(old(self).storage.bounties@, repo_owner@, repo_url@, issue_id);
                &&& final(self).storage.bounties@ == old(self).storage.bounties@.update(
                    idx,
                    final(self).storage.bounties@[idx],
                )
                &&& is_registered_update(
                    final(self).storage.bounties@[idx],
                    old(self).storage.bounties@[idx],
                    caller,
                    solver_github@,
                )
                &&& final(self).events.log@ == old(self).events.log@.push(
                    final(self).events.log@.last(),
                )
                &&& is_claim_event(
                    final(self).events.log@.last(),
                    repo_owner@,
                    repo_url@,
                    issue_id,
                    caller,
                    solver_github@,
                )
            }),
    {
        let found = self.storage.find(&repo_owner, &repo_url, issue_id);
        let i = match found {
            None => {
                return Err(BountyError::DoesNotExist);
            },
            Some(k) => k,
        };
        proof {
            lemma_index_unique(self.storage.bounties@, i as int, repo_owner@, repo_url@, issue_id);
        }
        let status_open = self.storage.bounties[i].status == BountyStatus::Funded
            || self.storage.bounties[i].status == BountyStatus::Registered;
        if !status_open {
            return Err(BountyError::WrongStatus);
        }
        if solver_in(&self.storage.bounties[i].solvers, &caller, &solver_github) {
            return Err(BountyError::SolverAlreadyRegistered);
        }
        let github_copy = clone_bytes(&solver_github);
        let ghost pre = self.storage.bounties@;
        let entry = self.storage.entry_mut(i);
        entry.solvers.push(Solver { solver_addr: caller, solver_github: github_copy });
        entry.status = BountyStatus::Registered;
        proof {
            let nb = self.storage.bounties@[i as int];
            let b = pre[i as int];
            assert(nb.solvers@.drop_last() =~= b.solvers@);
            lemma_keys_unique_update(pre, i as int, nb);
            lemma_solvers_distinct_push(b.solvers@, nb.solvers@.last());
            lemma_sum_completed_update(pre, i as int, nb);
        }
        self.events.claim_event(repo_owner, repo_url, issue_id, caller, solver_github);
        proof {
            lemma_sum_released_push(old(self).events.log@, self.events.log@.last());
        }
        Ok(())
    }

    /// Release the bounty at the composite key to the chosen solver.
    ///
    /// Only the proposer's own call passes, only for a pair that registered
    /// earlier, and only once: success flips the record to Completed and
    /// reports the one transfer of the full custodied amount, which the host
    /// applies atomically with the commit.
    pub fn release_bounty(
        &mut self,
        repo_owner: Vec<u8>,
        repo_url: Vec<u8>,
        issue_id: u64,
        caller: Address,
        solver_addr: Address,
        solver_github: Vec<u8>,
    ) -> (r: Result<Transfer, BountyError>)
        requires
            old(self).wf(),
        ensures
            final(self).wf(),
            r == release_result(
                old(self).storage.bounties@,
                repo_owner@,
                repo_url@,
                issue_id,
                caller,
                solver_addr,
                solver_github@,
            ),
            r is Err ==> *final(self) == *old(self),
            r is Ok ==> ({
                let idx = bounty_index(old(self).storage.bounties@, repo_owner@, repo_url@, issue_id);
                &&& final(self).storage.bounties@ == old(self).storage.bounties@.update(
                    idx,
                    final(self).storage.bounties@[idx],
                )
                &&& is_completed_update(
                    final(self).storage.bounties@[idx],
                    old(self).storage.bounties@[idx],
                )
                &&& r == Ok::<Transfer, BountyError>(
                    Transfer { to: solver_addr, amount: old(self).storage.bounties@[idx].amount },
                )
                &&& final(self).events.log@ == old(self).events.log@.push(
                    final(self).events.log@.last(),
                )
                &&& is_complete_event(
                    final(self).events.log@.last(),
                    repo_owner@,
                    repo_url@,
                    issue_id,
                    solver_addr,
                    solver_github@,
                    old(self).storage.bounties@[idx].amount,
                )
            }),
    {
        let found = self.storage.find(&repo_owner, &repo_url, issue_id);
        let i = match found {
            None => {
                return Err(BountyError::DoesNotExist);
            },
            Some(k) => k,
        };
        proof {
            lemma_index_unique(self.storage.bounties@, i as int, repo_owner@, repo_url@, issue_id);
        }
        if !(self.storage.bounties[i].status == BountyStatus::Registered) {
            return Err(BountyError::WrongStatus);
        }
        if !self.storage.bounties[i].proposer.equals(&caller) {
            return Err(BountyError::NotProposer);
        }
        if !solver_in(&self.storage.bounties[i].solvers, &solver_addr, &solver_github) {
            return Err(BountyError::SolverNotRegistered);
        }
        if solver_addr.is_zero_address() {
            return Err(BountyError::ZeroSolverAddress);
        }
        let amount = self.storage.bounties[i].amount;
        let ghost pre = self.storage.bounties@;
        let entry = self.storage.entry_mut(i);
        entry.status = BountyStatus::Completed;
        proof {
            let nb = self.storage.bounties@[i as int];
            lemma_keys_unique_update(pre, i as int, nb);
            lemma_sum_completed_update(pre, i as int, nb);
        }
        self.events.complete_event(repo_owner, repo_url, issue_id, solver_addr, solver_github, amount);
        proof {
            lemma_sum_released_push(old(self).events.log@, self.events.log@.last());
        }
        Ok(Transfer { to: solver_addr, amount })
    }

    /// Pure read of the record at a key; absent means the key was never
    /// successfully funded.
    pub fn get_bounty(&self, repo_owner: &Vec<u8>, repo_url: &Vec<u8>, issue_id: u64) -> (r: Option<
        &Bounty,
    >)
        requires
            self.wf(),
        ensures
            match r {
                Some(b) => has_bounty(self.storage.bounties@, repo_owner@, repo_url@, issue_id)
                    && *b == bounty_at(self.storage.bounties@, repo_owner@, repo_url@, issue_id),
                None => !has_bounty(self.storage.bounties@, repo_owner@, repo_url@, issue_id),
            },
    {
        self.storage.get(repo_owner, repo_url, issue_id)
    }

    /// The raw store, exposed for external enumeration; no validation is
    /// performed on reads.
    pub fn bounties(&self) -> (r: &Vec<Bounty>)
        ensures
            r == &self.storage.bounties,
    {
        &self.storage.bounties
    }
}

/// Uniqueness: once a record stands in the store at its key — as one does
/// after any successful `fund` — every further `fund` on that key fails,
/// whatever the amount offered.
pub proof fn lemma_fund_unique(s: Seq<Bounty>, b: Bounty, amount: u128)
    ensures
        fund_result(s.push(b), b.repo_owner@, b.repo_url@, b.issue_id, amount) is Err,
{
    assert(key_matches(s.push(b)[s.len() as int], b.repo_owner@, b.repo_url@, b.issue_id));
    assert(has_bounty(s.push(b), b.repo_owner@, b.repo_url@, b.issue_id));
}

/// Positivity: funding zero always fails, and funding any positive amount at
/// a key not yet taken succeeds.
pub proof fn lemma_fund_positivity(s: Seq<Bounty>, owner: Seq<u8>, url: Seq<u8>, issue_id: u64, amount: u128)
    ensures
        amount == 0 ==> fund_result(s, owner, url, issue_id, amount) == Err::<(), BountyError>(
            BountyError::ZeroPayment,
        ),
        amount > 0 && !has_bounty(s, owner, url, issue_id) ==> fund_result(
            s,
            owner,
            url,
            issue_id,
            amount,
        ) is Ok,
{
}

/// Ordering: before any `fund` on a key, both `register` and `releaseBounty`
/// on it fail; and while a bounty has seen no `register` — its status is
/// still Funded — `releaseBounty` fails too.
pub proof fn lemma_lifecycle_ordering(
    s: Seq<Bounty>,
    owner: Seq<u8>,
    url: Seq<u8>,
    issue_id: u64,
    caller: Address,
    solver_addr: Address,
    github: Seq<u8>,
)
    ensures
        !has_bounty(s, owner, url, issue_id) ==> register_result(
            s,
            owner,
            url,
            issue_id,
            caller,
            github,
        ) is Err && release_result(s, owner, url, issue_id, caller, solver_addr, github) is Err,
        has_bounty(s, owner, url, issue_id) && bounty_at(s, owner, url, issue_id).status is Funded
            ==> release_result(s, owner, url, issue_id, caller, solver_addr, github) is Err,
{
}

/// Authorization: a release attempted by any principal other than the
/// proposer fails, whatever the solver arguments.
pub proof fn lemma_release_authorization(
    s: Seq<Bounty>,
    owner: Seq<u8>,
    url: Seq<u8>,
    issue_id: u64,
    caller: Address,
    solver_addr: Address,
    github: Seq<u8>,
)
    requires
        has_bounty(s, owner, url, issue_id),
        bounty_at(s, owner, url, issue_id).proposer@ != caller@,
    ensures
        release_result(s, owner, url, issue_id, caller, solver_addr, github) is Err,
{
}

/// Membership: a release naming a pair that is not on the solver list fails.
/// Together with `lemma_solvers_grow_by_registration` and the empty list a
/// `fund` creates, a pair never handed to a successful `register` can never
/// be on the list, so such a release always fails.
pub proof fn lemma_release_membership(
    s: Seq<Bounty>,
    owner: Seq<u8>,
    url: Seq<u8>,
    issue_id: u64,
    caller: Address,
    solver_addr: Address,
    github: Seq<u8>,
)
    requires
        has_bounty(s, owner, url, issue_id),
        !contains_solver(bounty_at(s, owner, url, issue_id).solvers@, solver_addr, github),
    ensures
        release_result(s, owner, url, issue_id, caller, solver_addr, github) is Err,
{
}

/// The solver list grows only one registered pair at a time: after an append,
/// a pair is on the list exactly when it was there before or is the pair just
/// appended.
pub proof fn lemma_solvers_grow_by_registration(
    prev: Seq<Solver>,
    sl: Solver,
    addr: Address,
    github: Seq<u8>,
)
    ensures
        contains_solver(prev.push(sl), addr, github) <==> (contains_solver(prev, addr, github)
            || is_solver(sl, addr, github)),
{
    let t = prev.push(sl);
    if contains_solver(t, addr, github) {
        let i = choose|i: int| 0 <= i < t.len() && is_solver(t[i], addr, github);
        if i < prev.len() {
            assert(t[i] == prev[i]);
            assert(contains_solver(prev, addr, github));
        } else {
            assert(t[i] == sl);
        }
    }
    if contains_solver(prev, addr, github) {
        let i = choose|i: int| 0 <= i < prev.len() && is_solver(prev[i], addr, github);
        assert(is_solver(t[i], addr, github));
        assert(contains_solver(t, addr, github));
    }
    if is_solver(sl, addr, github) {
        assert(is_solver(t[prev.len() as int], addr, github));
        assert(contains_solver(t, addr, github));
    }
}

/// Exactly-once payout: a completed record — as a successful release leaves
/// it — rejects every further release with the status failure, so no second
/// transfer is ever reported for a key.
pub proof fn lemma_release_exactly_once(
    s: Seq<Bounty>,
    owner: Seq<u8>,
    url: Seq<u8>,
    issue_id: u64,
    caller: Address,
    solver_addr: Address,
    github: Seq<u8>,
)
    requires
        has_bounty(s, owner, url, issue_id),
        bounty_at(s, owner, url, issue_id).status is Completed,
    ensures
        release_result(s, owner, url, issue_id, caller, solver_addr, github)
            == Err::<Transfer, BountyError>(BountyError::WrongStatus),
{
}

/// Conservation: in every well-formed ledger, the total the log reports as
/// released equals the total of amounts custodied by completed records; no
/// other path moves custodied value.
pub proof fn lemma_conservation(x: XBounty)
    requires
        x.wf(),
    ensures
        sum_released(x.events.log@) == sum_completed(x.storage.bounties@),
{
}

} // verus!

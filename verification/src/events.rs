//! The notification emitter, modeled as an append-only log.
//!
//! The host indexes and forwards notifications to external observers; the
//! ledger's own guarantee is only that it emits exactly one notification per
//! successful transition, which the log records.

use vstd::prelude::*;
use crate::storage::Address;

verus! {

/// One notification, as handed to external observers on a successful
/// transition.
#[derive(Debug)]
pub enum BountyEvent {
    Fund {
        repo_owner: Vec<u8>,
        repo_url: Vec<u8>,
        issue_id: u64,
        amount: u128,
        proposer: Address,
    },
    Claim {
        repo_owner: Vec<u8>,
        repo_url: Vec<u8>,
        issue_id: u64,
        solver_addr: Address,
        solver_github: Vec<u8>,
    },
    Complete {
        repo_owner: Vec<u8>,
        repo_url: Vec<u8>,
        issue_id: u64,
        solver_addr: Address,
        solver_github: Vec<u8>,
        amount: u128,
    },
}

/// Whether `e` is the fund notification with exactly these fields.
pub open spec fn is_fund_event(
    e: BountyEvent,
    owner: Seq<u8>,
    url: Seq<u8>,
    issue: u64,
    value: u128,
    funder: Address,
) -> bool {
    &&& e matches BountyEvent::Fund { repo_owner, repo_url, issue_id, amount, proposer }
    &&& repo_owner@ == owner
    &&& repo_url@ == url
    &&& issue_id == issue
    &&& amount == value
    &&& proposer@ == funder@
}

/// Whether `e` is the claim notification with exactly these fields.
pub open spec fn is_claim_event(
    e: BountyEvent,
    owner: Seq<u8>,
    url: Seq<u8>,
    issue: u64,
    solver: Address,
    github: Seq<u8>,
) -> bool {
    &&& e matches BountyEvent::Claim { repo_owner, repo_url, issue_id, solver_addr, solver_github }
    &&& repo_owner@ == owner
    &&& repo_url@ == url
    &&& issue_id == issue
    &&& solver_addr@ == solver@
    &&& solver_github@ == github
}

/// Whether `e` is the completion notification with exactly these fields.
pub open spec fn is_complete_event(
    e: BountyEvent,
    owner: Seq<u8>,
    url: Seq<u8>,
    issue: u64,
    solver: Address,
    github: Seq<u8>,
    value: u128,
) -> bool {
    &&& e matches BountyEvent::Complete {
        repo_owner,
        repo_url,
        issue_id,
        solver_addr,
        solver_github,
        amount,
    }
    &&& repo_owner@ == owner
    &&& repo_url@ == url
    &&& issue_id == issue
    &&& solver_addr@ == solver@
    &&& solver_github@ == github
    &&& amount == value
}

/// The share a notification contributes to the released total: its amount
/// when it reports a completion, nothing otherwise.
pub open spec fn released_amount(e: BountyEvent) -> int {
    match e {
        BountyEvent::Complete { amount, .. } => amount as int,
        _ => 0,
    }
}

/// Total value reported as released across the whole log.
pub open spec fn sum_released(log: Seq<BountyEvent>) -> int
    decreases log.len(),
{
    if log.len() == 0 {
        0
    } else {
        sum_released(log.drop_last()) + released_amount(log.last())
    }
}

pub proof fn lemma_sum_released_push(log: Seq<BountyEvent>, e: BountyEvent)
    ensures
        sum_released(log.push(e)) == sum_released(log) + released_amount(e),
{
    assert(log.push(e).drop_last() =~= log);
    assert(log.push(e).last() == e);
}

/// The notification emitter's interface: one emit call per lifecycle
/// transition, each appending exactly one notification to the emitter's log.
pub trait EventsModule {
    /// Everything emitted so far, in order.
    spec fn event_log(&self) -> Seq<BountyEvent>;

    /// Emit the fund notification.
    fn fund_event(
        &mut self,
        repo_owner: Vec<u8>,
        repo_url: Vec<u8>,
        issue_id: u64,
        amount: u128,
        proposer: Address,
    )
        ensures
            final(self).event_log().len() == old(self).event_log().len() + 1,
            final(self).event_log() == old(self).event_log().push(final(self).event_log().last()),
            is_fund_event(
                final(self).event_log().last(),
                repo_owner@,
                repo_url@,
                issue_id,
                amount,
                proposer,
            ),
    ;

    /// Emit the claim notification.
    fn claim_event(
        &mut self,
        repo_owner: Vec<u8>,
        repo_url: Vec<u8>,
        issue_id: u64,
        solver_addr: Address,
        solver_github: Vec<u8>,
    )
        ensures
            final(self).event_log().len() == old(self).event_log().len() + 1,
            final(self).event_log() == old(self).event_log().push(final(self).event_log().last()),
            is_claim_event(
                final(self).event_log().last(),
                repo_owner@,
                repo_url@,
                issue_id,
                solver_addr,
                solver_github@,
            ),
    ;

    /// Emit the completion notification.
    fn complete_event(
        &mut self,
        repo_owner: Vec<u8>,
        repo_url: Vec<u8>,
        issue_id: u64,
        solver_addr: Address,
        solver_github: Vec<u8>,
        amount: u128,
    )
        ensures
            final(self).event_log().len() == old(self).event_log().len() + 1,
            final(self).event_log() == old(self).event_log().push(final(self).event_log().last()),
            is_complete_event(
                final(self).event_log().last(),
                repo_owner@,
                repo_url@,
                issue_id,
                solver_addr,
                solver_github@,
                amount,
            ),
    ;
}

/// The emitter the ledger uses: everything emitted so far, in order.
#[derive(Debug)]
pub struct EventLog {
    pub log: Vec<BountyEvent>,
}

impl EventLog {
    /// A fresh emitter with an empty log.
    pub fn new() -> (e: EventLog)
        ensures
            e.log@.len() == 0,
    {
        EventLog { log: Vec::new() }
    }
}

impl EventsModule for EventLog {
    open spec fn event_log(&self) -> Seq<BountyEvent> {
        self.log@
    }

    fn fund_event(
        &mut self,
        repo_owner: Vec<u8>,
        repo_url: Vec<u8>,
        issue_id: u64,
        amount: u128,
        proposer: Address,
    ) {
        self.log.push(BountyEvent::Fund { repo_owner, repo_url, issue_id, amount, proposer });
    }

    fn claim_event(
        &mut self,
        repo_owner: Vec<u8>,
        repo_url: Vec<u8>,
        issue_id: u64,
        solver_addr: Address,
        solver_github: Vec<u8>,
    ) {
        self.log.push(
            BountyEvent::Claim { repo_owner, repo_url, issue_id, solver_addr, solver_github },
        );
    }

    fn complete_event(
        &mut self,
        repo_owner: Vec<u8>,
        repo_url: Vec<u8>,
        issue_id: u64,
        solver_addr: Address,
        solver_github: Vec<u8>,
        amount: u128,
    ) {
        self.log.push(
            BountyEvent::Complete {
                repo_owner,
                repo_url,
                issue_id,
                solver_addr,
                solver_github,
                amount,
            },
        );
    }
}

} // verus!

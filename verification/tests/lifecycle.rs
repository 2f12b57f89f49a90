//! End-to-end lifecycle scenarios for the bounty ledger.

use x_bounty::storage::Address;
use x_bounty::x_bounty::{BountyError, Transfer, XBounty};

fn addr(tag: u8) -> Address {
    Address::new([tag; 32])
}

fn key_owner() -> Vec<u8> {
    b"multiversx".to_vec()
}

fn key_url() -> Vec<u8> {
    b"mx-contracts-rs".to_vec()
}

#[test]
fn fund_register_release_scenario() {
    let proposer = addr(1);
    let alice = addr(2);
    let mut ledger = XBounty::init();

    let r = ledger.fund(key_owner(), key_url(), 133, 100, proposer, 1_700_000_000);
    assert_eq!(r, Ok(()));

    let r = ledger.register(key_owner(), key_url(), 133, alice, b"alice".to_vec());
    assert_eq!(r, Ok(()));
    let record = ledger.get_bounty(&key_owner(), &key_url(), 133).unwrap();
    assert!(matches!(
        record.status,
        x_bounty::storage::BountyStatus::Registered
    ));

    let r = ledger.release_bounty(key_owner(), key_url(), 133, proposer, alice, b"alice".to_vec());
    assert_eq!(r, Ok(Transfer { to: alice, amount: 100 }));
    let record = ledger.get_bounty(&key_owner(), &key_url(), 133).unwrap();
    assert!(matches!(
        record.status,
        x_bounty::storage::BountyStatus::Completed
    ));

    let repeat =
        ledger.release_bounty(key_owner(), key_url(), 133, proposer, alice, b"alice".to_vec());
    assert_eq!(repeat, Err(BountyError::WrongStatus));
    assert_eq!(
        BountyError::WrongStatus.message(),
        "Bounty is not in the expected status"
    );
}

#[test]
fn second_fund_fails_and_amount_is_kept() {
    let proposer = addr(1);
    let mut ledger = XBounty::init();
    assert_eq!(
        ledger.fund(key_owner(), key_url(), 133, 100, proposer, 10),
        Ok(())
    );
    let second = ledger.fund(key_owner(), key_url(), 133, 50, proposer, 11);
    assert_eq!(second, Err(BountyError::AlreadyExists));
    assert_eq!(
        BountyError::AlreadyExists.message(),
        "Bounty already exists for this issue"
    );
    let record = ledger.get_bounty(&key_owner(), &key_url(), 133).unwrap();
    assert_eq!(record.amount, 100);
}

#[test]
fn second_fund_fails_whatever_the_amount() {
    let proposer = addr(1);
    let other = addr(9);
    let mut ledger = XBounty::init();
    assert_eq!(
        ledger.fund(key_owner(), key_url(), 133, 7, proposer, 10),
        Ok(())
    );
    for amount in [0u128, 1, 7, u128::MAX] {
        let r = ledger.fund(key_owner(), key_url(), 133, amount, other, 11);
        assert!(r.is_err());
    }
    assert_eq!(ledger.bounties().len(), 1);
}

#[test]
fn fund_zero_always_fails_and_one_succeeds() {
    let proposer = addr(1);
    let mut ledger = XBounty::init();
    let r = ledger.fund(key_owner(), key_url(), 1, 0, proposer, 10);
    assert_eq!(r, Err(BountyError::ZeroPayment));
    assert!(ledger.get_bounty(&key_owner(), &key_url(), 1).is_none());
    let r = ledger.fund(key_owner(), key_url(), 1, 1, proposer, 10);
    assert_eq!(r, Ok(()));
}

#[test]
fn register_before_fund_fails() {
    let solver = addr(2);
    let mut ledger = XBounty::init();
    let r = ledger.register(key_owner(), key_url(), 133, solver, b"alice".to_vec());
    assert_eq!(r, Err(BountyError::DoesNotExist));
    assert_eq!(BountyError::DoesNotExist.message(), "Bounty does not exist");
}

#[test]
fn release_before_register_fails() {
    let proposer = addr(1);
    let alice = addr(2);
    let mut ledger = XBounty::init();
    assert_eq!(
        ledger.fund(key_owner(), key_url(), 133, 100, proposer, 10),
        Ok(())
    );
    let r = ledger.release_bounty(key_owner(), key_url(), 133, proposer, alice, b"alice".to_vec());
    assert_eq!(r, Err(BountyError::WrongStatus));
}

#[test]
fn release_by_non_proposer_fails() {
    let proposer = addr(1);
    let alice = addr(2);
    let stranger = addr(3);
    let mut ledger = XBounty::init();
    assert_eq!(
        ledger.fund(key_owner(), key_url(), 133, 100, proposer, 10),
        Ok(())
    );
    assert_eq!(
        ledger.register(key_owner(), key_url(), 133, alice, b"alice".to_vec()),
        Ok(())
    );
    let r = ledger.release_bounty(key_owner(), key_url(), 133, stranger, alice, b"alice".to_vec());
    assert_eq!(r, Err(BountyError::NotProposer));
    assert_eq!(
        BountyError::NotProposer.message(),
        "Only proposer can release the bounty"
    );
    // The record is untouched by the failed attempt.
    let record = ledger.get_bounty(&key_owner(), &key_url(), 133).unwrap();
    assert!(matches!(
        record.status,
        x_bounty::storage::BountyStatus::Registered
    ));
}

#[test]
fn release_of_unregistered_pair_fails() {
    let proposer = addr(1);
    let alice = addr(2);
    let bob = addr(3);
    let mut ledger = XBounty::init();
    assert_eq!(
        ledger.fund(key_owner(), key_url(), 133, 100, proposer, 10),
        Ok(())
    );
    assert_eq!(
        ledger.register(key_owner(), key_url(), 133, alice, b"alice".to_vec()),
        Ok(())
    );
    // A pair never registered at all.
    let r = ledger.release_bounty(key_owner(), key_url(), 133, proposer, bob, b"bob".to_vec());
    assert_eq!(r, Err(BountyError::SolverNotRegistered));
    // The registered address under a different external id is a different pair.
    let r = ledger.release_bounty(key_owner(), key_url(), 133, proposer, alice, b"bob".to_vec());
    assert_eq!(r, Err(BountyError::SolverNotRegistered));
    assert_eq!(
        BountyError::SolverNotRegistered.message(),
        "Solver wasn't previously registered"
    );
}

#[test]
fn release_pays_exactly_once() {
    let proposer = addr(1);
    let alice = addr(2);
    let mut ledger = XBounty::init();
    assert_eq!(
        ledger.fund(key_owner(), key_url(), 133, 250, proposer, 10),
        Ok(())
    );
    assert_eq!(
        ledger.register(key_owner(), key_url(), 133, alice, b"alice".to_vec()),
        Ok(())
    );
    let first =
        ledger.release_bounty(key_owner(), key_url(), 133, proposer, alice, b"alice".to_vec());
    assert_eq!(first, Ok(Transfer { to: alice, amount: 250 }));
    let second =
        ledger.release_bounty(key_owner(), key_url(), 133, proposer, alice, b"alice".to_vec());
    assert_eq!(second, Err(BountyError::WrongStatus));
    // Exactly one completion notification was ever emitted.
    let completions = ledger
        .events
        .log
        .iter()
        .filter(|e| matches!(e, x_bounty::events::BountyEvent::Complete { .. }))
        .count();
    assert_eq!(completions, 1);
}

#[test]
fn conservation_over_several_keys() {
    let proposer = addr(1);
    let alice = addr(2);
    let bob = addr(3);
    let mut ledger = XBounty::init();
    assert_eq!(
        ledger.fund(key_owner(), key_url(), 1, 100, proposer, 10),
        Ok(())
    );
    assert_eq!(
        ledger.fund(key_owner(), key_url(), 2, 70, proposer, 11),
        Ok(())
    );
    assert_eq!(
        ledger.fund(key_owner(), key_url(), 3, 5, proposer, 12),
        Ok(())
    );
    assert_eq!(
        ledger.register(key_owner(), key_url(), 1, alice, b"alice".to_vec()),
        Ok(())
    );
    assert_eq!(
        ledger.register(key_owner(), key_url(), 2, bob, b"bob".to_vec()),
        Ok(())
    );
    assert_eq!(
        ledger
            .release_bounty(key_owner(), key_url(), 1, proposer, alice, b"alice".to_vec())
            .map(|t| t.amount),
        Ok(100)
    );
    assert_eq!(
        ledger
            .release_bounty(key_owner(), key_url(), 2, proposer, bob, b"bob".to_vec())
            .map(|t| t.amount),
        Ok(70)
    );
    let released: u128 = ledger
        .events
        .log
        .iter()
        .map(|e| match e {
            x_bounty::events::BountyEvent::Complete { amount, .. } => *amount,
            _ => 0,
        })
        .sum();
    let completed: u128 = ledger
        .bounties()
        .iter()
        .map(|b| match b.status {
            x_bounty::storage::BountyStatus::Completed => b.amount,
            _ => 0,
        })
        .sum();
    assert_eq!(released, 170);
    assert_eq!(released, completed);
}

use dapp::dapp::Dapp;
use dapp::dapp::Error;
use dapp::dapp::Transfer;

const A: u64 = 1;
const B: u64 = 2;
const C: u64 = 3;

#[test]
fn create_assigns_whole_supply_to_creator() {
    let d = Dapp::new(1000, 10, A);
    assert_eq!(d.balance_of(A), 1000);
    assert_eq!(d.balance_of(B), 0);
    assert_eq!(d.transfers.len(), 0);
}

#[test]
fn scenario_create_faucet_transfer() {
    let mut d = Dapp::new(1000, 10, A);
    assert_eq!(d.balance_of(A), 1000);
    assert_eq!(d.balance_of(B), 0);

    assert_eq!(d.faucet(B), Ok(()));
    assert_eq!(d.balance_of(A), 990);
    assert_eq!(d.balance_of(B), 10);
    assert_eq!(d.transfers.len(), 1);
    assert_eq!(d.transfers[0], Transfer { from: A, to: B, value: 10 });

    assert_eq!(d.transfer(B, C, 5), Ok(()));
    assert_eq!(d.balance_of(B), 5);
    assert_eq!(d.balance_of(C), 5);

    assert_eq!(d.transfer(B, C, 100), Err(Error::InsufficientBalance));
    assert_eq!(d.balance_of(B), 5);
    assert_eq!(d.balance_of(C), 5);
}

#[test]
fn conservation_under_a_sequence_of_transfers() {
    let mut d = Dapp::new(500, 7, A);
    let _ = d.faucet(B);
    let _ = d.faucet(C);
    let _ = d.transfer(B, C, 3);
    let _ = d.transfer(C, A, 10);
    let _ = d.transfer(A, B, 250);
    let total = d.balance_of(A) + d.balance_of(B) + d.balance_of(C);
    assert_eq!(total, 500);
}

#[test]
fn transfer_fails_iff_balance_is_short() {
    let mut d = Dapp::new(100, 10, A);
    // One unit over the balance: fails, nothing moves.
    assert_eq!(d.transfer(A, B, 101), Err(Error::InsufficientBalance));
    assert_eq!(d.balance_of(A), 100);
    assert_eq!(d.balance_of(B), 0);
    // Exactly the balance: succeeds.
    assert_eq!(d.transfer(A, B, 100), Ok(()));
    assert_eq!(d.balance_of(A), 0);
    assert_eq!(d.balance_of(B), 100);
    // From an empty account, any positive amount fails.
    assert_eq!(d.transfer(A, B, 1), Err(Error::InsufficientBalance));
    // A zero-value transfer always meets the precondition.
    assert_eq!(d.transfer(A, B, 0), Ok(()));
    assert_eq!(d.balance_of(A), 0);
    assert_eq!(d.balance_of(B), 100);
}

#[test]
fn transfer_to_self_keeps_balance_but_checks_funds() {
    let mut d = Dapp::new(100, 10, A);
    assert_eq!(d.transfer(A, A, 40), Ok(()));
    assert_eq!(d.balance_of(A), 100);
    assert_eq!(d.transfer(A, A, 101), Err(Error::InsufficientBalance));
    assert_eq!(d.balance_of(A), 100);
    // Transfers never touch the log.
    assert_eq!(d.transfers.len(), 0);
}

#[test]
fn faucet_moves_drip_and_logs_it() {
    let mut d = Dapp::new(25, 10, A);
    assert_eq!(d.faucet(B), Ok(()));
    assert_eq!(d.faucet(B), Ok(()));
    assert_eq!(d.balance_of(A), 5);
    assert_eq!(d.balance_of(B), 20);
    assert_eq!(d.transfers.len(), 2);
    assert_eq!(d.transfers[1], Transfer { from: A, to: B, value: 10 });
    // The distributor can no longer cover the drip: no movement, no log entry.
    assert_eq!(d.faucet(C), Err(Error::InsufficientBalance));
    assert_eq!(d.balance_of(A), 5);
    assert_eq!(d.balance_of(C), 0);
    assert_eq!(d.transfers.len(), 2);
}

#[test]
fn faucet_with_store_matches_faucet() {
    let mut d1 = Dapp::new(25, 10, A);
    let mut d2 = Dapp::new(25, 10, A);
    assert_eq!(d1.faucet(B), d2.faucet_with_store(B));
    assert_eq!(d1.balance_of(A), d2.balance_of(A));
    assert_eq!(d1.balance_of(B), d2.balance_of(B));
    assert_eq!(d1.transfers, d2.transfers);
    // Both fail the same way once the distributor runs dry.
    let _ = d1.faucet(B);
    let _ = d2.faucet_with_store(B);
    assert_eq!(d1.faucet(C), Err(Error::InsufficientBalance));
    assert_eq!(d2.faucet_with_store(C), Err(Error::InsufficientBalance));
    assert_eq!(d1.transfers, d2.transfers);
}

#[test]
fn record_transfer_always_succeeds_and_appends() {
    let mut d = Dapp::new(0, 10, A);
    // Balances play no part: the recorded value exceeds the whole supply.
    assert_eq!(d.record_transfer(B, C, 999), Ok(()));
    assert_eq!(d.transfers.len(), 1);
    assert_eq!(d.transfers[0], Transfer { from: B, to: C, value: 999 });
    assert_eq!(d.record_transfer(C, B, 0), Ok(()));
    assert_eq!(d.transfers.len(), 2);
    assert_eq!(d.transfers[1], Transfer { from: C, to: B, value: 0 });
    // No balance moved.
    assert_eq!(d.balance_of(B), 0);
    assert_eq!(d.balance_of(C), 0);
}

#[test]
fn untouched_account_reads_zero() {
    let mut d = Dapp::new(1000, 10, A);
    let _ = d.faucet(B);
    let _ = d.transfer(B, C, 3);
    let _ = d.record_transfer(A, 77, 5);
    assert_eq!(d.balance_of(77), 0);
    assert_eq!(d.balance_of(u64::MAX), 0);
}

#[test]
fn largest_supply_moves_without_overflow() {
    let mut d = Dapp::new(u128::MAX, u128::MAX, A);
    assert_eq!(d.faucet(B), Ok(()));
    assert_eq!(d.balance_of(A), 0);
    assert_eq!(d.balance_of(B), u128::MAX);
    assert_eq!(d.transfer(B, A, u128::MAX), Ok(()));
    assert_eq!(d.balance_of(A), u128::MAX);
}

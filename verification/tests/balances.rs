use ledger_runtime::balances::{Call, Pallet};
use ledger_runtime::support::{Dispatch, ErrorKind};

fn alice() -> String {
    "alice".to_string()
}

fn bob() -> String {
    "bob".to_string()
}

#[test]
fn init_balances() {
    let mut balances = Pallet::new();

    assert_eq!(balances.balance(&"alice".to_string()), 0);
    balances.set_balance(&"alice".to_string(), 100);
    assert_eq!(balances.balance(&"alice".to_string()), 100);
    assert_eq!(balances.balance(&"bob".to_string()), 0);
}

#[test]
fn transfer_balance() {
    let mut balances = Pallet::new();

    assert_eq!(
        balances.transfer("alice".to_string(), "bob".to_string(), 100).map_err(|e| e.message()),
        Err("Not enough funds.")
    );

    balances.set_balance(&"alice".to_string(), 100);
    assert_eq!(balances.transfer("alice".to_string(), "bob".to_string(), 10), Ok(()));
    assert_eq!(balances.balance(&"alice".to_string()), 90);
    assert_eq!(balances.balance(&"bob".to_string()), 10);

    assert_eq!(
        balances.transfer("alice".to_string(), "bob".to_string(), 91).map_err(|e| e.message()),
        Err("Not enough funds.")
    );
}

#[test]
fn unknown_account_holds_nothing() {
    let mut balances = Pallet::new();
    assert_eq!(balances.balance(&"nobody".to_string()), 0);
    balances.set_balance(&alice(), 5);
    assert_eq!(balances.transfer(alice(), bob(), 5), Ok(()));
    assert_eq!(balances.balance(&"nobody".to_string()), 0);
    assert_eq!(balances.balance(&"".to_string()), 0);
}

#[test]
fn set_balance_overwrites() {
    let mut balances = Pallet::new();
    balances.set_balance(&alice(), 100);
    balances.set_balance(&alice(), 7);
    assert_eq!(balances.balance(&alice()), 7);
    balances.set_balance(&alice(), 0);
    assert_eq!(balances.balance(&alice()), 0);
    balances.set_balance(&bob(), u128::MAX);
    assert_eq!(balances.balance(&bob()), u128::MAX);
    assert_eq!(balances.balance(&alice()), 0);
}

#[test]
fn transfer_then_overdraw() {
    let mut balances = Pallet::new();
    balances.set_balance(&alice(), 100);
    assert_eq!(balances.transfer(alice(), bob(), 30), Ok(()));
    assert_eq!(balances.balance(&alice()), 70);
    assert_eq!(balances.balance(&bob()), 30);
    assert_eq!(balances.transfer(alice(), bob(), 71), Err(ErrorKind::InsufficientFunds));
    assert_eq!(balances.balance(&alice()), 70);
    assert_eq!(balances.balance(&bob()), 30);
}

#[test]
fn transfer_conserves_the_sum() {
    let mut balances = Pallet::new();
    balances.set_balance(&alice(), 1_000);
    balances.set_balance(&bob(), 234);
    let before = balances.balance(&alice()) + balances.balance(&bob());
    assert_eq!(balances.transfer(alice(), bob(), 999), Ok(()));
    assert_eq!(balances.balance(&alice()), 1);
    assert_eq!(balances.balance(&bob()), 1_233);
    assert_eq!(balances.balance(&alice()) + balances.balance(&bob()), before);
    assert_eq!(balances.transfer(bob(), alice(), 1_233), Ok(()));
    assert_eq!(balances.balance(&alice()), 1_234);
    assert_eq!(balances.balance(&bob()), 0);
}

#[test]
fn transfer_of_whole_balance_and_of_nothing() {
    let mut balances = Pallet::new();
    balances.set_balance(&alice(), 42);
    assert_eq!(balances.transfer(alice(), bob(), 0), Ok(()));
    assert_eq!(balances.balance(&alice()), 42);
    assert_eq!(balances.balance(&bob()), 0);
    assert_eq!(balances.transfer(alice(), bob(), 42), Ok(()));
    assert_eq!(balances.balance(&alice()), 0);
    assert_eq!(balances.balance(&bob()), 42);
    assert_eq!(balances.transfer(alice(), bob(), 1), Err(ErrorKind::InsufficientFunds));
    // An account that was never written may send nothing, and only nothing.
    assert_eq!(balances.transfer("carol".to_string(), bob(), 0), Ok(()));
    assert_eq!(balances.transfer("carol".to_string(), bob(), 1), Err(ErrorKind::InsufficientFunds));
    assert_eq!(balances.balance(&bob()), 42);
}

#[test]
fn transfer_insufficient_funds_changes_nothing() {
    let mut balances = Pallet::new();
    balances.set_balance(&alice(), 10);
    balances.set_balance(&bob(), 3);
    assert_eq!(balances.transfer(alice(), bob(), 11), Err(ErrorKind::InsufficientFunds));
    assert_eq!(balances.transfer(alice(), bob(), u128::MAX), Err(ErrorKind::InsufficientFunds));
    assert_eq!(balances.balance(&alice()), 10);
    assert_eq!(balances.balance(&bob()), 3);
}

#[test]
fn transfer_overflow_changes_nothing() {
    let mut balances = Pallet::new();
    balances.set_balance(&alice(), 10);
    balances.set_balance(&bob(), u128::MAX - 4);
    assert_eq!(balances.transfer(alice(), bob(), 5), Err(ErrorKind::BalanceOverflow));
    assert_eq!(balances.balance(&alice()), 10);
    assert_eq!(balances.balance(&bob()), u128::MAX - 4);
    // The largest balance can still be reached exactly.
    assert_eq!(balances.transfer(alice(), bob(), 4), Ok(()));
    assert_eq!(balances.balance(&alice()), 6);
    assert_eq!(balances.balance(&bob()), u128::MAX);
}

#[test]
fn transfer_insufficient_funds_comes_before_overflow() {
    let mut balances = Pallet::new();
    balances.set_balance(&alice(), 1);
    balances.set_balance(&bob(), u128::MAX);
    assert_eq!(balances.transfer(alice(), bob(), 2), Err(ErrorKind::InsufficientFunds));
    assert_eq!(balances.transfer(alice(), bob(), 1), Err(ErrorKind::BalanceOverflow));
}

#[test]
fn transfer_to_oneself_keeps_the_balance() {
    let mut balances = Pallet::new();
    balances.set_balance(&alice(), 50);
    assert_eq!(balances.transfer(alice(), alice(), 20), Ok(()));
    assert_eq!(balances.balance(&alice()), 50);
    assert_eq!(balances.transfer(alice(), alice(), 50), Ok(()));
    assert_eq!(balances.balance(&alice()), 50);
    assert_eq!(balances.transfer(alice(), alice(), 51), Err(ErrorKind::InsufficientFunds));
    assert_eq!(balances.balance(&alice()), 50);
}

#[test]
fn transfer_to_oneself_needs_room_for_the_amount() {
    let mut balances = Pallet::new();
    balances.set_balance(&alice(), u128::MAX);
    assert_eq!(balances.transfer(alice(), alice(), 1), Err(ErrorKind::BalanceOverflow));
    assert_eq!(balances.transfer(alice(), alice(), 0), Ok(()));
    assert_eq!(balances.balance(&alice()), u128::MAX);
}

#[test]
fn dispatch_routes_a_transfer() {
    let mut balances = Pallet::new();
    balances.set_balance(&alice(), 100);
    assert_eq!(balances.dispatch(alice(), Call::Transfer { to: bob(), amount: 60 }), Ok(()));
    assert_eq!(balances.balance(&alice()), 40);
    assert_eq!(balances.balance(&bob()), 60);
    assert_eq!(
        balances.dispatch(alice(), Call::Transfer { to: bob(), amount: 60 }),
        Err(ErrorKind::InsufficientFunds)
    );
    assert_eq!(balances.balance(&alice()), 40);
    assert_eq!(balances.balance(&bob()), 60);
}

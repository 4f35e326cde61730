use ledger_runtime::system::Pallet;

#[test]
fn init_system() {
    let mut system = Pallet::new();
    system.inc_block_number();
    system.inc_nonce(&"alice".to_string());

    assert_eq!(system.block_number(), 1);
    assert_eq!(system.get_nonce(&"alice".to_string()), Some(1));
    assert_eq!(system.get_nonce(&"bob".to_string()), None);
}

#[test]
fn new_system_starts_at_zero() {
    let system = Pallet::new();
    assert_eq!(system.block_number(), 0);
    assert_eq!(system.nonce(&"alice".to_string()), 0);
    assert_eq!(system.get_nonce(&"alice".to_string()), None);
}

#[test]
fn block_number_counts_up() {
    let mut system = Pallet::new();
    system.inc_block_number();
    system.inc_block_number();
    system.inc_block_number();
    assert_eq!(system.block_number(), 3);
}

#[test]
fn nonces_count_per_account() {
    let mut system = Pallet::new();
    system.inc_nonce(&"alice".to_string());
    system.inc_nonce(&"bob".to_string());
    system.inc_nonce(&"alice".to_string());
    assert_eq!(system.nonce(&"alice".to_string()), 2);
    assert_eq!(system.nonce(&"bob".to_string()), 1);
    assert_eq!(system.nonce(&"charlie".to_string()), 0);
    assert_eq!(system.get_nonce(&"alice".to_string()), Some(2));
    assert_eq!(system.block_number(), 0);
}

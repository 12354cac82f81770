use erc20::{AccountId, Approval, Erc20, Notification, Transfer};

fn alice() -> AccountId {
    AccountId::from([0x1; 32])
}

fn bob() -> AccountId {
    AccountId::from([0x2; 32])
}

fn carol() -> AccountId {
    AccountId::from([0x3; 32])
}

fn dave() -> AccountId {
    AccountId::from([0x4; 32])
}

fn sum_of_balances(ledger: &Erc20) -> u128 {
    ledger.balance_of(alice())
        + ledger.balance_of(bob())
        + ledger.balance_of(carol())
        + ledger.balance_of(dave())
}

#[test]
fn new_works() {
    let contract = Erc20::new(777, AccountId::from([0x1; 32]));
    assert_eq!(contract.total_supply(), 777);
}

#[test]
fn balance_works() {
    let contract = Erc20::new(100, AccountId::from([0x1; 32]));
    assert_eq!(contract.total_supply(), 100);
    assert_eq!(contract.balance_of(AccountId::from([0x1; 32])), 100);
    assert_eq!(contract.balance_of(AccountId::from([0x0; 32])), 0);
}

#[test]
fn account_id_keeps_its_bytes() {
    let mut bytes = [0u8; 32];
    bytes[0] = 7;
    bytes[31] = 9;
    let id = AccountId::new(bytes);
    assert_eq!(id.to_bytes(), bytes);
    assert_eq!(id, AccountId::from(bytes));
    assert_ne!(id, AccountId::from([0u8; 32]));
}

#[test]
fn construction_mints_to_the_creator() {
    let ledger = Erc20::new(1000, alice());
    assert_eq!(ledger.total_supply(), 1000);
    assert_eq!(ledger.balance_of(alice()), 1000);
    assert_eq!(ledger.balance_of(bob()), 0);
    assert_eq!(ledger.balance_of(carol()), 0);
    assert_eq!(ledger.allowance(alice(), bob()), 0);
    assert_eq!(ledger.account_count(), 1);
    assert_eq!(ledger.approval_count(), 0);
    let expected = vec![Notification::Transfer(Transfer {
        from: None,
        to: Some(alice()),
        value: 1000,
    })];
    assert_eq!(ledger.notifications(), &expected);
}

#[test]
fn construction_with_zero_supply() {
    let ledger = Erc20::new(0, alice());
    assert_eq!(ledger.total_supply(), 0);
    assert_eq!(ledger.balance_of(alice()), 0);
    assert_eq!(ledger.notifications().len(), 1);
}

#[test]
fn transfer_moves_tokens() {
    let mut ledger = Erc20::new(100, alice());
    assert!(ledger.transfer(alice(), bob(), 30));
    assert_eq!(ledger.balance_of(alice()), 70);
    assert_eq!(ledger.balance_of(bob()), 30);
    assert_eq!(ledger.balance_of(carol()), 0);
    assert_eq!(ledger.total_supply(), 100);
    assert_eq!(ledger.account_count(), 2);
}

#[test]
fn transfer_of_whole_balance() {
    let mut ledger = Erc20::new(100, alice());
    assert!(ledger.transfer(alice(), bob(), 100));
    assert_eq!(ledger.balance_of(alice()), 0);
    assert_eq!(ledger.balance_of(bob()), 100);
}

#[test]
fn transfer_with_insufficient_balance_is_refused() {
    let mut ledger = Erc20::new(100, alice());
    assert!(!ledger.transfer(alice(), bob(), 150));
    assert_eq!(ledger.balance_of(alice()), 100);
    assert_eq!(ledger.balance_of(bob()), 0);
    assert_eq!(ledger.account_count(), 1);
}

#[test]
fn transfer_from_an_unknown_account_is_refused() {
    let mut ledger = Erc20::new(100, alice());
    assert!(!ledger.transfer(bob(), carol(), 1));
    assert_eq!(ledger.balance_of(alice()), 100);
    assert_eq!(ledger.balance_of(bob()), 0);
    assert_eq!(ledger.balance_of(carol()), 0);
}

#[test]
fn transfer_of_nothing_succeeds() {
    let mut ledger = Erc20::new(100, alice());
    assert!(ledger.transfer(bob(), carol(), 0));
    assert_eq!(ledger.balance_of(bob()), 0);
    assert_eq!(ledger.balance_of(carol()), 0);
    assert_eq!(ledger.balance_of(alice()), 100);
}

#[test]
fn transfer_to_oneself_changes_nothing() {
    let mut ledger = Erc20::new(100, alice());
    assert!(ledger.transfer(alice(), alice(), 40));
    assert_eq!(ledger.balance_of(alice()), 100);
    assert!(ledger.transfer(alice(), alice(), 100));
    assert_eq!(ledger.balance_of(alice()), 100);
    assert!(!ledger.transfer(alice(), alice(), 101));
    assert_eq!(ledger.balance_of(alice()), 100);
    assert_eq!(ledger.total_supply(), 100);
}

#[test]
fn transfer_of_the_largest_supply() {
    let mut ledger = Erc20::new(u128::MAX, alice());
    assert!(ledger.transfer(alice(), bob(), u128::MAX));
    assert_eq!(ledger.balance_of(bob()), u128::MAX);
    assert_eq!(ledger.balance_of(alice()), 0);
    assert!(ledger.transfer(bob(), bob(), u128::MAX));
    assert_eq!(ledger.balance_of(bob()), u128::MAX);
}

#[test]
fn transfers_do_not_notify() {
    let mut ledger = Erc20::new(100, alice());
    assert!(ledger.transfer(alice(), bob(), 30));
    assert!(ledger.approve(bob(), carol(), 30));
    assert!(ledger.transfer_from(carol(), bob(), dave(), 10));
    assert_eq!(ledger.notifications().len(), 2);
}

#[test]
fn approve_overwrites() {
    let mut ledger = Erc20::new(100, alice());
    assert!(ledger.approve(alice(), bob(), 50));
    assert_eq!(ledger.allowance(alice(), bob()), 50);
    assert!(ledger.approve(alice(), bob(), 30));
    assert_eq!(ledger.allowance(alice(), bob()), 30);
    assert_eq!(ledger.allowance(bob(), alice()), 0);
    assert_eq!(ledger.allowance(alice(), carol()), 0);
    assert_eq!(ledger.approval_count(), 1);
    assert_eq!(ledger.balance_of(alice()), 100);
}

#[test]
fn approve_notifies() {
    let mut ledger = Erc20::new(100, alice());
    assert!(ledger.approve(alice(), bob(), 50));
    let expected = vec![
        Notification::Transfer(Transfer { from: None, to: Some(alice()), value: 100 }),
        Notification::Approval(Approval {
            owner: Some(alice()),
            spender: Some(bob()),
            value: 50,
        }),
    ];
    assert_eq!(ledger.notifications(), &expected);
}

#[test]
fn approve_beyond_the_balance_is_accepted() {
    let mut ledger = Erc20::new(100, alice());
    assert!(ledger.approve(bob(), carol(), 500));
    assert_eq!(ledger.allowance(bob(), carol()), 500);
    assert!(!ledger.transfer_from(carol(), bob(), dave(), 1));
    assert_eq!(ledger.allowance(bob(), carol()), 500);
}

#[test]
fn transfer_from_debits_the_allowance() {
    let owner = alice();
    let spender = bob();
    let dest = carol();
    let mut ledger = Erc20::new(100, owner);
    assert!(ledger.approve(owner, spender, 40));
    assert_eq!(ledger.balance_of(owner), 100);
    assert!(ledger.transfer_from(spender, owner, dest, 40));
    assert_eq!(ledger.balance_of(owner), 60);
    assert_eq!(ledger.balance_of(dest), 40);
    assert_eq!(ledger.allowance(owner, spender), 0);
    assert!(!ledger.transfer_from(spender, owner, dest, 1));
    assert_eq!(ledger.balance_of(owner), 60);
    assert_eq!(ledger.balance_of(dest), 40);
    assert_eq!(ledger.balance_of(spender), 0);
    assert_eq!(ledger.allowance(owner, spender), 0);
}

#[test]
fn transfer_from_in_parts() {
    let mut ledger = Erc20::new(100, alice());
    assert!(ledger.approve(alice(), bob(), 40));
    assert!(ledger.transfer_from(bob(), alice(), carol(), 15));
    assert_eq!(ledger.allowance(alice(), bob()), 25);
    assert_eq!(ledger.balance_of(alice()), 85);
    assert_eq!(ledger.balance_of(carol()), 15);
    assert!(ledger.transfer_from(bob(), alice(), bob(), 25));
    assert_eq!(ledger.allowance(alice(), bob()), 0);
    assert_eq!(ledger.balance_of(alice()), 60);
    assert_eq!(ledger.balance_of(bob()), 25);
}

#[test]
fn transfer_from_over_the_allowance_is_refused() {
    let owner = alice();
    let spender = bob();
    let dest = carol();
    let mut ledger = Erc20::new(100, owner);
    assert!(ledger.approve(owner, spender, 10));
    assert!(!ledger.transfer_from(spender, owner, dest, 20));
    assert_eq!(ledger.balance_of(owner), 100);
    assert_eq!(ledger.balance_of(dest), 0);
    assert_eq!(ledger.allowance(owner, spender), 10);
    assert_eq!(ledger.account_count(), 1);
}

#[test]
fn transfer_from_over_the_balance_keeps_the_allowance() {
    let mut ledger = Erc20::new(100, alice());
    assert!(ledger.transfer(alice(), bob(), 5));
    assert!(ledger.approve(bob(), carol(), 50));
    assert!(!ledger.transfer_from(carol(), bob(), dave(), 6));
    assert_eq!(ledger.allowance(bob(), carol()), 50);
    assert_eq!(ledger.balance_of(bob()), 5);
    assert_eq!(ledger.balance_of(dave()), 0);
}

#[test]
fn transfer_from_needs_the_callers_own_allowance() {
    let mut ledger = Erc20::new(100, alice());
    assert!(ledger.approve(alice(), bob(), 40));
    assert!(!ledger.transfer_from(carol(), alice(), carol(), 1));
    assert!(!ledger.transfer_from(alice(), alice(), carol(), 1));
    assert_eq!(ledger.balance_of(alice()), 100);
    assert_eq!(ledger.allowance(alice(), bob()), 40);
}

#[test]
fn transfer_from_back_to_the_owner() {
    let mut ledger = Erc20::new(100, alice());
    assert!(ledger.approve(alice(), bob(), 40));
    assert!(ledger.transfer_from(bob(), alice(), alice(), 30));
    assert_eq!(ledger.balance_of(alice()), 100);
    assert_eq!(ledger.allowance(alice(), bob()), 10);
}

#[test]
fn supply_is_conserved() {
    let mut ledger = Erc20::new(1000, alice());
    assert_eq!(sum_of_balances(&ledger), 1000);
    assert!(ledger.transfer(alice(), bob(), 300));
    assert_eq!(sum_of_balances(&ledger), 1000);
    assert!(ledger.transfer(bob(), carol(), 120));
    assert_eq!(sum_of_balances(&ledger), 1000);
    assert!(!ledger.transfer(carol(), dave(), 121));
    assert_eq!(sum_of_balances(&ledger), 1000);
    assert!(ledger.approve(alice(), dave(), 700));
    assert!(ledger.transfer_from(dave(), alice(), dave(), 650));
    assert_eq!(sum_of_balances(&ledger), 1000);
    assert!(ledger.transfer(dave(), dave(), 650));
    assert_eq!(sum_of_balances(&ledger), 1000);
    assert_eq!(ledger.balance_of(alice()), 50);
    assert_eq!(ledger.balance_of(bob()), 180);
    assert_eq!(ledger.balance_of(carol()), 120);
    assert_eq!(ledger.balance_of(dave()), 650);
    assert_eq!(ledger.total_supply(), 1000);
    assert_eq!(ledger.account_count(), 4);
}

#[test]
fn no_balance_exceeds_the_supply() {
    let mut ledger = Erc20::new(1000, alice());
    assert!(ledger.transfer(alice(), bob(), 999));
    assert!(ledger.transfer(bob(), carol(), 500));
    assert!(ledger.balance_of(alice()) <= ledger.total_supply());
    assert!(ledger.balance_of(bob()) <= ledger.total_supply());
    assert!(ledger.balance_of(carol()) <= ledger.total_supply());
}

#[test]
fn reads_are_repeatable() {
    let mut ledger = Erc20::new(100, alice());
    assert!(ledger.transfer(alice(), bob(), 30));
    assert!(ledger.approve(alice(), carol(), 20));
    for _ in 0..3 {
        assert_eq!(ledger.total_supply(), 100);
        assert_eq!(ledger.balance_of(alice()), 70);
        assert_eq!(ledger.balance_of(bob()), 30);
        assert_eq!(ledger.balance_of(dave()), 0);
        assert_eq!(ledger.allowance(alice(), carol()), 20);
        assert_eq!(ledger.allowance(carol(), alice()), 0);
        assert_eq!(ledger.account_count(), 2);
        assert_eq!(ledger.approval_count(), 1);
    }
}

#[test]
fn notifications_are_taken_once() {
    let mut ledger = Erc20::new(100, alice());
    assert!(ledger.approve(alice(), bob(), 50));
    let taken = ledger.take_notifications();
    assert_eq!(taken.len(), 2);
    assert_eq!(
        taken[0],
        Notification::Transfer(Transfer { from: None, to: Some(alice()), value: 100 })
    );
    assert_eq!(
        taken[1],
        Notification::Approval(Approval { owner: Some(alice()), spender: Some(bob()), value: 50 })
    );
    assert!(ledger.notifications().is_empty());
    assert!(ledger.take_notifications().is_empty());
    assert_eq!(ledger.balance_of(alice()), 100);
    assert_eq!(ledger.allowance(alice(), bob()), 50);
    assert_eq!(ledger.total_supply(), 100);
    assert!(ledger.approve(alice(), bob(), 1));
    assert_eq!(ledger.notifications().len(), 1);
}

#[test]
fn accounts_differ_by_any_byte() {
    let mut first = [0u8; 32];
    let mut second = [0u8; 32];
    first[31] = 1;
    second[31] = 2;
    let mut ledger = Erc20::new(10, AccountId::new(first));
    assert_eq!(ledger.balance_of(AccountId::new(second)), 0);
    assert!(ledger.transfer(AccountId::new(first), AccountId::new(second), 4));
    assert_eq!(ledger.balance_of(AccountId::new(first)), 6);
    assert_eq!(ledger.balance_of(AccountId::new(second)), 4);
}

#[test]
fn try_transfer_acts_as_transfer() {
    let mut ledger = Erc20::new(100, alice());
    assert_eq!(ledger.try_transfer(alice(), bob(), 150), Some(false));
    assert_eq!(ledger.balance_of(alice()), 100);
    assert_eq!(ledger.try_transfer(alice(), bob(), 40), Some(true));
    assert_eq!(ledger.balance_of(alice()), 60);
    assert_eq!(ledger.balance_of(bob()), 40);
}

#[test]
fn try_approve_acts_as_approve() {
    let mut ledger = Erc20::new(100, alice());
    assert_eq!(ledger.try_approve(alice(), bob(), 50), Some(true));
    assert_eq!(ledger.try_approve(alice(), bob(), 30), Some(true));
    assert_eq!(ledger.allowance(alice(), bob()), 30);
    assert_eq!(ledger.notifications().len(), 3);
}

#[test]
fn try_transfer_from_acts_as_transfer_from() {
    let mut ledger = Erc20::new(100, alice());
    assert_eq!(ledger.try_approve(alice(), bob(), 10), Some(true));
    assert_eq!(ledger.try_transfer_from(bob(), alice(), carol(), 20), Some(false));
    assert_eq!(ledger.allowance(alice(), bob()), 10);
    assert_eq!(ledger.try_transfer_from(bob(), alice(), carol(), 10), Some(true));
    assert_eq!(ledger.allowance(alice(), bob()), 0);
    assert_eq!(ledger.balance_of(alice()), 90);
    assert_eq!(ledger.balance_of(carol()), 10);
}

#[test]
fn same_as_compares_all_bytes() {
    let mut first = [5u8; 32];
    let second = [5u8; 32];
    assert!(AccountId::new(first).same_as(&AccountId::new(second)));
    first[31] = 6;
    assert!(!AccountId::new(first).same_as(&AccountId::new(second)));
    first[31] = 5;
    first[0] = 4;
    assert!(!AccountId::new(first).same_as(&AccountId::new(second)));
    assert!(alice().same_as(&alice()));
    assert!(!alice().same_as(&bob()));
}

#[test]
fn a_small_ledger_has_room() {
    let mut ledger = Erc20::new(100, alice());
    assert!(ledger.has_room_for_transfer(&alice(), &bob()));
    assert!(ledger.has_room_for_transfer(&carol(), &carol()));
    assert!(ledger.has_room_for_transfer(&carol(), &dave()));
    assert!(ledger.has_room_for_approval(&alice(), &bob()));
    assert!(ledger.approve(alice(), bob(), 1));
    assert!(ledger.has_room_for_approval(&alice(), &bob()));
    assert!(ledger.has_room_for_approval(&bob(), &alice()));
}

#[test]
fn a_refused_transfer_adds_no_account() {
    let mut ledger = Erc20::new(100, alice());
    assert_eq!(ledger.try_transfer(bob(), carol(), 1), Some(false));
    assert_eq!(ledger.account_count(), 1);
    assert_eq!(ledger.try_transfer(bob(), carol(), 0), Some(true));
    assert_eq!(ledger.account_count(), 3);
    assert_eq!(ledger.balance_of(alice()), 100);
}

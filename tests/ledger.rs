use songnft::account::{zero_address, AccountId};
use songnft::contract::{Contract, Songnft};
use songnft::error::Error;
use songnft::events::{Event, TransferSingle};
use songnft::receiver::{accepts_batch, accepts_single, SongnftTokenReceiver};
use songnft::store::{ApprovalStore, BalanceStore};

fn alice() -> AccountId {
    AccountId::new([0x01; 32])
}

fn bob() -> AccountId {
    AccountId::new([0x02; 32])
}

fn charlie() -> AccountId {
    AccountId::new([0x03; 32])
}

fn init_contract() -> Contract {
    let mut erc = Contract::new();
    erc.create(alice(), 10, 1).unwrap();
    erc.create(alice(), 20, 2).unwrap();
    erc.create(bob(), 10, 1).unwrap();
    erc
}

#[test]
fn can_get_correct_balance_of() {
    let erc = init_contract();

    assert_eq!(erc.balance_of(alice(), 1), 10);
    assert_eq!(erc.balance_of(alice(), 2), 20);
    assert_eq!(erc.balance_of(alice(), 3), 0);
    assert_eq!(erc.balance_of(bob(), 2), 0);
}

#[test]
fn can_get_correct_batch_balance_of() {
    let erc = init_contract();

    assert_eq!(
        erc.balance_of_batch(vec![alice()], vec![1, 2, 3]),
        vec![10, 20, 0]
    );
    assert_eq!(
        erc.balance_of_batch(vec![alice(), bob()], vec![1]),
        vec![10, 10]
    );

    assert_eq!(
        erc.balance_of_batch(vec![alice(), bob(), charlie()], vec![1, 2]),
        vec![10, 20, 10, 0, 0, 0]
    );
}

#[test]
fn minting_tokens_works() {
    let mut erc = Contract::new();

    assert_eq!(erc.create(alice(), 0, 1u128).unwrap(), 1u128);
    assert_eq!(erc.balance_of(alice(), 1u128), 0);

    assert!(erc.mint(alice(), 1u128, 123).is_ok());
    assert_eq!(erc.balance_of(alice(), 1u128), 123);
}

#[test]
fn minting_not_allowed_for_nonexistent_tokens() {
    let mut erc = Contract::new();

    let res = erc.mint(alice(), 1, 123);
    assert_eq!(res.unwrap_err(), Error::UnexistentTokenOrCallerNotOwner);
}

#[test]
fn fresh_ledger_holds_nothing() {
    let erc = Contract::new();
    assert_eq!(erc.balance_of(alice(), 0), 0);
    assert_eq!(erc.balance_of(bob(), u128::MAX), 0);
    assert!(erc.events().is_empty());
}

#[test]
fn create_emits_transfer_from_no_one() {
    let mut erc = Contract::new();
    assert_eq!(erc.create(alice(), 7, 4), Ok(4));
    assert_eq!(erc.balance_of(alice(), 4), 7);
    assert_eq!(
        erc.events(),
        &vec![Event::TransferSingle(TransferSingle {
            operator: Some(alice()),
            from: None,
            to: Some(alice()),
            token_id: 4,
            value: 7,
        })]
    );
}

#[test]
fn create_with_zero_supply_goes_to_no_one() {
    let mut erc = Contract::new();
    assert_eq!(erc.create(bob(), 0, 9), Ok(9));
    assert_eq!(
        erc.take_events(),
        vec![Event::TransferSingle(TransferSingle {
            operator: Some(bob()),
            from: None,
            to: None,
            token_id: 9,
            value: 0,
        })]
    );
    assert!(erc.events().is_empty());
}

#[test]
fn second_create_fails_and_keeps_balance() {
    let mut erc = Contract::new();
    assert_eq!(erc.create(alice(), 5, 1), Ok(1));
    assert_eq!(erc.create(alice(), 99, 1), Err(Error::TokenAlreadyExists));
    assert_eq!(erc.balance_of(alice(), 1), 5);
    assert_eq!(erc.events().len(), 1);
}

#[test]
fn same_id_created_by_two_accounts_is_two_entries() {
    let mut erc = Contract::new();
    assert_eq!(erc.create(alice(), 5, 1), Ok(1));
    assert_eq!(erc.create(bob(), 8, 1), Ok(1));
    assert_eq!(erc.balance_of(alice(), 1), 5);
    assert_eq!(erc.balance_of(bob(), 1), 8);
}

#[test]
fn mint_overwrites_rather_than_adds() {
    let mut erc = Contract::new();
    erc.create(alice(), 50, 3).unwrap();
    assert_eq!(erc.mint(alice(), 3, 20), Ok(()));
    assert_eq!(erc.balance_of(alice(), 3), 20);
    assert_eq!(erc.mint(alice(), 3, u128::MAX), Ok(()));
    assert_eq!(erc.balance_of(alice(), 3), u128::MAX);
    assert_eq!(
        erc.events().last(),
        Some(&Event::TransferSingle(TransferSingle {
            operator: Some(alice()),
            from: None,
            to: Some(alice()),
            token_id: 3,
            value: u128::MAX,
        }))
    );
}

#[test]
fn mint_by_other_account_fails_and_changes_nothing() {
    let mut erc = Contract::new();
    erc.create(alice(), 50, 3).unwrap();
    assert_eq!(
        erc.mint(bob(), 3, 1),
        Err(Error::UnexistentTokenOrCallerNotOwner)
    );
    assert_eq!(erc.balance_of(alice(), 3), 50);
    assert_eq!(erc.balance_of(bob(), 3), 0);
    assert_eq!(erc.events().len(), 1);
    // Still no entry: a later mint by bob fails too.
    assert_eq!(
        erc.mint(bob(), 3, 1),
        Err(Error::UnexistentTokenOrCallerNotOwner)
    );
}

#[test]
fn batch_with_empty_lists_is_empty() {
    let erc = init_contract();
    assert_eq!(erc.balance_of_batch(vec![], vec![1, 2]), Vec::<u128>::new());
    assert_eq!(erc.balance_of_batch(vec![alice(), bob()], vec![]), Vec::<u128>::new());
    assert_eq!(erc.balance_of_batch(vec![], vec![]), Vec::<u128>::new());
}

#[test]
fn batch_is_cross_product_not_pairing() {
    let erc = init_contract();
    let out = erc.balance_of_batch(vec![bob(), alice()], vec![2, 1]);
    assert_eq!(out, vec![0, 10, 20, 10]);
}

#[test]
fn repeated_queries_agree() {
    let erc = init_contract();
    assert_eq!(erc.balance_of(alice(), 2), erc.balance_of(alice(), 2));
    assert_eq!(
        erc.balance_of_batch(vec![alice(), bob()], vec![1, 2]),
        erc.balance_of_batch(vec![alice(), bob()], vec![1, 2])
    );
}

#[test]
fn ledger_refuses_pushed_tokens() {
    let mut erc = init_contract();
    assert_eq!(erc.on_received(alice(), bob(), 1, 5, vec![1, 2]), None);
    assert_eq!(
        erc.on_batch_received(alice(), bob(), vec![1, 2], vec![5, 6], vec![]),
        None
    );
    assert_eq!(erc.balance_of(alice(), 1), 10);
    assert_eq!(erc.balance_of(bob(), 1), 10);
    assert_eq!(erc.events().len(), 3);
}

#[test]
fn acknowledgements_must_match_exactly() {
    assert!(accepts_single(&vec![0xF2, 0x3A, 0x6E, 0x61]));
    assert!(!accepts_single(&vec![0xBC, 0x19, 0x7C, 0x81]));
    assert!(!accepts_single(&vec![0xF2, 0x3A, 0x6E]));
    assert!(!accepts_single(&vec![0xF2, 0x3A, 0x6E, 0x61, 0x00]));
    assert!(!accepts_single(&vec![]));
    assert!(accepts_batch(&vec![0xBC, 0x19, 0x7C, 0x81]));
    assert!(!accepts_batch(&vec![0xF2, 0x3A, 0x6E, 0x61]));
}

#[test]
fn accounts_compare_byte_for_byte() {
    let mut bytes = [0x01u8; 32];
    assert!(alice().same_as(&AccountId::new(bytes)));
    bytes[31] = 0x02;
    assert!(!alice().same_as(&AccountId::new(bytes)));
    assert!(zero_address().is_zero());
    assert!(!alice().is_zero());
    assert_eq!(zero_address().bytes, [0u8; 32]);
}

#[test]
fn balance_store_defaults_and_overwrites() {
    let mut store = BalanceStore::new();
    assert!(!store.contains(&alice(), 1));
    assert_eq!(store.get(&alice(), 1), 0);
    store.set(&alice(), 1, 0);
    assert!(store.contains(&alice(), 1));
    assert_eq!(store.get(&alice(), 1), 0);
    store.set(&alice(), 1, 42);
    store.set(&bob(), 1, 7);
    assert_eq!(store.get(&alice(), 1), 42);
    assert_eq!(store.get(&bob(), 1), 7);
}

#[test]
fn approval_store_defaults_and_overwrites() {
    let mut store = ApprovalStore::new();
    assert!(!store.get(&alice(), &bob()));
    store.set(&alice(), &bob(), true);
    assert!(store.get(&alice(), &bob()));
    assert!(!store.get(&bob(), &alice()));
    store.set(&alice(), &bob(), false);
    assert!(!store.get(&alice(), &bob()));
}

#[test]
fn default_ledger_is_empty() {
    let erc = Contract::default();
    assert_eq!(erc.balance_of(alice(), 1), 0);
    assert_eq!(erc.balance_of_batch(vec![alice()], vec![1]), vec![0]);
    assert!(erc.events().is_empty());
}

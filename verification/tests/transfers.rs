//! Tests of the synchronous transfer path: authorization, payment
//! checking, the atomic ownership change, and the owner-index bookkeeping.

use nft_registry::approvals::ApprovalMap;
use nft_registry::errors::TransferError;
use nft_registry::nft_core::NonFungibleTokenCore;
use nft_registry::registry::Contract;

fn registry_with_item(owner: &str) -> Contract {
    let mut c = Contract::new("admin".to_string());
    assert!(c.register_token("1".to_string(), owner.to_string(), ApprovalMap::new()));
    c
}

#[test]
fn direct_transfer_moves_ownership_and_updates_index() {
    let mut c = registry_with_item("alice");
    let r = c.nft_transfer(
        "alice".to_string(),
        "bob".to_string(),
        "1".to_string(),
        0,
        None,
        1,
    );
    let refund = r.unwrap();
    assert_eq!(refund.beneficiary, "alice".to_string());
    assert!(refund.approved_account_ids.is_empty());
    assert_eq!(c.owner_of(&"1".to_string()), Some("bob".to_string()));
    assert!(!c.owner_index_contains(&"alice".to_string(), &"1".to_string()));
    assert!(c.owner_index_contains(&"bob".to_string(), &"1".to_string()));
}

#[test]
fn owner_authorized_with_any_sequence_number() {
    let mut c = registry_with_item("alice");
    let r = c.nft_transfer(
        "alice".to_string(),
        "bob".to_string(),
        "1".to_string(),
        999,
        None,
        1,
    );
    assert!(r.is_ok());
    assert_eq!(c.owner_of(&"1".to_string()), Some("bob".to_string()));
}

#[test]
fn operator_with_matching_sequence_can_transfer() {
    let mut c = Contract::new("admin".to_string());
    let mut approvals = ApprovalMap::new();
    approvals.insert("carol".to_string(), 5);
    assert!(c.register_token("1".to_string(), "alice".to_string(), approvals));
    let r = c.nft_transfer(
        "carol".to_string(),
        "bob".to_string(),
        "1".to_string(),
        5,
        None,
        1,
    );
    let refund = r.unwrap();
    assert_eq!(refund.beneficiary, "carol".to_string());
    assert_eq!(refund.approved_account_ids.get(&"carol".to_string()), Some(5));
    assert_eq!(c.owner_of(&"1".to_string()), Some("bob".to_string()));
    // the completed transfer cleared the item's approvals
    assert_eq!(c.approval_of(&"1".to_string(), &"carol".to_string()), None);
}

#[test]
fn mismatched_sequence_is_unauthorized_and_leaves_state() {
    let mut c = Contract::new("admin".to_string());
    let mut approvals = ApprovalMap::new();
    approvals.insert("carol".to_string(), 5);
    assert!(c.register_token("1".to_string(), "alice".to_string(), approvals));
    let r = c.nft_transfer(
        "carol".to_string(),
        "bob".to_string(),
        "1".to_string(),
        4,
        None,
        1,
    );
    assert_eq!(r.err(), Some(TransferError::Unauthorized));
    assert_eq!(c.owner_of(&"1".to_string()), Some("alice".to_string()));
    assert!(c.owner_index_contains(&"alice".to_string(), &"1".to_string()));
    assert!(!c.owner_index_contains(&"bob".to_string(), &"1".to_string()));
    assert_eq!(c.approval_of(&"1".to_string(), &"carol".to_string()), Some(5));
}

#[test]
fn stranger_without_approval_is_unauthorized() {
    let mut c = registry_with_item("alice");
    let r = c.nft_transfer(
        "mallory".to_string(),
        "bob".to_string(),
        "1".to_string(),
        0,
        None,
        1,
    );
    assert_eq!(r.err(), Some(TransferError::Unauthorized));
    assert_eq!(c.owner_of(&"1".to_string()), Some("alice".to_string()));
}

#[test]
fn unknown_item_is_not_found() {
    let mut c = registry_with_item("alice");
    let r = c.nft_transfer(
        "alice".to_string(),
        "bob".to_string(),
        "2".to_string(),
        0,
        None,
        1,
    );
    assert_eq!(r.err(), Some(TransferError::NotFound));
}

#[test]
fn wrong_payment_is_rejected_before_any_change() {
    let mut c = registry_with_item("alice");
    let r = c.nft_transfer(
        "alice".to_string(),
        "bob".to_string(),
        "1".to_string(),
        0,
        None,
        0,
    );
    assert_eq!(r.err(), Some(TransferError::BadPayment));
    let r2 = c.nft_transfer(
        "alice".to_string(),
        "bob".to_string(),
        "1".to_string(),
        0,
        None,
        2,
    );
    assert_eq!(r2.err(), Some(TransferError::BadPayment));
    assert_eq!(c.owner_of(&"1".to_string()), Some("alice".to_string()));
}

#[test]
fn duplicate_registration_is_rejected() {
    let mut c = registry_with_item("alice");
    assert!(!c.register_token("1".to_string(), "bob".to_string(), ApprovalMap::new()));
    assert_eq!(c.owner_of(&"1".to_string()), Some("alice".to_string()));
}

#[test]
fn transfer_ownership_rejects_wrong_source() {
    let mut c = registry_with_item("alice");
    let r = c.transfer_ownership(&"1".to_string(), &"bob".to_string(), &"carol".to_string());
    assert_eq!(r.err(), Some(TransferError::NotOwner));
    assert_eq!(c.owner_of(&"1".to_string()), Some("alice".to_string()));
}

#[test]
fn owner_index_matches_owner_after_series_of_moves() {
    let mut c = Contract::new("admin".to_string());
    assert!(c.register_token("1".to_string(), "alice".to_string(), ApprovalMap::new()));
    assert!(c.register_token("2".to_string(), "alice".to_string(), ApprovalMap::new()));
    assert!(c.register_token("3".to_string(), "bob".to_string(), ApprovalMap::new()));
    c.nft_transfer(
        "alice".to_string(),
        "bob".to_string(),
        "1".to_string(),
        0,
        None,
        1,
    )
    .unwrap();
    c.nft_transfer(
        "bob".to_string(),
        "carol".to_string(),
        "3".to_string(),
        0,
        None,
        1,
    )
    .unwrap();
    // item.owner == o exactly when the owner index lists the item under o
    for id in ["1", "2", "3"] {
        let owner = c.owner_of(&id.to_string()).unwrap();
        for account in ["alice", "bob", "carol"] {
            assert_eq!(
                c.owner_index_contains(&account.to_string(), &id.to_string()),
                owner == *account,
                "index and owner disagree for item {} and account {}",
                id,
                account
            );
        }
    }
}

#[test]
fn approval_map_insert_get_and_duplicate() {
    let mut m = ApprovalMap::new();
    assert!(m.is_empty());
    m.insert("carol".to_string(), 1);
    m.insert("dan".to_string(), 2);
    m.insert("carol".to_string(), 3);
    assert_eq!(m.get(&"carol".to_string()), Some(3));
    assert_eq!(m.get(&"dan".to_string()), Some(2));
    assert_eq!(m.get(&"erin".to_string()), None);
    assert!(!m.is_empty());
    let copy = m.duplicate();
    assert_eq!(copy.get(&"carol".to_string()), Some(3));
    assert_eq!(copy.get(&"dan".to_string()), Some(2));
}

#[test]
fn get_returns_a_snapshot_of_the_item() {
    let mut c = Contract::new("admin".to_string());
    let mut approvals = ApprovalMap::new();
    approvals.insert("carol".to_string(), 5);
    assert!(c.register_token("1".to_string(), "alice".to_string(), approvals));
    let token = c.get(&"1".to_string()).unwrap();
    assert_eq!(token.owner_id, "alice".to_string());
    assert_eq!(token.approved_account_ids.get(&"carol".to_string()), Some(5));
    assert!(c.get(&"2".to_string()).is_none());
}

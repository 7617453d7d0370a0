//! Tests of the transfer-and-notify protocol: the optimistic step, the
//! decoding of the notification response, and the resolution step's
//! decision between keeping and compensating the change.

use nft_registry::approvals::ApprovalMap;
use nft_registry::events::EventLogVariant;
use nft_registry::nft_core::{NonFungibleTokenCore, PendingTransfer};
use nft_registry::registry::Contract;
use nft_registry::resolver::{PromiseOutcome, ResolveAction};

fn registry_with_item(owner: &str) -> Contract {
    let mut c = Contract::new("admin".to_string());
    assert!(c.register_token("1".to_string(), owner.to_string(), ApprovalMap::new()));
    c
}

fn optimistic_transfer(c: &mut Contract, sender: &str) -> PendingTransfer {
    c.nft_transfer_call(
        sender.to_string(),
        "bob".to_string(),
        "1".to_string(),
        0,
        None,
        "payload".to_string(),
        1,
    )
    .unwrap()
}

fn resolve(c: &mut Contract, pending: PendingTransfer, outcome: PromiseOutcome) -> ResolveAction {
    c.nft_resolve_transfer(
        pending.authorized_id,
        pending.previous_owner_id,
        pending.receiver_id,
        pending.token_id,
        pending.approved_account_ids,
        pending.memo,
        outcome,
    )
}

#[test]
fn notify_transfer_by_owner_captures_pending_state() {
    let mut c = registry_with_item("alice");
    let pending = optimistic_transfer(&mut c, "alice");
    assert_eq!(pending.sender_id, "alice".to_string());
    assert_eq!(pending.authorized_id, None);
    assert_eq!(pending.previous_owner_id, "alice".to_string());
    assert_eq!(pending.receiver_id, "bob".to_string());
    assert_eq!(pending.token_id, "1".to_string());
    assert!(pending.approved_account_ids.is_empty());
    assert_eq!(pending.memo, None);
    assert_eq!(pending.msg, "payload".to_string());
    // the optimistic change is already applied
    assert_eq!(c.owner_of(&"1".to_string()), Some("bob".to_string()));
}

#[test]
fn notify_transfer_by_operator_records_authorized_id() {
    let mut c = Contract::new("admin".to_string());
    let mut approvals = ApprovalMap::new();
    approvals.insert("carol".to_string(), 7);
    assert!(c.register_token("1".to_string(), "alice".to_string(), approvals));
    let pending = c
        .nft_transfer_call(
            "carol".to_string(),
            "bob".to_string(),
            "1".to_string(),
            7,
            Some("gift".to_string()),
            "payload".to_string(),
            1,
        )
        .unwrap();
    assert_eq!(pending.authorized_id, Some("carol".to_string()));
    assert_eq!(pending.previous_owner_id, "alice".to_string());
    assert_eq!(pending.approved_account_ids.get(&"carol".to_string()), Some(7));
    assert_eq!(pending.memo, Some("gift".to_string()));
}

#[test]
fn decoded_true_is_final_and_reports_failure() {
    let mut c = registry_with_item("alice");
    let pending = optimistic_transfer(&mut c, "alice");
    let action = resolve(&mut c, pending, PromiseOutcome::Successful(b"true".to_vec()));
    match &action {
        ResolveAction::Settled { transfer_ok } => assert!(!transfer_ok),
        _ => panic!("expected the decoded response to settle the transfer"),
    }
    assert!(!action.transfer_succeeded());
    // no compensation even though the receiver asked for the item back
    assert_eq!(c.owner_of(&"1".to_string()), Some("bob".to_string()));
}

#[test]
fn decoded_false_is_final_and_reports_success() {
    let mut c = registry_with_item("alice");
    let pending = optimistic_transfer(&mut c, "alice");
    let action = resolve(&mut c, pending, PromiseOutcome::Successful(b"false".to_vec()));
    match &action {
        ResolveAction::Settled { transfer_ok } => assert!(*transfer_ok),
        _ => panic!("expected the decoded response to settle the transfer"),
    }
    assert!(action.transfer_succeeded());
    assert_eq!(c.owner_of(&"1".to_string()), Some("bob".to_string()));
}

#[test]
fn failed_notification_rolls_back() {
    let mut c = registry_with_item("alice");
    let pending = optimistic_transfer(&mut c, "alice");
    let action = resolve(&mut c, pending, PromiseOutcome::Failed);
    assert!(!action.transfer_succeeded());
    assert_eq!(c.owner_of(&"1".to_string()), Some("alice".to_string()));
    assert!(c.owner_index_contains(&"alice".to_string(), &"1".to_string()));
    assert!(!c.owner_index_contains(&"bob".to_string(), &"1".to_string()));
    match action {
        ResolveAction::RolledBack { refund, event } => {
            assert_eq!(refund.beneficiary, "bob".to_string());
            assert!(refund.approved_account_ids.is_empty());
            assert_eq!(event.standard, "nep171".to_string());
            assert_eq!(event.version, "1.0.0".to_string());
            let EventLogVariant::NftTransfer(logs) = event.event;
            assert_eq!(logs.len(), 1);
            assert_eq!(logs[0].authorized_id, None);
            assert_eq!(logs[0].old_owner_id, "bob".to_string());
            assert_eq!(logs[0].new_owner_id, "alice".to_string());
            assert_eq!(logs[0].token_ids, vec!["1".to_string()]);
            assert_eq!(logs[0].memo, None);
        },
        _ => panic!("expected a rollback after a failed notification"),
    }
}

#[test]
fn malformed_response_takes_the_conservative_branch() {
    let mut c = registry_with_item("alice");
    let pending = optimistic_transfer(&mut c, "alice");
    let action = resolve(&mut c, pending, PromiseOutcome::Successful(b"not json".to_vec()));
    assert!(!action.transfer_succeeded());
    assert_eq!(c.owner_of(&"1".to_string()), Some("alice".to_string()));
    assert!(matches!(action, ResolveAction::RolledBack { .. }));
}

#[test]
fn race_with_direct_transfer_keeps_current_owner() {
    let mut c = registry_with_item("alice");
    let pending = optimistic_transfer(&mut c, "alice");
    // before resolution runs, the new owner moves the item on
    c.nft_transfer(
        "bob".to_string(),
        "carol".to_string(),
        "1".to_string(),
        0,
        None,
        1,
    )
    .unwrap();
    let action = resolve(&mut c, pending, PromiseOutcome::Failed);
    assert!(action.transfer_succeeded());
    match action {
        ResolveAction::KeptCurrent { refund } => {
            assert_eq!(refund.beneficiary, "alice".to_string());
            assert!(refund.approved_account_ids.is_empty());
        },
        _ => panic!("expected no compensation once the item moved on"),
    }
    assert_eq!(c.owner_of(&"1".to_string()), Some("carol".to_string()));
}

#[test]
fn re_resolution_after_rollback_is_a_no_op() {
    let mut c = registry_with_item("alice");
    let pending = optimistic_transfer(&mut c, "alice");
    let first = resolve(&mut c, pending, PromiseOutcome::Failed);
    assert!(matches!(first, ResolveAction::RolledBack { .. }));
    assert_eq!(c.owner_of(&"1".to_string()), Some("alice".to_string()));
    // replaying the same resolution finds the receiver no longer owning
    // the item and mutates nothing
    let second = c.nft_resolve_transfer(
        None,
        "alice".to_string(),
        "bob".to_string(),
        "1".to_string(),
        ApprovalMap::new(),
        None,
        PromiseOutcome::Failed,
    );
    assert!(matches!(second, ResolveAction::KeptCurrent { .. }));
    assert!(second.transfer_succeeded());
    assert_eq!(c.owner_of(&"1".to_string()), Some("alice".to_string()));
    assert!(c.owner_index_contains(&"alice".to_string(), &"1".to_string()));
    assert!(!c.owner_index_contains(&"bob".to_string(), &"1".to_string()));
}

#[test]
fn rollback_restores_captured_approvals_and_refunds_receiver() {
    // the resolution step invoked on a receiver that meanwhile accumulated
    // approvals of its own: they are refunded to the receiver, and the
    // captured approvals are restored onto the item
    let mut c = Contract::new("admin".to_string());
    let mut receiver_approvals = ApprovalMap::new();
    receiver_approvals.insert("dan".to_string(), 9);
    assert!(c.register_token("1".to_string(), "bob".to_string(), receiver_approvals));
    let mut captured = ApprovalMap::new();
    captured.insert("carol".to_string(), 5);
    let action = c.nft_resolve_transfer(
        Some("carol".to_string()),
        "alice".to_string(),
        "bob".to_string(),
        "1".to_string(),
        captured,
        Some("memo".to_string()),
        PromiseOutcome::Failed,
    );
    assert!(!action.transfer_succeeded());
    assert_eq!(c.owner_of(&"1".to_string()), Some("alice".to_string()));
    assert_eq!(c.approval_of(&"1".to_string(), &"carol".to_string()), Some(5));
    assert_eq!(c.approval_of(&"1".to_string(), &"dan".to_string()), None);
    match action {
        ResolveAction::RolledBack { refund, event } => {
            assert_eq!(refund.beneficiary, "bob".to_string());
            assert_eq!(refund.approved_account_ids.get(&"dan".to_string()), Some(9));
            let EventLogVariant::NftTransfer(logs) = event.event;
            assert_eq!(logs[0].authorized_id, Some("carol".to_string()));
            assert_eq!(logs[0].memo, Some("memo".to_string()));
        },
        _ => panic!("expected a rollback while the receiver still holds the item"),
    }
}

#[test]
fn resolving_a_vanished_item_refunds_previous_owner() {
    let mut c = Contract::new("admin".to_string());
    let mut captured = ApprovalMap::new();
    captured.insert("carol".to_string(), 5);
    let action = c.nft_resolve_transfer(
        None,
        "alice".to_string(),
        "bob".to_string(),
        "missing".to_string(),
        captured,
        None,
        PromiseOutcome::Failed,
    );
    assert!(action.transfer_succeeded());
    match action {
        ResolveAction::KeptCurrent { refund } => {
            assert_eq!(refund.beneficiary, "alice".to_string());
            assert_eq!(refund.approved_account_ids.get(&"carol".to_string()), Some(5));
        },
        _ => panic!("expected no compensation for a vanished item"),
    }
}

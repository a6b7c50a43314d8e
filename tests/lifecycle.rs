use pushnotification::{
    init, prepaid_notification, send, update_and_send, ErrorCode, Identity, Init, MainData,
    PrepaidNotification, Send, UpdateAndSend,
};

fn key(b: u8) -> Identity {
    Identity::new([b; 32])
}

fn vault() -> Identity {
    key(1)
}

fn updater() -> Identity {
    key(2)
}

fn payer() -> Identity {
    key(3)
}

fn payer2() -> Identity {
    key(4)
}

fn boot() -> MainData {
    init(&Init { vault: vault(), payer: payer() }, 100)
}

fn prepaid_accounts() -> PrepaidNotification {
    PrepaidNotification { vault: vault(), updater: updater(), payer: payer() }
}

fn confirm(d: &mut MainData, caller: Identity, id: &str) -> Result<pushnotification::NotificationSent, ErrorCode> {
    update_and_send(
        d,
        &UpdateAndSend { updater: caller, payer: caller },
        id.to_string(),
        "alert".to_string(),
        "abc".to_string(),
    )
}

#[test]
fn bootstrap_sets_configuration() {
    let d = boot();
    assert_eq!(d.fee(), 100);
    assert!(d.vault().same_as(&vault()));
    assert!(d.notification(&"n1".to_string()).is_none());
}

#[test]
fn register_prepaid_creates_record_and_charges_fee() {
    let mut d = boot();
    let t = prepaid_notification(&mut d, &prepaid_accounts(), "n1".to_string()).unwrap();
    assert_eq!(t.amount, 100);
    assert!(t.from.same_as(&payer()));
    assert!(t.to.same_as(&vault()));
    let rec = d.notification(&"n1".to_string()).unwrap();
    assert!(!rec.sent);
    assert!(rec.updater.same_as(&updater()));
}

#[test]
fn register_prepaid_twice_fails_without_second_transfer() {
    let mut d = boot();
    prepaid_notification(&mut d, &prepaid_accounts(), "n1".to_string()).unwrap();
    let again = prepaid_notification(&mut d, &prepaid_accounts(), "n1".to_string());
    assert!(matches!(again, Err(ErrorCode::AlreadyExist)));
    let rec = d.notification(&"n1".to_string()).unwrap();
    assert!(!rec.sent);
    assert!(rec.updater.same_as(&updater()));
}

#[test]
fn confirm_and_send_emits_event() {
    let mut d = boot();
    prepaid_notification(&mut d, &prepaid_accounts(), "n1".to_string()).unwrap();
    let ev = confirm(&mut d, updater(), "n1").unwrap();
    assert_eq!(ev.notification_id, "n1");
    assert_eq!(ev.message_type, "alert");
    assert_eq!(ev.encrypted_payload, "abc");
    let rec = d.notification(&"n1".to_string()).unwrap();
    assert!(rec.sent);
    assert!(rec.updater.same_as(&updater()));
}

#[test]
fn confirm_and_send_twice_fails_already_sent() {
    let mut d = boot();
    prepaid_notification(&mut d, &prepaid_accounts(), "n1".to_string()).unwrap();
    confirm(&mut d, updater(), "n1").unwrap();
    assert!(matches!(confirm(&mut d, updater(), "n1"), Err(ErrorCode::AlreadySent)));
}

#[test]
fn confirm_and_send_unknown_id_fails() {
    let mut d = boot();
    prepaid_notification(&mut d, &prepaid_accounts(), "n1".to_string()).unwrap();
    assert!(matches!(confirm(&mut d, updater(), "n2"), Err(ErrorCode::NotExist)));
    assert!(d.notification(&"n2".to_string()).is_none());
}

#[test]
fn send_immediate_on_fresh_id() {
    let mut d = boot();
    let (t, ev) = send(
        &mut d,
        &Send { vault: vault(), payer: payer2() },
        "n3".to_string(),
        "t".to_string(),
        "p".to_string(),
    )
    .unwrap();
    assert_eq!(t.amount, 100);
    assert!(t.from.same_as(&payer2()));
    assert!(t.to.same_as(&vault()));
    assert_eq!(ev.notification_id, "n3");
    assert_eq!(ev.message_type, "t");
    assert_eq!(ev.encrypted_payload, "p");
    let rec = d.notification(&"n3".to_string()).unwrap();
    assert!(rec.sent);
    assert!(rec.updater.same_as(&payer2()));
}

#[test]
fn confirm_by_other_identity_fails() {
    let mut d = boot();
    prepaid_notification(&mut d, &prepaid_accounts(), "n1".to_string()).unwrap();
    assert!(matches!(confirm(&mut d, payer(), "n1"), Err(ErrorCode::InvalidUpdaterAddress)));
    assert!(!d.notification(&"n1".to_string()).unwrap().sent);
    assert!(confirm(&mut d, updater(), "n1").is_ok());
}

#[test]
fn wrong_vault_is_rejected() {
    let mut d = boot();
    let accounts = PrepaidNotification { vault: key(9), updater: updater(), payer: payer() };
    let r = prepaid_notification(&mut d, &accounts, "n1".to_string());
    assert!(matches!(r, Err(ErrorCode::InvalidVaultAddress)));
    assert!(d.notification(&"n1".to_string()).is_none());
    let s = send(
        &mut d,
        &Send { vault: key(9), payer: payer() },
        "n1".to_string(),
        "t".to_string(),
        "p".to_string(),
    );
    assert!(matches!(s, Err(ErrorCode::InvalidVaultAddress)));
    assert!(d.notification(&"n1".to_string()).is_none());
}

#[test]
fn send_immediate_on_existing_id_fails() {
    let mut d = boot();
    prepaid_notification(&mut d, &prepaid_accounts(), "n1".to_string()).unwrap();
    let s = send(
        &mut d,
        &Send { vault: vault(), payer: payer2() },
        "n1".to_string(),
        "t".to_string(),
        "p".to_string(),
    );
    assert!(matches!(s, Err(ErrorCode::AlreadyExist)));
    let rec = d.notification(&"n1".to_string()).unwrap();
    assert!(!rec.sent);
    assert!(rec.updater.same_as(&updater()));
}

#[test]
fn register_after_send_immediate_fails() {
    let mut d = boot();
    send(&mut d, &Send { vault: vault(), payer: payer2() }, "n3".to_string(), "t".to_string(), "p".to_string())
        .unwrap();
    let r = prepaid_notification(&mut d, &prepaid_accounts(), "n3".to_string());
    assert!(matches!(r, Err(ErrorCode::AlreadyExist)));
}

#[test]
fn send_immediate_record_cannot_be_confirmed_again() {
    let mut d = boot();
    send(&mut d, &Send { vault: vault(), payer: payer2() }, "n3".to_string(), "t".to_string(), "p".to_string())
        .unwrap();
    assert!(matches!(confirm(&mut d, payer2(), "n3"), Err(ErrorCode::AlreadySent)));
    assert!(d.notification(&"n3".to_string()).unwrap().sent);
}

#[test]
fn sent_flag_never_reverts_over_many_calls() {
    let mut d = boot();
    prepaid_notification(&mut d, &prepaid_accounts(), "a".to_string()).unwrap();
    prepaid_notification(&mut d, &prepaid_accounts(), "b".to_string()).unwrap();
    confirm(&mut d, updater(), "a").unwrap();
    let _ = prepaid_notification(&mut d, &prepaid_accounts(), "a".to_string());
    let _ = confirm(&mut d, updater(), "a");
    let _ = send(&mut d, &Send { vault: vault(), payer: payer() }, "a".to_string(), "t".to_string(), "p".to_string());
    assert!(d.notification(&"a".to_string()).unwrap().sent);
    assert!(!d.notification(&"b".to_string()).unwrap().sent);
}

#[test]
fn fees_counted_once_per_created_record() {
    let mut d = boot();
    let mut charged: u64 = 0;
    for id in ["x", "y", "x"] {
        if let Ok(t) = prepaid_notification(&mut d, &prepaid_accounts(), id.to_string()) {
            charged += t.amount;
        }
    }
    if let Ok((t, _)) = send(&mut d, &Send { vault: vault(), payer: payer() }, "z".to_string(), "t".to_string(), "p".to_string()) {
        charged += t.amount;
    }
    confirm(&mut d, updater(), "x").unwrap();
    assert_eq!(charged, 300);
}

#[test]
fn identities_compare_by_every_byte() {
    let a = key(5);
    let mut bytes = [5u8; 32];
    bytes[31] = 6;
    let b = Identity::new(bytes);
    assert!(a.same_as(&key(5)));
    assert!(!a.same_as(&b));
}

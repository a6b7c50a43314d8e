//! The lifecycle operations. Each runs as one atomic unit of the host: where an
//! operation returns a fee transfer, the host carries it out as part of the same
//! transaction, and a failed transfer aborts the whole call.
use crate::identity::Identity;
use crate::state::{ErrorCode, FeeTransfer, MainData, Notification, NotificationSent, RecordState};
use vstd::prelude::*;

verus! {

/// Accounts of `init`.
#[derive(Clone, Copy, Debug)]
pub struct Init {
    /// Destination of every fee.
    pub vault: Identity,
    pub payer: Identity,
}

/// Accounts of `prepaid_notification`.
#[derive(Clone, Copy, Debug)]
pub struct PrepaidNotification {
    /// The vault named by the caller; it must be the configured one.
    pub vault: Identity,
    /// Who may later confirm the notification.
    pub updater: Identity,
    /// Who pays the fee.
    pub payer: Identity,
}

/// Accounts of `update_and_send`.
#[derive(Clone, Copy, Debug)]
pub struct UpdateAndSend {
    /// The signer that claims to be the record's updater.
    pub updater: Identity,
    pub payer: Identity,
}

/// Accounts of `send`.
#[derive(Clone, Copy, Debug)]
pub struct Send {
    /// The vault named by the caller; it must be the configured one.
    pub vault: Identity,
    /// Who pays the fee; recorded as the updater.
    pub payer: Identity,
}

/// A record for `id` exists and is already sent: no event may be emitted for it any more.
pub open spec fn already_sent(reg: Map<Seq<char>, RecordState>, id: Seq<char>) -> bool {
    reg.contains_key(id) && reg[id].sent
}

/// How the registry may change in one step: no record disappears, no updater
/// changes, and no sent flag goes back to false.
pub open spec fn evolves(a: Map<Seq<char>, RecordState>, b: Map<Seq<char>, RecordState>) -> bool {
    forall|id: Seq<char>| #[trigger]
        a.contains_key(id) ==> b.contains_key(id) && b[id].updater == a[id].updater && (
        a[id].sent ==> b[id].sent)
}

/// Creates the configuration: every fee goes to `accounts.vault`, and the registry is empty.
pub fn init(accounts: &Init, fee: u64) -> (r: MainData)
    ensures
        r.wf(),
        r.vault_spec() == accounts.vault,
        r.fee_spec() == fee,
        r.registry() == Map::<Seq<char>, RecordState>::empty(),
{
    MainData::new(accounts.vault, fee)
}

/// Registers `notification_id` as paid, to be confirmed later by `accounts.updater`.
/// On success the returned transfer moves the fee from the payer to the vault.
pub fn prepaid_notification(
    main_data: &mut MainData,
    accounts: &PrepaidNotification,
    notification_id: String,
) -> (r: Result<FeeTransfer, ErrorCode>)
    requires
        old(main_data).wf(),
    ensures
        final(main_data).wf(),
        final(main_data).vault_spec() == old(main_data).vault_spec(),
        final(main_data).fee_spec() == old(main_data).fee_spec(),
        evolves(old(main_data).registry(), final(main_data).registry()),
        accounts.vault != old(main_data).vault_spec() ==> r == Err::<FeeTransfer, ErrorCode>(
            ErrorCode::InvalidVaultAddress,
        ),
        accounts.vault == old(main_data).vault_spec() && old(main_data).registry().contains_key(
            notification_id@,
        ) ==> r == Err::<FeeTransfer, ErrorCode>(ErrorCode::AlreadyExist),
        accounts.vault == old(main_data).vault_spec() && !old(main_data).registry().contains_key(
            notification_id@,
        ) ==> r == Ok::<FeeTransfer, ErrorCode>(
            FeeTransfer {
                from: accounts.payer,
                to: old(main_data).vault_spec(),
                amount: old(main_data).fee_spec(),
            },
        ) && final(main_data).registry() == old(main_data).registry().insert(
            notification_id@,
            RecordState { sent: false, updater: accounts.updater },
        ),
        r is Ok <==> accounts.vault == old(main_data).vault_spec() && !old(
            main_data,
        ).registry().contains_key(notification_id@),
        r is Ok ==> final(main_data).registry().dom() == old(main_data).registry().dom().insert(
            notification_id@,
        ),
        r is Err ==> *final(main_data) == *old(main_data),
{
    if !accounts.vault.same_as(&main_data.vault()) {
        return Err(ErrorCode::InvalidVaultAddress);
    }
    if main_data.find(&notification_id).is_some() {
        return Err(ErrorCode::AlreadyExist);
    }
    let transfer = FeeTransfer { from: accounts.payer, to: main_data.vault(), amount: main_data.fee() };
    let ghost id = notification_id@;
    let n = Notification { notification_id, sent: false, updater: accounts.updater };
    main_data.insert_new(n);
    assert(main_data.registry().dom() =~= old(main_data).registry().dom().insert(id));
    Ok(transfer)
}

/// Confirms the prepaid notification `notification_id` and discloses its content:
/// only its designated updater may do so, and only once.
pub fn update_and_send(
    main_data: &mut MainData,
    accounts: &UpdateAndSend,
    notification_id: String,
    message_type: String,
    encrypted_payload: String,
) -> (r: Result<NotificationSent, ErrorCode>)
    requires
        old(main_data).wf(),
    ensures
        final(main_data).wf(),
        final(main_data).vault_spec() == old(main_data).vault_spec(),
        final(main_data).fee_spec() == old(main_data).fee_spec(),
        evolves(old(main_data).registry(), final(main_data).registry()),
        !old(main_data).registry().contains_key(notification_id@) ==> r == Err::<
            NotificationSent,
            ErrorCode,
        >(ErrorCode::NotExist),
        old(main_data).registry().contains_key(notification_id@) && old(
            main_data,
        ).registry()[notification_id@].updater != accounts.updater ==> r == Err::<
            NotificationSent,
            ErrorCode,
        >(ErrorCode::InvalidUpdaterAddress),
        old(main_data).registry().contains_key(notification_id@) && old(
            main_data,
        ).registry()[notification_id@].updater == accounts.updater && old(
            main_data,
        ).registry()[notification_id@].sent ==> r == Err::<NotificationSent, ErrorCode>(
            ErrorCode::AlreadySent,
        ),
        r is Ok <==> old(main_data).registry().contains_key(notification_id@) && !old(
            main_data,
        ).registry()[notification_id@].sent && old(main_data).registry()[notification_id@].updater
            == accounts.updater,
        r is Ok ==> final(main_data).registry() == old(main_data).registry().insert(
            notification_id@,
            RecordState { sent: true, updater: accounts.updater },
        ) && !already_sent(old(main_data).registry(), notification_id@) && already_sent(
            final(main_data).registry(),
            notification_id@,
        ),
        r matches Ok(ev) ==> ev.notification_id@ == notification_id@ && ev.message_type@
            == message_type@ && ev.encrypted_payload@ == encrypted_payload@,
        final(main_data).registry().dom() == old(main_data).registry().dom(),
        r is Err ==> *final(main_data) == *old(main_data),
{
    let i = match main_data.find(&notification_id) {
        Some(i) => i,
        None => {
            return Err(ErrorCode::NotExist);
        },
    };
    proof {
        crate::state::lemma_registry_at(main_data.records(), i as int);
    }
    let current = main_data.state_at(i);
    if !accounts.updater.same_as(&current.updater) {
        return Err(ErrorCode::InvalidUpdaterAddress);
    }
    if current.sent {
        return Err(ErrorCode::AlreadySent);
    }
    main_data.mark_sent(i);
    assert(main_data.registry().dom() =~= old(main_data).registry().dom());
    Ok(NotificationSent { notification_id, message_type, encrypted_payload })
}

/// Pays for and discloses `notification_id` in one step. The payer is recorded
/// as the updater, and the record is created already sent.
pub fn send(
    main_data: &mut MainData,
    accounts: &Send,
    notification_id: String,
    message_type: String,
    encrypted_payload: String,
) -> (r: Result<(FeeTransfer, NotificationSent), ErrorCode>)
    requires
        old(main_data).wf(),
    ensures
        final(main_data).wf(),
        final(main_data).vault_spec() == old(main_data).vault_spec(),
        final(main_data).fee_spec() == old(main_data).fee_spec(),
        evolves(old(main_data).registry(), final(main_data).registry()),
        accounts.vault != old(main_data).vault_spec() ==> r == Err::<
            (FeeTransfer, NotificationSent),
            ErrorCode,
        >(ErrorCode::InvalidVaultAddress),
        accounts.vault == old(main_data).vault_spec() && old(main_data).registry().contains_key(
            notification_id@,
        ) ==> r == Err::<(FeeTransfer, NotificationSent), ErrorCode>(ErrorCode::AlreadyExist),
        r is Ok <==> accounts.vault == old(main_data).vault_spec() && !old(
            main_data,
        ).registry().contains_key(notification_id@),
        r is Ok ==> final(main_data).registry() == old(main_data).registry().insert(
            notification_id@,
            RecordState { sent: true, updater: accounts.payer },
        ) && !already_sent(old(main_data).registry(), notification_id@) && already_sent(
            final(main_data).registry(),
            notification_id@,
        ),
        r is Ok ==> final(main_data).registry().dom() == old(main_data).registry().dom().insert(
            notification_id@,
        ),
        r matches Ok((t, ev)) ==> t == (FeeTransfer {
            from: accounts.payer,
            to: old(main_data).vault_spec(),
            amount: old(main_data).fee_spec(),
        }) && ev.notification_id@ == notification_id@ && ev.message_type@ == message_type@
            && ev.encrypted_payload@ == encrypted_payload@,
        r is Err ==> *final(main_data) == *old(main_data),
{
    if !accounts.vault.same_as(&main_data.vault()) {
        return Err(ErrorCode::InvalidVaultAddress);
    }
    if main_data.find(&notification_id).is_some() {
        return Err(ErrorCode::AlreadyExist);
    }
    let transfer = FeeTransfer { from: accounts.payer, to: main_data.vault(), amount: main_data.fee() };
    let n = Notification { notification_id: notification_id.clone(), sent: true, updater: accounts.payer };
    main_data.insert_new(n);
    assert(main_data.registry().dom() =~= old(main_data).registry().dom().insert(notification_id@));
    Ok((transfer, NotificationSent { notification_id, message_type, encrypted_payload }))
}

} // verus!

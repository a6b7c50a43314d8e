use crate::identity::Identity;
use vstd::prelude::*;

verus! {

/// What the registry keeps for one notification id.
#[derive(Clone, Copy, Debug)]
pub struct RecordState {
    pub sent: bool,
    pub updater: Identity,
}

/// A stored notification record, as a mathematical value.
pub struct NotificationView {
    pub id: Seq<char>,
    pub sent: bool,
    pub updater: Identity,
}

/// A stored notification record.
pub struct Notification {
    pub notification_id: String,
    pub sent: bool,
    pub updater: Identity,
}

impl View for Notification {
    type V = NotificationView;

    open spec fn view(&self) -> NotificationView {
        NotificationView { id: self.notification_id@, sent: self.sent, updater: self.updater }
    }
}

/// The delivery event: emitted once, when a notification becomes sent.
pub struct NotificationSent {
    pub notification_id: String,
    pub message_type: String,
    pub encrypted_payload: String,
}

/// A movement of `amount` base units from `from` to `to`, for the host ledger to carry out.
#[derive(Clone, Copy, Debug)]
pub struct FeeTransfer {
    pub from: Identity,
    pub to: Identity,
    pub amount: u64,
}

/// Why an operation was refused; a refused operation changes nothing.
#[derive(Clone, Copy, Debug, PartialEq, Eq, Structural)]
pub enum ErrorCode {
    AlreadySent,
    InvalidVaultAddress,
    InvalidUpdaterAddress,
    AlreadyExist,
    NotExist,
}

/// No two records of `s` share an id.
pub open spec fn ids_unique(s: Seq<NotificationView>) -> bool {
    forall|i: int, j: int|
        0 <= i < s.len() && 0 <= j < s.len() && i != j ==> s[i].id != s[j].id
}

pub open spec fn holds_id(s: Seq<NotificationView>, id: Seq<char>) -> bool {
    exists|i: int| 0 <= i < s.len() && s[i].id == id
}

pub open spec fn state_of(v: NotificationView) -> RecordState {
    RecordState { sent: v.sent, updater: v.updater }
}

/// The registry that a sequence of records stands for: id to record state.
pub open spec fn registry_of(s: Seq<NotificationView>) -> Map<Seq<char>, RecordState> {
    Map::new(
        |id: Seq<char>| holds_id(s, id),
        |id: Seq<char>| state_of(s[choose|i: int| 0 <= i < s.len() && s[i].id == id]),
    )
}

pub proof fn lemma_registry_at(s: Seq<NotificationView>, i: int)
    requires
        ids_unique(s),
        0 <= i < s.len(),
    ensures
        registry_of(s).contains_key(s[i].id),
        registry_of(s)[s[i].id] == state_of(s[i]),
{
    let id = s[i].id;
    assert(holds_id(s, id));
    let k = choose|k: int| 0 <= k < s.len() && s[k].id == id;
    assert(k == i);
}

pub proof fn lemma_registry_push(s: Seq<NotificationView>, v: NotificationView)
    requires
        ids_unique(s),
        !holds_id(s, v.id),
    ensures
        ids_unique(s.push(v)),
        registry_of(s.push(v)) == registry_of(s).insert(v.id, state_of(v)),
{
    let t = s.push(v);
    assert forall|i: int, j: int| 0 <= i < t.len() && 0 <= j < t.len() && i != j implies t[i].id
        != t[j].id by {
        if i == s.len() {
            assert(s[j].id == t[j].id);
        } else if j == s.len() {
            assert(s[i].id == t[i].id);
        }
    }
    assert forall|id: Seq<char>| #[trigger] holds_id(t, id) == (holds_id(s, id) || id == v.id) by {
        if holds_id(s, id) {
            let k = choose|k: int| 0 <= k < s.len() && s[k].id == id;
            assert(t[k].id == id);
        }
        if id == v.id {
            assert(t[s.len() as int].id == id);
        }
        if holds_id(t, id) && id != v.id {
            let k = choose|k: int| 0 <= k < t.len() && t[k].id == id;
            assert(s[k].id == id);
        }
    }
    assert forall|id: Seq<char>| #[trigger] registry_of(t).contains_key(id) implies registry_of(t)[id]
        == registry_of(s).insert(v.id, state_of(v))[id] by {
        if id == v.id {
            lemma_registry_at(t, s.len() as int);
        } else {
            let k = choose|k: int| 0 <= k < s.len() && s[k].id == id;
            assert(t[k] == s[k]);
            lemma_registry_at(t, k);
            lemma_registry_at(s, k);
        }
    }
    assert(registry_of(t) =~= registry_of(s).insert(v.id, state_of(v)));
}

pub proof fn lemma_registry_update(s: Seq<NotificationView>, i: int, v: NotificationView)
    requires
        ids_unique(s),
        0 <= i < s.len(),
        v.id == s[i].id,
    ensures
        ids_unique(s.update(i, v)),
        registry_of(s.update(i, v)) == registry_of(s).insert(v.id, state_of(v)),
{
    let t = s.update(i, v);
    assert forall|a: int, b: int| 0 <= a < t.len() && 0 <= b < t.len() && a != b implies t[a].id
        != t[b].id by {
        assert(t[a].id == s[a].id);
        assert(t[b].id == s[b].id);
    }
    assert forall|id: Seq<char>| #[trigger] holds_id(t, id) == holds_id(s, id) by {
        if holds_id(s, id) {
            let k = choose|k: int| 0 <= k < s.len() && s[k].id == id;
            assert(t[k].id == id);
        }
        if holds_id(t, id) {
            let k = choose|k: int| 0 <= k < t.len() && t[k].id == id;
            assert(s[k].id == id);
        }
    }
    assert forall|id: Seq<char>| #[trigger] registry_of(t).contains_key(id) implies registry_of(t)[id]
        == registry_of(s).insert(v.id, state_of(v))[id] by {
        let k = choose|k: int| 0 <= k < t.len() && t[k].id == id;
        lemma_registry_at(t, k);
        if k != i {
            lemma_registry_at(s, k);
        }
    }
    assert(registry_of(t) =~= registry_of(s).insert(v.id, state_of(v)));
}

/// The protocol's shared state: the fee, the vault that collects it, and the
/// registry of notifications.
pub struct MainData {
    vault: Identity,
    fee: u64,
    notifications: Vec<Notification>,
}

impl MainData {
    pub closed spec fn vault_spec(&self) -> Identity {
        self.vault
    }

    pub closed spec fn fee_spec(&self) -> u64 {
        self.fee
    }

    /// The stored records, in order of creation.
    pub closed spec fn records(&self) -> Seq<NotificationView> {
        self.notifications@.map_values(|n: Notification| n@)
    }

    /// The registry: notification id to record state.
    pub open spec fn registry(&self) -> Map<Seq<char>, RecordState> {
        registry_of(self.records())
    }

    /// Well-formed: at most one record per id.
    pub open spec fn wf(&self) -> bool {
        ids_unique(self.records())
    }

    /// Configuration with an empty registry.
    pub fn new(vault: Identity, fee: u64) -> (r: MainData)
        ensures
            r.wf(),
            r.vault_spec() == vault,
            r.fee_spec() == fee,
            r.records() == Seq::<NotificationView>::empty(),
            r.registry() == Map::<Seq<char>, RecordState>::empty(),
    {
        let r = MainData { vault, fee, notifications: Vec::new() };
        assert(r.records() =~= Seq::<NotificationView>::empty());
        assert(r.registry() =~= Map::<Seq<char>, RecordState>::empty());
        r
    }

    /// Rebuilds the state from stored parts; `None` where two records share an id.
    pub fn from_parts(vault: Identity, fee: u64, notifications: Vec<Notification>) -> (r: Option<
        MainData,
    >)
        ensures
            r is Some <==> ids_unique(notifications@.map_values(|n: Notification| n@)),
            r matches Some(d) ==> d.wf() && d.vault_spec() == vault && d.fee_spec() == fee
                && d.records() == notifications@.map_values(|n: Notification| n@),
    {
        let ghost s = notifications@.map_values(|n: Notification| n@);
        let mut i: usize = 0;
        while i < notifications.len()
            invariant
                0 <= i <= notifications.len(),
                s == notifications@.map_values(|n: Notification| n@),
                ids_unique(s.take(i as int)),
            decreases notifications.len() - i,
        {
            let mut j: usize = 0;
            while j < i
                invariant
                    0 <= j <= i < notifications.len(),
                    s == notifications@.map_values(|n: Notification| n@),
                    forall|k: int| 0 <= k < j ==> s[k].id != s[i as int].id,
                decreases i - j,
            {
                if notifications[j].notification_id == notifications[i].notification_id {
                    assert(s[j as int].id == s[i as int].id);
                    assert(!ids_unique(s));
                    return None;
                }
                j = j + 1;
            }
            assert(ids_unique(s.take(i + 1))) by {
                let t = s.take(i + 1);
                assert forall|a: int, b: int|
                    0 <= a < t.len() && 0 <= b < t.len() && a != b implies t[a].id != t[b].id by {
                    if a < i && b < i {
                        assert(s.take(i as int)[a] == t[a]);
                        assert(s.take(i as int)[b] == t[b]);
                    }
                }
            }
            i = i + 1;
        }
        assert(s.take(i as int) =~= s);
        let d = MainData { vault, fee, notifications };
        Some(d)
    }

    /// The stored records, in order of creation.
    pub fn notifications(&self) -> (r: &Vec<Notification>)
        ensures
            r@.map_values(|n: Notification| n@) == self.records(),
    {
        &self.notifications
    }

    pub fn vault(&self) -> (r: Identity)
        ensures
            r == self.vault_spec(),
    {
        self.vault
    }

    pub fn fee(&self) -> (r: u64)
        ensures
            r == self.fee_spec(),
    {
        self.fee
    }

    /// The state of the record with id `id`, if there is one.
    pub fn notification(&self, id: &String) -> (r: Option<RecordState>)
        requires
            self.wf(),
        ensures
            r == (if self.registry().contains_key(id@) {
                Some(self.registry()[id@])
            } else {
                None::<RecordState>
            }),
    {
        match self.find(id) {
            Some(i) => {
                proof {
                    lemma_registry_at(self.records(), i as int);
                }
                Some(self.state_at(i))
            },
            None => None,
        }
    }

    pub(crate) fn state_at(&self, i: usize) -> (r: RecordState)
        requires
            i < self.records().len(),
        ensures
            r == state_of(self.records()[i as int]),
    {
        RecordState { sent: self.notifications[i].sent, updater: self.notifications[i].updater }
    }

    /// Appends a record whose id is not yet present.
    pub(crate) fn insert_new(&mut self, n: Notification)
        requires
            old(self).wf(),
            !holds_id(old(self).records(), n@.id),
        ensures
            final(self).wf(),
            final(self).vault_spec() == old(self).vault_spec(),
            final(self).fee_spec() == old(self).fee_spec(),
            final(self).registry() == old(self).registry().insert(n@.id, state_of(n@)),
    {
        proof {
            lemma_registry_push(self.records(), n@);
        }
        self.notifications.push(n);
        assert(self.records() =~= old(self).records().push(n@));
    }

    /// Sets the sent flag of the record at position `i`.
    pub(crate) fn mark_sent(&mut self, i: usize)
        requires
            old(self).wf(),
            i < old(self).records().len(),
        ensures
            final(self).wf(),
            final(self).vault_spec() == old(self).vault_spec(),
            final(self).fee_spec() == old(self).fee_spec(),
            final(self).registry() == old(self).registry().insert(
                old(self).records()[i as int].id,
                RecordState { sent: true, updater: old(self).records()[i as int].updater },
            ),
    {
        let id = self.notifications[i].notification_id.clone();
        let updater = self.notifications[i].updater;
        let n = Notification { notification_id: id, sent: true, updater };
        proof {
            lemma_registry_update(self.records(), i as int, n@);
        }
        self.notifications.set(i, n);
        assert(self.records() =~= old(self).records().update(i as int, n@));
    }

    /// The position of the record with id `id`, if there is one.
    pub(crate) fn find(&self, id: &String) -> (r: Option<usize>)
        ensures
            match r {
                Some(i) => i < self.records().len() && self.records()[i as int].id == id@,
                None => !holds_id(self.records(), id@),
            },
    {
        let mut i: usize = 0;
        while i < self.notifications.len()
            invariant
                0 <= i <= self.notifications.len(),
                forall|k: int| 0 <= k < i ==> self.records()[k].id != id@,
            decreases self.notifications.len() - i,
        {
            if self.notifications[i].notification_id == *id {
                return Some(i);
            }
            i = i + 1;
        }
        None
    }
}

} // verus!

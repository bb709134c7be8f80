use vstd::prelude::*;

use crate::device::{
    device_row_failure, device_view_of_row, map_device_at, map_rows_at, valid_device_rows, DeviceRow, DeviceView,
    DeviceWrite, ListDevices, SessionRow, SessionWrite,
};
use crate::role::{resolve_role_lookup_at, DetailedRoleView, GetRole, RoleRow, RoleWrite};
use crate::id::Identifiable;
use crate::role::Role;
use crate::source::{CorruptRecord, Lookup};

verus! {

/// The identifiers in quarantine after an idempotent insert of `id`.
pub open spec fn quarantine_insert(ids: Seq<u128>, id: u128) -> Seq<u128> {
    if ids.contains(id) {
        ids
    } else {
        ids.push(id)
    }
}

/// Putting the same identifier in quarantine twice leaves exactly one entry for it: the
/// second insert changes nothing.
pub proof fn lemma_quarantine_idempotent(before: Seq<u128>, once: Seq<u128>, twice: Seq<u128>, id: u128)
    requires
        before.no_duplicates(),
        once == quarantine_insert(before, id),
        twice == quarantine_insert(once, id),
    ensures
        twice == once,
        twice.contains(id),
        twice.no_duplicates(),
{
    if !before.contains(id) {
        assert(once.last() == id);
        assert(once.contains(id));
        assert forall|i: int, j: int| 0 <= i < once.len() && 0 <= j < once.len() && i != j implies once[i] != once[j] by {
            if i == before.len() as int {
                assert(before.contains(once[j]));
            } else if j == before.len() as int {
                assert(before.contains(once[i]));
            }
        }
    }
}

/// The row a role write leaves in the store: `first_version` is the one given.
pub open spec fn role_row_from_write(w: RoleWrite, first_version: crate::source::RecordVersion) -> RoleRow {
    RoleRow {
        id: w.id,
        version: w.version,
        first_version,
        name: w.name,
        level: w.level,
        privileges: w.privileges,
    }
}

/// The session row a device write stores.
pub open spec fn session_row_from_write(s: Option<SessionWrite>) -> Option<SessionRow> {
    match s {
        Some(s) => Some(SessionRow { token: s.token, user_id: s.user_id, expiration: s.expiration }),
        None => None,
    }
}

/// The row a device write leaves in the store: `first_version` is the one given.
pub open spec fn device_row_from_write(w: DeviceWrite, first_version: crate::source::RecordVersion) -> DeviceRow {
    DeviceRow {
        token: w.token,
        version: w.version,
        first_version,
        name: w.name,
        session: session_row_from_write(w.session),
        status: w.status,
    }
}

/// A device row with its session dropped where that session has expired by `now`.
pub open spec fn purged(d: DeviceRow, now: i64) -> DeviceRow {
    match d.session {
        Some(s) => if s.expiration <= now {
            DeviceRow { session: None, ..d }
        } else {
            d
        },
        None => d,
    }
}

/// Whether a listing with status filter `status` includes a row with status code `code`.
pub open spec fn status_selects(status: Option<i16>, code: i16) -> bool {
    match status {
        Some(s) => s == code,
        None => true,
    }
}

/// The rows a listing reads: every stored device, expired sessions purged, that the filter selects.
pub open spec fn listed_rows(devices: Seq<DeviceRow>, status: Option<i16>, now: i64) -> Seq<DeviceRow> {
    devices.filter_map(|d: DeviceRow| if status_selects(status, d.status) { Some(purged(d, now)) } else { None })
}

/// The device rows a listing leaves in the store: every stored row with its expired
/// session purged, but for the invalid ones that the filter selects.
pub open spec fn kept_rows(devices: Seq<DeviceRow>, status: Option<i16>, now: i64) -> Seq<DeviceRow> {
    devices.filter_map(|d: DeviceRow|
        if status_selects(status, purged(d, now).status) && device_row_failure(purged(d, now), now) is Some {
            None
        } else {
            Some(purged(d, now))
        })
}

/// No two device rows share a token.
pub open spec fn distinct_tokens(devices: Seq<DeviceRow>) -> bool {
    forall|i: int, j: int|
        0 <= i < devices.len() && 0 <= j < devices.len() && i != j
            ==> #[trigger] devices[i].token@ != #[trigger] devices[j].token@
}

/// An in-memory backend: role rows, device rows and the quarantine table, with the upsert,
/// quarantine and purge behaviour of the persistent store.
pub struct MemorySource {
    roles: Vec<RoleRow>,
    quarantine: Vec<CorruptRecord>,
    devices: Vec<DeviceRow>,
}

fn copy_strings(v: &Vec<String>) -> (r: Vec<String>)
    ensures
        r@ == v@,
{
    let mut out: Vec<String> = Vec::new();
    let mut i: usize = 0;
    while i < v.len()
        invariant
            0 <= i <= v.len(),
            out@ == v@.subrange(0, i as int),
        decreases v.len() - i,
    {
        out.push(v[i].clone());
        i += 1;
        assert(out@ =~= v@.subrange(0, i as int));
    }
    assert(v@.subrange(0, i as int) =~= v@);
    out
}

fn copy_role_row(row: &RoleRow) -> (r: RoleRow)
    ensures
        r.id == row.id,
        r.version == row.version,
        r.first_version == row.first_version,
        r.name == row.name,
        r.level == row.level,
        r.privileges@ == row.privileges@,
{
    RoleRow {
        id: row.id,
        version: row.version,
        first_version: row.first_version,
        name: row.name.clone(),
        level: row.level,
        privileges: copy_strings(&row.privileges),
    }
}

fn purge_row(row: &DeviceRow, now: i64) -> (r: DeviceRow)
    ensures
        r == purged(*row, now),
{
    let session = match &row.session {
        Some(s) => if s.expiration <= now {
            None
        } else {
            Some(SessionRow { token: s.token.clone(), user_id: s.user_id, expiration: s.expiration })
        },
        None => None,
    };
    DeviceRow {
        token: row.token.clone(),
        version: row.version,
        first_version: row.first_version,
        name: row.name.clone(),
        session,
        status: row.status,
    }
}

impl MemorySource {
    pub closed spec fn roles(&self) -> Seq<RoleRow> {
        self.roles@
    }

    /// The quarantine table: identifier, entity name and description of each entry.
    pub closed spec fn quarantine_entries(&self) -> Seq<(u128, Seq<char>, Seq<char>)> {
        self.quarantine@.map_values(|c: CorruptRecord| (c.id, c.model@, c.description@))
    }

    pub closed spec fn quarantined(&self) -> Seq<u128> {
        self.quarantine@.map_values(|c: CorruptRecord| c.id)
    }

    pub closed spec fn devices(&self) -> Seq<DeviceRow> {
        self.devices@
    }

    /// Role identifiers are unique, and so are the identifiers in quarantine.
    pub open spec fn wf(&self) -> bool {
        &&& self.quarantined().no_duplicates()
        &&& forall|i: int, j: int|
            0 <= i < self.roles().len() && 0 <= j < self.roles().len() && i != j
                ==> #[trigger] self.roles()[i].id != #[trigger] self.roles()[j].id
        &&& distinct_tokens(self.devices())
    }

    /// Whether the `k`-th role row is live and matches the lookup.
    pub open spec fn role_matches(&self, q: GetRole, k: int) -> bool {
        &&& 0 <= k < self.roles().len()
        &&& !self.quarantined().contains(self.roles()[k].id)
        &&& (q.spec_id() == Some(self.roles()[k].id) || q.spec_name() == Some(self.roles()[k].name@))
    }

    pub fn new() -> (r: MemorySource)
        ensures
            r.wf(),
            r.roles().len() == 0,
            r.quarantined().len() == 0,
            r.devices().len() == 0,
    {
        let r = MemorySource { roles: Vec::new(), quarantine: Vec::new(), devices: Vec::new() };
        assert(r.quarantined() =~= Seq::<u128>::empty());
        r
    }

    pub fn is_quarantined(&self, id: u128) -> (r: bool)
        ensures
            r == self.quarantined().contains(id),
    {
        let mut i: usize = 0;
        while i < self.quarantine.len()
            invariant
                0 <= i <= self.quarantine.len(),
                forall|j: int| 0 <= j < i ==> self.quarantined()[j] != id,
            decreases self.quarantine.len() - i,
        {
            if self.quarantine[i].id == id {
                assert(self.quarantined()[i as int] == id);
                return true;
            }
            i += 1;
        }
        false
    }

    /// The identifiers in quarantine, in the order they were put there.
    pub fn quarantined_ids(&self) -> (r: Vec<u128>)
        ensures
            r@ == self.quarantined(),
    {
        let mut out: Vec<u128> = Vec::new();
        let mut i: usize = 0;
        while i < self.quarantine.len()
            invariant
                0 <= i <= self.quarantine.len(),
                out@ == self.quarantined().subrange(0, i as int),
            decreases self.quarantine.len() - i,
        {
            out.push(self.quarantine[i].id);
            i += 1;
            assert(out@ =~= self.quarantined().subrange(0, i as int));
        }
        assert(self.quarantined().subrange(0, i as int) =~= self.quarantined());
        out
    }

    /// Puts a row in quarantine; an identifier already there is left as it is.
    pub fn add_corrupt_record(&mut self, record: CorruptRecord) -> (r: bool)
        requires
            old(self).wf(),
        ensures
            final(self).wf(),
            final(self).quarantined() == quarantine_insert(old(self).quarantined(), record.id),
            final(self).quarantine_entries() == if old(self).quarantined().contains(record.id) {
                old(self).quarantine_entries()
            } else {
                old(self).quarantine_entries().push((record.id, record.model@, record.description@))
            },
            r == !old(self).quarantined().contains(record.id),
            final(self).roles() == old(self).roles(),
            final(self).devices() == old(self).devices(),
    {
        if self.is_quarantined(record.id) {
            return false;
        }
        let ghost before = self.quarantined();
        let ghost entries = self.quarantine_entries();
        let ghost entry = (record.id, record.model@, record.description@);
        let id = record.id;
        self.quarantine.push(record);
        assert(self.quarantined() =~= before.push(id));
        assert(self.quarantine_entries() =~= entries.push(entry));
        proof {
            assert(before.push(id)[before.len() as int] == id);
            assert(before.push(id).contains(id));
            lemma_quarantine_idempotent(before, before.push(id), before.push(id), id);
            assert(self.quarantined().no_duplicates());
            assert(self.roles() == old(self).roles());
        }
        true
    }

    /// Upserts a role row keyed by identifier: a new row takes the written version as its
    /// first version too; an existing row keeps its first version.
    pub fn write_role(&mut self, w: RoleWrite)
        requires
            old(self).wf(),
        ensures
            final(self).wf(),
            final(self).quarantined() == old(self).quarantined(),
            final(self).quarantine_entries() == old(self).quarantine_entries(),
            final(self).devices() == old(self).devices(),
            forall|k: int| 0 <= k < old(self).roles().len() && old(self).roles()[k].id == w.id
                ==> final(self).roles() == old(self).roles().update(k, role_row_from_write(w, old(self).roles()[k].first_version)),
            (forall|k: int| 0 <= k < old(self).roles().len() ==> old(self).roles()[k].id != w.id)
                ==> final(self).roles() == old(self).roles().push(role_row_from_write(w, w.version)),
    {
        let mut i: usize = 0;
        while i < self.roles.len()
            invariant
                0 <= i <= self.roles.len(),
                *self == *old(self),
                self.wf(),
                forall|j: int| 0 <= j < i ==> self.roles()[j].id != w.id,
            decreases self.roles.len() - i,
        {
            if self.roles[i].id == w.id {
                let first_version = self.roles[i].first_version;
                let ghost spec_row = role_row_from_write(w, first_version);
                let row = RoleRow {
                    id: w.id,
                    version: w.version,
                    first_version,
                    name: w.name,
                    level: w.level,
                    privileges: w.privileges,
                };
                assert(row == spec_row);
                let ghost before = self.roles();
                self.roles.set(i, row);
                assert(self.roles() == before.update(i as int, spec_row));
                assert forall|a: int, b: int|
                    0 <= a < self.roles().len() && 0 <= b < self.roles().len() && a != b
                    implies #[trigger] self.roles()[a].id != #[trigger] self.roles()[b].id by {
                    if a != i as int && b != i as int {
                        assert(before[a].id != before[b].id);
                    } else if a == i as int {
                        assert(before[i as int].id != before[b].id);
                    } else {
                        assert(before[a].id != before[i as int].id);
                    }
                }
                return;
            }
            i += 1;
        }
        let ghost spec_row = role_row_from_write(w, w.version);
        let row = RoleRow {
            id: w.id,
            version: w.version,
            first_version: w.version,
            name: w.name,
            level: w.level,
            privileges: w.privileges,
        };
        assert(row == spec_row);
        let ghost before = self.roles();
        self.roles.push(row);
        assert(self.roles() == before.push(spec_row));
        assert forall|a: int, b: int|
            0 <= a < self.roles().len() && 0 <= b < self.roles().len() && a != b
            implies #[trigger] self.roles()[a].id != #[trigger] self.roles()[b].id by {
            if a < before.len() && b < before.len() {
                assert(before[a].id != before[b].id);
            }
        }
    }

    /// Looks a role up; a matching row that fails validation against `now` is put in
    /// quarantine and the lookup reports nothing.
    pub fn get_role(&mut self, q: &GetRole, now: i64) -> (r: Option<DetailedRoleView>)
        requires
            old(self).wf(),
        ensures
            final(self).wf(),
            final(self).roles() == old(self).roles(),
            final(self).devices() == old(self).devices(),
            (forall|k: int| !old(self).role_matches(*q, k)) ==> r is None && final(self).quarantined() == old(self).quarantined()
                && final(self).quarantine_entries() == old(self).quarantine_entries(),
            forall|k: int| #![trigger old(self).roles()[k]]
                old(self).role_matches(*q, k) && (forall|j: int| 0 <= j < k ==> !old(self).role_matches(*q, j)) ==> {
                    let row = old(self).roles()[k];
                    match crate::role::role_row_failure(row, now) {
                        None => r is Some && crate::role::role_view_of_row(r->Some_0, row)
                            && final(self).quarantined() == old(self).quarantined()
                            && final(self).quarantine_entries() == old(self).quarantine_entries(),
                        Some(reason) => r is None && final(self).quarantined() == quarantine_insert(old(self).quarantined(), row.id)
                            && final(self).quarantine_entries() == old(self).quarantine_entries().push(
                                (row.id, <Role as Identifiable>::model_name(), crate::error::invalid_value_text(reason))),
                    }
                },
    {
        let qid = q.id();
        let qname = q.name();
        let mut i: usize = 0;
        while i < self.roles.len()
            invariant
                0 <= i <= self.roles.len(),
                *self == *old(self),
                self.wf(),
                qid == q.spec_id(),
                qname is Some <==> q.spec_name() is Some,
                qname is Some ==> Some(qname->Some_0@) == q.spec_name(),
                forall|j: int| 0 <= j < i ==> !self.role_matches(*q, j),
            decreases self.roles.len() - i,
        {
            let id = self.roles[i].id;
            let by_id = match qid {
                Some(v) => v == id,
                None => false,
            };
            let by_name = match qname {
                Some(n) => self.roles[i].name.as_str().to_owned() == n.to_owned(),
                None => false,
            };
            if (by_id || by_name) && !self.is_quarantined(id) {
                let row = copy_role_row(&self.roles[i]);
                let ghost spec_row = self.roles()[i as int];
                assert(self.role_matches(*q, i as int));
                match resolve_role_lookup_at(Some(row), now) {
                    Lookup::Corrupt(record) => {
                        assert(record.id == spec_row.id);
                        self.add_corrupt_record(record);
                        return None;
                    },
                    other => {
                        return other.into_output();
                    },
                }
            }
            i += 1;
        }
        None
    }

    /// Upserts a device row keyed by token: a new row takes the written version as its first
    /// version too; an existing row keeps its first version. The session is replaced whole.
    pub fn write_device(&mut self, w: DeviceWrite)
        requires
            old(self).wf(),
        ensures
            final(self).wf(),
            final(self).roles() == old(self).roles(),
            final(self).quarantined() == old(self).quarantined(),
            final(self).quarantine_entries() == old(self).quarantine_entries(),
            forall|k: int| #![trigger old(self).devices()[k]]
                0 <= k < old(self).devices().len() && old(self).devices()[k].token@ == w.token@
                && (forall|j: int| 0 <= j < k ==> old(self).devices()[j].token@ != w.token@)
                ==> final(self).devices() == old(self).devices().update(k, device_row_from_write(w, old(self).devices()[k].first_version)),
            (forall|k: int| 0 <= k < old(self).devices().len() ==> old(self).devices()[k].token@ != w.token@)
                ==> final(self).devices() == old(self).devices().push(device_row_from_write(w, w.version)),
    {
        let ghost spec_w = w;
        let session = match w.session {
            Some(s) => Some(SessionRow { token: s.token, user_id: s.user_id, expiration: s.expiration }),
            None => None,
        };
        let mut i: usize = 0;
        while i < self.devices.len()
            invariant
                0 <= i <= self.devices.len(),
                *self == *old(self),
                self.wf(),
                session == session_row_from_write(spec_w.session),
                w == spec_w,
                forall|j: int| 0 <= j < i ==> self.devices()[j].token@ != w.token@,
            decreases self.devices.len() - i,
        {
            if self.devices[i].token == w.token {
                let first_version = self.devices[i].first_version;
                let row = DeviceRow { token: w.token, version: w.version, first_version, name: w.name, session, status: w.status };
                assert(row == device_row_from_write(spec_w, first_version));
                let ghost before = self.devices();
                assert(before[i as int].token@ == spec_w.token@);
                assert forall|k: int|
                    0 <= k < before.len() && before[k].token@ == spec_w.token@
                    && (forall|j: int| 0 <= j < k ==> before[j].token@ != spec_w.token@)
                    implies k == i as int by {
                    if k > i as int {
                        assert(before[i as int].token@ != spec_w.token@);
                    }
                }
                self.devices.set(i, row);
                assert(self.devices() == before.update(i as int, device_row_from_write(spec_w, before[i as int].first_version)));
                assert forall|a: int, b: int|
                    0 <= a < self.devices().len() && 0 <= b < self.devices().len() && a != b
                    implies #[trigger] self.devices()[a].token@ != #[trigger] self.devices()[b].token@ by {
                    if a != i as int && b != i as int {
                        assert(before[a].token@ != before[b].token@);
                    } else if a == i as int {
                        assert(before[i as int].token@ != before[b].token@);
                    } else {
                        assert(before[a].token@ != before[i as int].token@);
                    }
                }
                assert(self.roles() == old(self).roles());
                assert(self.quarantined() == old(self).quarantined());
                return;
            }
            i += 1;
        }
        let row = DeviceRow { token: w.token, version: w.version, first_version: w.version, name: w.name, session, status: w.status };
        assert(row == device_row_from_write(spec_w, spec_w.version));
        let ghost before = self.devices();
        self.devices.push(row);
        assert(self.devices() == before.push(device_row_from_write(spec_w, spec_w.version)));
        assert forall|a: int, b: int|
            0 <= a < self.devices().len() && 0 <= b < self.devices().len() && a != b
            implies #[trigger] self.devices()[a].token@ != #[trigger] self.devices()[b].token@ by {
            if a < before.len() && b < before.len() {
                assert(before[a].token@ != before[b].token@);
            }
        }
        assert(self.roles() == old(self).roles());
        assert(self.quarantined() == old(self).quarantined());
    }

    /// Lists devices: first purges the sessions that expired by `now`, then maps the rows
    /// the filter selects, returns the valid ones and deletes the invalid ones.
    pub fn list_devices(&mut self, q: &ListDevices, now: i64) -> (r: Vec<DeviceView>)
        requires
            old(self).wf(),
        ensures
            final(self).wf(),
            final(self).roles() == old(self).roles(),
            final(self).quarantined() == old(self).quarantined(),
            final(self).quarantine_entries() == old(self).quarantine_entries(),
            final(self).devices() == kept_rows(old(self).devices(), q.spec_code(), now),
            r@.len() == valid_device_rows(listed_rows(old(self).devices(), q.spec_code(), now), now).len(),
            forall|j: int| 0 <= j < r@.len() ==> device_view_of_row(#[trigger] r@[j], valid_device_rows(listed_rows(old(self).devices(), q.spec_code(), now), now)[j]),
            forall|j: int| 0 <= j < final(self).devices().len() ==> {
                let d = #[trigger] final(self).devices()[j];
                &&& (d.session is Some ==> d.session->Some_0.expiration > now)
                &&& !(status_selects(q.spec_code(), d.status) && device_row_failure(d, now) is Some)
            },
    {
        let code = q.status_code();
        let mut listed: Vec<DeviceRow> = Vec::new();
        let mut kept: Vec<DeviceRow> = Vec::new();
        let mut i: usize = 0;
        let ghost mut idx: Seq<int> = Seq::empty();
        while i < self.devices.len()
            invariant
                0 <= i <= self.devices.len(),
                *self == *old(self),
                self.wf(),
                code == q.spec_code(),
                idx.len() == kept@.len(),
                forall|a: int| 0 <= a < idx.len() ==> 0 <= #[trigger] idx[a] < i
                    && kept@[a].token@ == self.devices()[idx[a]].token@,
                forall|a: int, b: int| 0 <= a < b < idx.len() ==> #[trigger] idx[a] < #[trigger] idx[b],
                listed@ == listed_rows(self.devices@.subrange(0, i as int), code, now),
                kept@ == kept_rows(self.devices@.subrange(0, i as int), code, now),
                forall|j: int| 0 <= j < kept@.len() ==> {
                    let d = #[trigger] kept@[j];
                    &&& (d.session is Some ==> d.session->Some_0.expiration > now)
                    &&& !(status_selects(code, d.status) && device_row_failure(d, now) is Some)
                },
            decreases self.devices.len() - i,
        {
            let ghost prefix = self.devices@.subrange(0, i as int);
            let ghost next = self.devices@.subrange(0, i + 1);
            assert(next.drop_last() =~= prefix);
            let row = purge_row(&self.devices[i], now);
            let selected = match code {
                Some(c) => c == row.status,
                None => true,
            };
            if selected {
                let keep = map_device_at(&row, now).is_ok();
                let copy = purge_row(&row, now);
                listed.push(copy);
                assert(listed@ =~= listed_rows(next, code, now));
                if keep {
                    kept.push(row);
                    proof {
                        idx = idx.push(i as int);
                    }
                }
                assert(kept@ =~= kept_rows(next, code, now));
            } else {
                assert(listed@ =~= listed_rows(next, code, now));
                kept.push(row);
                proof {
                    idx = idx.push(i as int);
                }
                assert(kept@ =~= kept_rows(next, code, now));
            }
            i += 1;
        }
        assert(self.devices@.subrange(0, i as int) =~= self.devices@);
        let (views, _corrupt) = map_rows_at(&listed, now);
        assert(kept@ == kept_rows(old(self).devices(), code, now));
        assert forall|a: int, b: int| 0 <= a < kept@.len() && 0 <= b < kept@.len() && a != b
            implies #[trigger] kept@[a].token@ != #[trigger] kept@[b].token@ by {
            if a < b {
                assert(idx[a] < idx[b]);
            } else {
                assert(idx[b] < idx[a]);
            }
            assert(self.devices()[idx[a]].token@ != self.devices()[idx[b]].token@);
        }
        self.devices = kept;
        assert(self.roles() == old(self).roles());
        assert(self.quarantined() == old(self).quarantined());
        views
    }

    pub fn device_count(&self) -> (r: usize)
        ensures
            r == self.devices().len(),
    {
        self.devices.len()
    }
}

} // verus!

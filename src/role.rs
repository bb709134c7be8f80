use vstd::prelude::*;

use crate::error::{Error, InvalidValue};
use crate::id::{Identifiable, ID};
use crate::model::{Model, Record, RecordUpdate};
use crate::privilege::{strs_of, texts_of, Privilege, PrivilegeSet};
use crate::source::{stored_as, CorruptRecord, Lookup, RecordVersion, BMC};
use crate::text::{text_accepts, text_check, TextValue};
use crate::version::{now_micros, Version};

verus! {

pub const ROLE_NAME_PATTERN: &'static str = r"^(\p{L}+\s)*\p{L}+$";

/// The name of a role: words of letters separated by single whitespace characters.
#[derive(Debug)]
pub struct RoleName {
    value: String,
}

impl View for RoleName {
    type V = Seq<char>;

    closed spec fn view(&self) -> Seq<char> {
        self.value@
    }
}

impl RoleName {
    fn duplicate(&self) -> (r: RoleName)
        ensures
            r@ == self@,
    {
        proof {
            use_type_invariant(self);
        }
        RoleName { value: self.value.clone() }
    }

    #[verifier::type_invariant]
    closed spec fn meets_rules(&self) -> bool {
        <RoleName as TextValue>::accepts(self.value@)
    }

    /// Makes known to a caller that the text meets the rules of its type.
    pub fn meets_its_rules(&self)
        ensures
            <RoleName as TextValue>::accepts(self@),
    {
        proof {
            use_type_invariant(self);
        }
    }
}

impl TextValue for RoleName {
    open spec fn accepts(s: Seq<char>) -> bool {
        text_accepts(ROLE_NAME_PATTERN@, None, None, s)
    }

    open spec fn kind_name() -> Seq<char> {
        "RoleName"@
    }

    fn from_str(s: &str) -> (r: Result<RoleName, InvalidValue>) {
        if text_check(ROLE_NAME_PATTERN, None, None, s) {
            Ok(RoleName { value: s.to_owned() })
        } else {
            Err(InvalidValue::new("RoleName"))
        }
    }

    fn to_string(&self) -> (r: String) {
        self.value.clone()
    }

    fn value(&self) -> (r: &str) {
        self.value.as_str()
    }
}

/// How much a role may do. Levels order from `Guest` up to `Developer`.
#[derive(Clone, Copy, PartialEq, Eq, Structural, PartialOrd, Ord, Hash, Debug, Default)]
pub enum RoleLevel {
    #[default]
    Guest,
    Operator,
    Manager,
    Administrator,
    Developer,
}

/// The level that a stored numeric code stands for: unknown codes give `Guest`.
pub open spec fn level_of_code(v: int) -> RoleLevel {
    if v == 4 {
        RoleLevel::Developer
    } else if v == 3 {
        RoleLevel::Administrator
    } else if v == 2 {
        RoleLevel::Manager
    } else if v == 1 {
        RoleLevel::Operator
    } else {
        RoleLevel::Guest
    }
}

/// The numeric code under which a level is stored.
pub open spec fn code_of_level(l: RoleLevel) -> int {
    match l {
        RoleLevel::Developer => 4,
        RoleLevel::Administrator => 3,
        RoleLevel::Manager => 2,
        RoleLevel::Operator => 1,
        RoleLevel::Guest => 0,
    }
}

/// The level that a lower-case, trimmed name stands for.
pub open spec fn level_named(t: Seq<char>) -> Option<RoleLevel> {
    if t == "developer"@ {
        Some(RoleLevel::Developer)
    } else if t == "administrator"@ {
        Some(RoleLevel::Administrator)
    } else if t == "manager"@ {
        Some(RoleLevel::Manager)
    } else if t == "operator"@ {
        Some(RoleLevel::Operator)
    } else if t == "guest"@ {
        Some(RoleLevel::Guest)
    } else {
        None
    }
}

/// `s` without its leading and trailing whitespace.
pub uninterp spec fn trimmed(s: Seq<char>) -> Seq<char>;

/// `s` in lower case.
pub uninterp spec fn lowered(s: Seq<char>) -> Seq<char>;

/// Relies on str::trim: drops leading and trailing Unicode whitespace.
#[verifier::external_body]
fn trim<'a>(s: &'a str) -> (r: &'a str)
    ensures
        r@ == trimmed(s@),
{
    s.trim()
}

/// Relies on str::to_lowercase: the Unicode lower-case mapping of each character.
#[verifier::external_body]
fn to_lowercase(s: &str) -> (r: String)
    ensures
        r@ == lowered(s@),
{
    s.to_lowercase()
}

fn same_text(a: &str, b: &str) -> (r: bool)
    ensures
        r == (a@ == b@),
{
    a.to_owned() == b.to_owned()
}

impl RoleLevel {
    /// Maps a stored numeric code to a level; codes it does not know give `Guest`.
    pub fn from(value: i64) -> (r: RoleLevel)
        ensures
            r == level_of_code(value as int),
    {
        if value == 4 {
            RoleLevel::Developer
        } else if value == 3 {
            RoleLevel::Administrator
        } else if value == 2 {
            RoleLevel::Manager
        } else if value == 1 {
            RoleLevel::Operator
        } else {
            RoleLevel::Guest
        }
    }

    pub fn code(&self) -> (r: i16)
        ensures
            r as int == code_of_level(*self),
    {
        match self {
            RoleLevel::Developer => 4,
            RoleLevel::Administrator => 3,
            RoleLevel::Manager => 2,
            RoleLevel::Operator => 1,
            RoleLevel::Guest => 0,
        }
    }

    /// Maps a name that is already trimmed and in lower case to a level.
    pub fn from_lower_name(t: &str) -> (r: Result<RoleLevel, InvalidValue>)
        ensures
            r is Ok <==> level_named(t@) is Some,
            r is Ok ==> level_named(t@) == Some(r->Ok_0),
            r is Err ==> r->Err_0@ == "RoleLevel"@,
    {
        if same_text(t, "developer") {
            Ok(RoleLevel::Developer)
        } else if same_text(t, "administrator") {
            Ok(RoleLevel::Administrator)
        } else if same_text(t, "manager") {
            Ok(RoleLevel::Manager)
        } else if same_text(t, "operator") {
            Ok(RoleLevel::Operator)
        } else if same_text(t, "guest") {
            Ok(RoleLevel::Guest)
        } else {
            Err(InvalidValue::new("RoleLevel"))
        }
    }

    /// Maps a level name to a level, ignoring case and surrounding whitespace.
    pub fn from_str(s: &str) -> (r: Result<RoleLevel, InvalidValue>)
        ensures
            r is Ok <==> level_named(lowered(trimmed(s@))) is Some,
            r is Ok ==> level_named(lowered(trimmed(s@))) == Some(r->Ok_0),
            r is Err ==> r->Err_0@ == "RoleLevel"@,
    {
        let t = to_lowercase(trim(s));
        RoleLevel::from_lower_name(t.as_str())
    }
}

} // verus!

verus! {

/// A role: a name, a level and a set of privileges.
#[derive(Debug)]
pub struct Role {
    name: RoleName,
    level: RoleLevel,
    privileges: PrivilegeSet,
}

impl Identifiable for Role {
    type ID = u128;

    open spec fn model_name() -> Seq<char> {
        "Role"@
    }

    fn name() -> (r: &'static str) {
        "Role"
    }
}

impl Model for Role {}

impl View for Role {
    type V = (Seq<char>, RoleLevel, Set<Seq<char>>);

    closed spec fn view(&self) -> (Seq<char>, RoleLevel, Set<Seq<char>>) {
        (self.name@, self.level, self.privileges@)
    }
}

/// Why role inputs are refused, checking the name, then the level, then each privilege.
pub open spec fn role_input_failure(name: Seq<char>, level: Seq<char>, privileges: Seq<Seq<char>>) -> Option<Seq<char>> {
    if !RoleName::accepts(name) {
        Some("RoleName"@)
    } else if level_named(lowered(trimmed(level))) is None {
        Some("RoleLevel"@)
    } else if !(forall|j: int| 0 <= j < privileges.len() ==> Privilege::accepts(#[trigger] privileges[j])) {
        Some("Privilege"@)
    } else {
        None
    }
}

impl Role {
    pub closed spec fn spec_name(&self) -> Seq<char> {
        self.name@
    }

    pub closed spec fn spec_level(&self) -> RoleLevel {
        self.level
    }

    pub closed spec fn spec_privileges(&self) -> Set<Seq<char>> {
        self.privileges@
    }

    pub fn name(&self) -> (r: &RoleName)
        ensures
            r@ == self.spec_name(),
    {
        &self.name
    }

    pub fn level(&self) -> (r: RoleLevel)
        ensures
            r == self.spec_level(),
    {
        self.level
    }

    pub fn privileges(&self) -> (r: &PrivilegeSet)
        ensures
            r@ == self.spec_privileges(),
    {
        &self.privileges
    }

    /// Validates raw inputs into a new role record stamped `Version::now(author)`.
    pub fn new(id: u128, name: &str, level: &str, privileges: Vec<&str>, author: u128) -> (r: Result<Record<Role>, Error>)
        ensures
            r is Ok <==> role_input_failure(name@, level@, strs_of(privileges@)) is None,
            r is Ok ==> ({
                let rec = r->Ok_0;
                &&& rec.spec_id().spec_value() == id
                &&& rec.spec_state().spec_name() == name@
                &&& level_named(lowered(trimmed(level@))) == Some(rec.spec_state().spec_level())
                &&& rec.spec_state().spec_privileges() == strs_of(privileges@).to_set()
                &&& rec.spec_version().spec_author() == author
            }),
            r is Err ==> r->Err_0 is InvalidValue && role_input_failure(name@, level@, strs_of(privileges@)) == Some(r->Err_0->InvalidValue_0@),
    {
        let name = match RoleName::from_str(name) {
            Ok(n) => n,
            Err(e) => return Err(Error::InvalidValue(e)),
        };
        let level = match RoleLevel::from_str(level) {
            Ok(l) => l,
            Err(e) => return Err(Error::InvalidValue(e)),
        };
        let privilege_set = match PrivilegeSet::parse_strs(&privileges) {
            Ok(p) => p,
            Err(e) => {
                assert(!(forall|j: int| 0 <= j < strs_of(privileges@).len() ==> Privilege::accepts(#[trigger] strs_of(privileges@)[j]))) by {
                    let k = choose|k: int| 0 <= k < privileges@.len() && !Privilege::accepts(#[trigger] privileges@[k]@);
                    assert(strs_of(privileges@)[k] == privileges@[k]@);
                }
                return Err(Error::InvalidValue(e));
            },
        };
        assert(forall|j: int| 0 <= j < strs_of(privileges@).len() ==> Privilege::accepts(#[trigger] strs_of(privileges@)[j])) by {
            assert forall|j: int| 0 <= j < strs_of(privileges@).len() implies Privilege::accepts(#[trigger] strs_of(privileges@)[j]) by {
                assert(strs_of(privileges@)[j] == privileges@[j]@);
            }
        }
        let state = Role { name, level, privileges: privilege_set };
        Ok(Record::new(ID::new(id), state, Version::now(author)))
    }
}

/// A role as read back: the record, plus the version it was created with.
#[derive(Debug)]
pub struct DetailedRoleView {
    pub id: ID<Role>,
    pub version: Version,
    pub first_version: Version,
    pub name: RoleName,
    pub level: RoleLevel,
    pub privileges: PrivilegeSet,
}

impl DetailedRoleView {
    /// The bare record. This drops `first_version` on purpose: a record has no place for it.
    pub fn as_record(self) -> (r: Record<Role>)
        ensures
            r.spec_id() == self.id,
            r.spec_version() == self.version,
            r.spec_state().spec_name() == self.name@,
            r.spec_state().spec_level() == self.level,
            r.spec_state().spec_privileges() == self.privileges@,
    {
        let DetailedRoleView { id, version, first_version: _, name, level, privileges } = self;
        Record::new(id, Role { name, level, privileges }, version)
    }

    pub fn id(&self) -> (r: ID<Role>)
        ensures
            r == self.id,
    {
        self.id.copy()
    }

    pub fn version(&self) -> (r: Version)
        ensures
            r == self.version,
    {
        self.version
    }

    pub fn first_version(&self) -> (r: Version)
        ensures
            r == self.first_version,
    {
        self.first_version
    }

    pub fn name(&self) -> (r: &RoleName)
        ensures
            r == &self.name,
    {
        &self.name
    }

    pub fn level(&self) -> (r: RoleLevel)
        ensures
            r == self.level,
    {
        self.level
    }

    pub fn privileges(&self) -> (r: &PrivilegeSet)
        ensures
            r == &self.privileges,
    {
        &self.privileges
    }
}

/// A stored role row, as the backend hands it over.
#[derive(Debug)]
pub struct RoleRow {
    pub id: u128,
    pub version: RecordVersion,
    pub first_version: RecordVersion,
    pub name: String,
    pub level: i16,
    pub privileges: Vec<String>,
}

/// Why a stored role row fails validation against the clock reading `now`, in the order
/// the fields are checked; `None` for a valid row.
pub open spec fn role_row_failure(row: RoleRow, now: i64) -> Option<Seq<char>> {
    if row.version.timestamp > now || row.first_version.timestamp > now {
        Some("Version"@)
    } else if !RoleName::accepts(row.name@) {
        Some("RoleName"@)
    } else if !(forall|j: int| 0 <= j < row.privileges@.len() ==> Privilege::accepts(#[trigger] row.privileges@[j]@)) {
        Some("Privilege"@)
    } else {
        None
    }
}

/// The view is exactly what the row holds.
pub open spec fn role_view_of_row(v: DetailedRoleView, row: RoleRow) -> bool {
    &&& v.id.spec_value() == row.id
    &&& stored_as(v.version, row.version)
    &&& stored_as(v.first_version, row.first_version)
    &&& v.name@ == row.name@
    &&& v.level == level_of_code(row.level as int)
    &&& v.privileges@ == texts_of(row.privileges@).to_set()
}

/// Maps a stored row into a validated view, given the clock reading `now`.
pub fn map_role_row_at(row: RoleRow, now: i64) -> (r: Result<DetailedRoleView, InvalidValue>)
    ensures
        r is Ok <==> role_row_failure(row, now) is None,
        r is Ok ==> role_view_of_row(r->Ok_0, row),
        r is Err ==> role_row_failure(row, now) == Some(r->Err_0@),
{
    let version = match row.version.to_version_at(now) {
        Ok(v) => v,
        Err(e) => return Err(e),
    };
    let first_version = match row.first_version.to_version_at(now) {
        Ok(v) => v,
        Err(e) => return Err(e),
    };
    let name = match RoleName::from_str(row.name.as_str()) {
        Ok(n) => n,
        Err(e) => return Err(e),
    };
    let privileges = match PrivilegeSet::parse_all(&row.privileges) {
        Ok(p) => p,
        Err(e) => return Err(e),
    };
    Ok(DetailedRoleView {
        id: ID::new(row.id),
        version,
        first_version,
        name,
        level: RoleLevel::from(row.level as i64),
        privileges,
    })
}

/// What mapping a stored row gives against the clock reading `now`.
pub open spec fn role_row_outcome(row: RoleRow, now: i64, r: Result<DetailedRoleView, InvalidValue>) -> bool {
    &&& (r is Ok <==> role_row_failure(row, now) is None)
    &&& (r is Ok ==> role_view_of_row(r->Ok_0, row))
    &&& (r is Err ==> role_row_failure(row, now) == Some(r->Err_0@))
}

/// Maps a stored row into a validated view, against the wall clock.
pub fn map_row(row: RoleRow) -> (r: Result<DetailedRoleView, InvalidValue>)
    ensures
        exists|now: i64| #[trigger] role_row_outcome(row, now, r),
        !RoleName::accepts(row.name@) ==> r is Err,
{
    let now = now_micros();
    let r = map_role_row_at(row, now);
    assert(role_row_outcome(row, now, r));
    r
}

/// What a role lookup decides from the row found, against the clock reading `now`.
pub open spec fn role_lookup_outcome(row: Option<RoleRow>, now: i64, r: Lookup<DetailedRoleView>) -> bool {
    &&& (row is None ==> r is Missing)
    &&& (row is Some ==> match role_row_failure(row->Some_0, now) {
        None => r is Found && role_view_of_row(r->Found_0, row->Some_0),
        Some(reason) => r is Corrupt && r->Corrupt_0.id == row->Some_0.id
            && r->Corrupt_0.model@ == Role::model_name()
            && r->Corrupt_0.description@ == crate::error::invalid_value_text(reason),
    })
}

/// Decides a role lookup from the row found, given the clock reading `now`: an invalid
/// row is put in quarantine under the entity name and the lookup reports nothing.
pub fn resolve_role_lookup_at(row: Option<RoleRow>, now: i64) -> (r: Lookup<DetailedRoleView>)
    ensures
        role_lookup_outcome(row, now, r),
{
    match row {
        None => Lookup::Missing,
        Some(row) => {
            let id = row.id;
            match map_role_row_at(row, now) {
                Ok(view) => Lookup::Found(view),
                Err(e) => Lookup::Corrupt(CorruptRecord::new(id, <Role as Identifiable>::name(), &e)),
            }
        },
    }
}

/// Decides a role lookup from the row found, against the wall clock.
pub fn resolve_role_lookup(row: Option<RoleRow>) -> (r: Lookup<DetailedRoleView>)
    ensures
        exists|now: i64| #[trigger] role_lookup_outcome(row, now, r),
        row is Some && !RoleName::accepts(row->Some_0.name@) ==> r is Corrupt,
{
    let now = now_micros();
    let r = resolve_role_lookup_at(row, now);
    assert(role_lookup_outcome(row, now, r));
    r
}

/// Looks a role up by identifier or by name.
#[derive(Debug)]
pub struct GetRole {
    id: Option<u128>,
    name: Option<String>,
}

impl GetRole {
    pub fn by_name(value: &str) -> (r: GetRole)
        ensures
            r.spec_id() is None,
            r.spec_name() == Some(value@),
    {
        GetRole { id: None, name: Some(value.to_owned()) }
    }

    pub fn by_id(value: u128) -> (r: GetRole)
        ensures
            r.spec_id() == Some(value),
            r.spec_name() is None,
    {
        GetRole { id: Some(value), name: None }
    }

    pub closed spec fn spec_id(&self) -> Option<u128> {
        self.id
    }

    pub closed spec fn spec_name(&self) -> Option<Seq<char>> {
        match self.name {
            Some(n) => Some(n@),
            None => None,
        }
    }

    pub fn id(&self) -> (r: Option<u128>)
        ensures
            r == self.spec_id(),
    {
        self.id
    }

    pub fn name(&self) -> (r: Option<&str>)
        ensures
            r is Some <==> self.spec_name() is Some,
            r is Some ==> Some(r->Some_0@) == self.spec_name(),
    {
        match &self.name {
            Some(n) => Some(n.as_str()),
            None => None,
        }
    }
}

impl BMC for GetRole {
    type Output = Option<DetailedRoleView>;
}

/// Persists a role record.
#[derive(Debug)]
pub struct WriteRole {
    pub record: Record<Role>,
}

/// The values one role upsert binds: the row keyed by `id`, and the full set of privileges
/// that the privilege rows are reconciled with.
#[derive(Debug)]
pub struct RoleWrite {
    pub id: u128,
    pub version: RecordVersion,
    pub name: String,
    pub level: i16,
    pub privileges: Vec<String>,
}

impl WriteRole {
    pub fn row(&self) -> (r: RoleWrite)
        ensures
            r.id == self.record.spec_id().spec_value(),
            stored_as(self.record.spec_version(), r.version),
            r.name@ == self.record.spec_state().spec_name(),
            r.level as int == code_of_level(self.record.spec_state().spec_level()),
            texts_of(r.privileges@).to_set() == self.record.spec_state().spec_privileges(),
    {
        let state = self.record.state();
        let names = state.privileges().to_strings();
        RoleWrite {
            id: *self.record.id().value(),
            version: RecordVersion::from(self.record.version()),
            name: state.name().to_string(),
            level: state.level().code(),
            privileges: names,
        }
    }
}

} // verus!

verus! {

/// What an update of a role may change: a snapshot of its name, level and privileges,
/// stamped with the version the update would carry.
#[derive(Debug)]
pub struct RoleUpdate {
    name: RoleName,
    level: RoleLevel,
    privileges: PrivilegeSet,
    version: Version,
}

impl View for RoleUpdate {
    type V = (Seq<char>, RoleLevel, Set<Seq<char>>, Version);

    closed spec fn view(&self) -> (Seq<char>, RoleLevel, Set<Seq<char>>, Version) {
        (self.name@, self.level, self.privileges@, self.version)
    }
}

impl RecordUpdate for RoleUpdate {
    type Model = Role;

    open spec fn snapshot_of(state: (Seq<char>, RoleLevel, Set<Seq<char>>), version: Version) -> (Seq<char>, RoleLevel, Set<Seq<char>>, Version) {
        (state.0, state.1, state.2, version)
    }

    open spec fn merged(update: (Seq<char>, RoleLevel, Set<Seq<char>>, Version), state: (Seq<char>, RoleLevel, Set<Seq<char>>)) -> (Seq<char>, RoleLevel, Set<Seq<char>>) {
        (update.0, update.1, update.2)
    }

    fn new(model: &Role, version: Version) -> (r: RoleUpdate) {
        RoleUpdate {
            name: model.name.duplicate(),
            level: model.level,
            privileges: model.privileges.duplicate(),
            version,
        }
    }

    fn apply(self, state: &mut Role) {
        state.name = self.name;
        state.level = self.level;
        state.privileges = self.privileges;
    }

    fn same(&self, other: &RoleUpdate) -> (r: bool) {
        self.name.value == other.name.value && self.level == other.level
            && self.privileges.same_as(&other.privileges) && self.version == other.version
    }

    fn duplicate(&self) -> (r: RoleUpdate) {
        RoleUpdate {
            name: self.name.duplicate(),
            level: self.level,
            privileges: self.privileges.duplicate(),
            version: self.version,
        }
    }
}

impl RoleUpdate {
    pub fn name(&self) -> (r: &RoleName)
        ensures
            r@ == self@.0,
    {
        &self.name
    }

    pub fn level(&self) -> (r: RoleLevel)
        ensures
            r == self@.1,
    {
        self.level
    }

    pub fn privileges(&self) -> (r: &PrivilegeSet)
        ensures
            r@ == self@.2,
    {
        &self.privileges
    }

    pub fn set_name(&mut self, name: RoleName)
        ensures
            final(self)@ == (name@, old(self)@.1, old(self)@.2, old(self)@.3),
    {
        self.name = name;
    }

    pub fn set_level(&mut self, level: RoleLevel)
        ensures
            final(self)@ == (old(self)@.0, level, old(self)@.2, old(self)@.3),
    {
        self.level = level;
    }

    /// Adds a privilege; true where the role did not hold it yet.
    pub fn grant(&mut self, privilege: Privilege) -> (r: bool)
        ensures
            final(self)@ == (old(self)@.0, old(self)@.1, old(self)@.2.insert(privilege@), old(self)@.3),
            r == !old(self)@.2.contains(privilege@),
    {
        self.privileges.insert(privilege)
    }
}

} // verus!

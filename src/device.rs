use vstd::prelude::*;

use crate::error::InvalidValue;
use crate::id::{Identifiable, ID};
use crate::model::{Model, Record};
use crate::source::{stored_as, RecordVersion, BMC};
use crate::text::{text_accepts, text_check, TextValue};
use crate::user::User;
use crate::version::{now_micros, Version};

verus! {

pub const DEVICE_NAME_PATTERN: &'static str = r"^\p{L}[\p{L}\s]{30}\p{L}$";

pub const TOKEN_PATTERN: &'static str = r"^\w{64}$";

/// The name of a device: 32 characters, letters and whitespace, starting and ending with a letter.
#[derive(Debug)]
pub struct DeviceName {
    value: String,
}

impl View for DeviceName {
    type V = Seq<char>;

    closed spec fn view(&self) -> Seq<char> {
        self.value@
    }
}

impl DeviceName {
    #[verifier::type_invariant]
    closed spec fn meets_rules(&self) -> bool {
        <DeviceName as TextValue>::accepts(self.value@)
    }

    /// Makes known to a caller that the text meets the rules of its type.
    pub fn meets_its_rules(&self)
        ensures
            <DeviceName as TextValue>::accepts(self@),
    {
        proof {
            use_type_invariant(self);
        }
    }
}

impl TextValue for DeviceName {
    open spec fn accepts(s: Seq<char>) -> bool {
        text_accepts(DEVICE_NAME_PATTERN@, None, None, s)
    }

    open spec fn kind_name() -> Seq<char> {
        "DeviceName"@
    }

    fn from_str(s: &str) -> (r: Result<DeviceName, InvalidValue>) {
        if text_check(DEVICE_NAME_PATTERN, None, None, s) {
            Ok(DeviceName { value: s.to_owned() })
        } else {
            Err(InvalidValue::new("DeviceName"))
        }
    }

    fn to_string(&self) -> (r: String) {
        self.value.clone()
    }

    fn value(&self) -> (r: &str) {
        self.value.as_str()
    }
}

/// The token that identifies a device: 64 word characters.
#[derive(Debug)]
pub struct DeviceToken {
    value: String,
}

impl View for DeviceToken {
    type V = Seq<char>;

    closed spec fn view(&self) -> Seq<char> {
        self.value@
    }
}

impl DeviceToken {
    #[verifier::type_invariant]
    closed spec fn meets_rules(&self) -> bool {
        <DeviceToken as TextValue>::accepts(self.value@)
    }

    /// Makes known to a caller that the text meets the rules of its type.
    pub fn meets_its_rules(&self)
        ensures
            <DeviceToken as TextValue>::accepts(self@),
    {
        proof {
            use_type_invariant(self);
        }
    }
}

impl TextValue for DeviceToken {
    open spec fn accepts(s: Seq<char>) -> bool {
        text_accepts(TOKEN_PATTERN@, None, None, s)
    }

    open spec fn kind_name() -> Seq<char> {
        "DeviceToken"@
    }

    fn from_str(s: &str) -> (r: Result<DeviceToken, InvalidValue>) {
        if text_check(TOKEN_PATTERN, None, None, s) {
            Ok(DeviceToken { value: s.to_owned() })
        } else {
            Err(InvalidValue::new("DeviceToken"))
        }
    }

    fn to_string(&self) -> (r: String) {
        self.value.clone()
    }

    fn value(&self) -> (r: &str) {
        self.value.as_str()
    }
}

/// The token of a device session: 64 word characters.
#[derive(Debug)]
pub struct SessionToken {
    value: String,
}

impl View for SessionToken {
    type V = Seq<char>;

    closed spec fn view(&self) -> Seq<char> {
        self.value@
    }
}

impl TextValue for SessionToken {
    open spec fn accepts(s: Seq<char>) -> bool {
        text_accepts(TOKEN_PATTERN@, None, None, s)
    }

    open spec fn kind_name() -> Seq<char> {
        "SessionToken"@
    }

    fn from_str(s: &str) -> (r: Result<SessionToken, InvalidValue>) {
        if text_check(TOKEN_PATTERN, None, None, s) {
            Ok(SessionToken { value: s.to_owned() })
        } else {
            Err(InvalidValue::new("SessionToken"))
        }
    }

    fn to_string(&self) -> (r: String) {
        self.value.clone()
    }

    fn value(&self) -> (r: &str) {
        self.value.as_str()
    }
}

/// Relies on api_key::string with a fixed, non-zero `length` and no batch: `prefix`
/// followed by `length` characters drawn at random from the crate's default pool of ASCII
/// characters.
#[verifier::external_body]
fn random_prefixed_token(prefix: &str, length: u8) -> (r: String)
    requires
        length > 0,
    ensures
        r@.len() == prefix@.len() + length,
        r@.subrange(0, prefix@.len() as int) == prefix@,
{
    let options = api_key::types::StringGenerator {
        prefix: prefix.to_string(),
        length,
        ..<api_key::types::StringGenerator as api_key::types::Default>::default()
    };
    match api_key::string(options) {
        api_key::types::ApiKeyResults::String(token) => token,
        api_key::types::ApiKeyResults::StringArray(tokens) => tokens.into_iter().next().unwrap_or_default(),
    }
}

/// The prefix of generated session tokens.
pub const SESSION_TOKEN_PREFIX: &'static str = "GNI";

/// The number of random characters in a generated session token.
pub const SESSION_TOKEN_RANDOM_LEN: u8 = 64;

impl SessionToken {
    /// A fresh random token: "GNI" followed by 64 random characters. It is taken as it
    /// comes and not held to the pattern that `from_str` checks.
    pub fn generate() -> (r: SessionToken)
        ensures
            r@.len() == 67,
            r@.subrange(0, 3) == "GNI"@,
    {
        let value = random_prefixed_token(SESSION_TOKEN_PREFIX, SESSION_TOKEN_RANDOM_LEN);
        proof {
            reveal_strlit("GNI");
        }
        SessionToken { value }
    }
}

/// Whether a device may open sessions.
#[derive(Clone, Copy, PartialEq, Eq, Structural, Debug, Hash)]
pub enum DeviceStatus {
    Authorized,
    Unauthorized,
}

/// The status that a stored code stands for: 1 is `Authorized`, anything else `Unauthorized`.
pub open spec fn status_of_code(v: int) -> DeviceStatus {
    if v == 1 {
        DeviceStatus::Authorized
    } else {
        DeviceStatus::Unauthorized
    }
}

/// The code under which a status is stored.
pub open spec fn code_of_status(s: DeviceStatus) -> int {
    match s {
        DeviceStatus::Authorized => 1,
        DeviceStatus::Unauthorized => 0,
    }
}

impl DeviceStatus {
    pub fn from(value: i16) -> (r: DeviceStatus)
        ensures
            r == status_of_code(value as int),
    {
        if value == 1 {
            DeviceStatus::Authorized
        } else {
            DeviceStatus::Unauthorized
        }
    }

    pub fn code(&self) -> (r: i16)
        ensures
            r as int == code_of_status(*self),
    {
        match self {
            DeviceStatus::Authorized => 1,
            DeviceStatus::Unauthorized => 0,
        }
    }
}

/// The instant a session expires, in microseconds since the Unix epoch.
#[derive(Clone, Copy, PartialEq, Eq, Structural, PartialOrd, Ord, Debug, Hash)]
pub struct ExpirationTimestamp {
    value: i64,
}

/// `now + offset`, held within the range of `i64`.
pub open spec fn offset_from(now: i64, offset: i64) -> i64 {
    if now + offset > i64::MAX {
        i64::MAX
    } else if now + offset < i64::MIN {
        i64::MIN
    } else {
        (now + offset) as i64
    }
}

impl ExpirationTimestamp {
    pub closed spec fn spec_value(&self) -> i64 {
        self.value
    }

    pub fn from(value: i64) -> (r: ExpirationTimestamp)
        ensures
            r.spec_value() == value,
    {
        ExpirationTimestamp { value }
    }

    pub fn value(&self) -> (r: i64)
        ensures
            r == self.spec_value(),
    {
        self.value
    }

    /// The instant `offset` microseconds after the clock reading `now`.
    pub fn new_at(now: i64, offset: i64) -> (r: ExpirationTimestamp)
        ensures
            r.spec_value() == offset_from(now, offset),
    {
        if offset > 0 && now > i64::MAX - offset {
            ExpirationTimestamp { value: i64::MAX }
        } else if offset < 0 && now < i64::MIN - offset {
            ExpirationTimestamp { value: i64::MIN }
        } else {
            ExpirationTimestamp { value: now + offset }
        }
    }

    /// The instant `offset` microseconds from now.
    pub fn new(offset: i64) -> (r: ExpirationTimestamp) {
        ExpirationTimestamp::new_at(now_micros(), offset)
    }
}

/// The session a device holds: its token, the user it acts for, and when it expires.
#[derive(Debug)]
pub struct Session {
    pub token: SessionToken,
    pub user_id: ID<User>,
    pub expiration: ExpirationTimestamp,
}

/// A device: a name, at most one session, and a status.
#[derive(Debug)]
pub struct Device {
    name: DeviceName,
    session: Option<Session>,
    status: DeviceStatus,
}

impl Identifiable for Device {
    type ID = DeviceToken;

    open spec fn model_name() -> Seq<char> {
        "Device"@
    }

    fn name() -> (r: &'static str) {
        "Device"
    }
}

impl Model for Device {}

impl View for Device {
    type V = (Seq<char>, Option<Session>, DeviceStatus);

    closed spec fn view(&self) -> (Seq<char>, Option<Session>, DeviceStatus) {
        (self.name@, self.session, self.status)
    }
}

impl Device {
    pub closed spec fn spec_name(&self) -> Seq<char> {
        self.name@
    }

    pub closed spec fn spec_session(&self) -> Option<Session> {
        self.session
    }

    pub closed spec fn spec_status(&self) -> DeviceStatus {
        self.status
    }

    pub fn new(name: DeviceName, session: Option<Session>, status: DeviceStatus) -> (r: Device)
        ensures
            r.spec_name() == name@,
            r.spec_session() == session,
            r.spec_status() == status,
    {
        Device { name, session, status }
    }

    pub fn name(&self) -> (r: &DeviceName)
        ensures
            r@ == self.spec_name(),
    {
        &self.name
    }

    pub fn session(&self) -> (r: Option<&Session>)
        ensures
            r is Some <==> self.spec_session() is Some,
            r is Some ==> *r->Some_0 == self.spec_session()->Some_0,
    {
        match &self.session {
            Some(s) => Some(s),
            None => None,
        }
    }

    pub fn status(&self) -> (r: DeviceStatus)
        ensures
            r == self.spec_status(),
    {
        self.status
    }
}

/// A device as listed: the record, plus the version it was created with.
#[derive(Debug)]
pub struct DeviceView {
    pub token: DeviceToken,
    pub version: Version,
    pub first_version: Version,
    pub name: DeviceName,
    pub session: Option<Session>,
    pub status: DeviceStatus,
}

/// Lists the devices, all of them or those with one status.
#[derive(Debug)]
pub struct ListDevices {
    pub status: Option<DeviceStatus>,
}

impl ListDevices {
    pub open spec fn spec_code(&self) -> Option<i16> {
        match self.status {
            Some(s) => Some(code_of_status(s) as i16),
            None => None,
        }
    }

    /// The status code the listing filters on, if any.
    pub fn status_code(&self) -> (r: Option<i16>)
        ensures
            r is Some <==> self.status is Some,
            r is Some ==> r->Some_0 as int == code_of_status(self.status->Some_0),
            r == self.spec_code(),
    {
        match self.status {
            Some(s) => Some(s.code()),
            None => None,
        }
    }
}

impl BMC for ListDevices {
    type Output = Vec<DeviceView>;
}

} // verus!

verus! {

/// A stored session row.
#[derive(Debug)]
pub struct SessionRow {
    pub token: String,
    pub user_id: u128,
    pub expiration: i64,
}

/// A stored device row, with the session it points to, if any.
#[derive(Debug)]
pub struct DeviceRow {
    pub token: String,
    pub version: RecordVersion,
    pub first_version: RecordVersion,
    pub name: String,
    pub session: Option<SessionRow>,
    pub status: i16,
}

/// Why a stored device row fails validation against the clock reading `now`, in the order
/// the fields are checked; `None` for a valid row. A bad session does not fail the row.
pub open spec fn device_row_failure(row: DeviceRow, now: i64) -> Option<Seq<char>> {
    if !DeviceToken::accepts(row.token@) {
        Some("DeviceToken"@)
    } else if row.version.timestamp > now || row.first_version.timestamp > now {
        Some("Version"@)
    } else if !DeviceName::accepts(row.name@) {
        Some("DeviceName"@)
    } else {
        None
    }
}

/// The session is what the stored session row holds; a row whose token is invalid gives none.
pub open spec fn session_of_row(s: Option<Session>, row: Option<SessionRow>) -> bool {
    match row {
        None => s is None,
        Some(sr) => if SessionToken::accepts(sr.token@) {
            &&& s is Some
            &&& s->Some_0.token@ == sr.token@
            &&& s->Some_0.user_id.spec_value() == sr.user_id
            &&& s->Some_0.expiration.spec_value() == sr.expiration
        } else {
            s is None
        },
    }
}

/// The view is exactly what the row holds.
pub open spec fn device_view_of_row(v: DeviceView, row: DeviceRow) -> bool {
    &&& v.token@ == row.token@
    &&& stored_as(v.version, row.version)
    &&& stored_as(v.first_version, row.first_version)
    &&& v.name@ == row.name@
    &&& session_of_row(v.session, row.session)
    &&& v.status == status_of_code(row.status as int)
}

/// The valid rows, in order.
pub open spec fn valid_device_rows(rows: Seq<DeviceRow>, now: i64) -> Seq<DeviceRow> {
    rows.filter_map(|row: DeviceRow| if device_row_failure(row, now) is None { Some(row) } else { None })
}

/// The tokens of the invalid rows, in order.
pub open spec fn corrupt_device_tokens(rows: Seq<DeviceRow>, now: i64) -> Seq<Seq<char>> {
    rows.filter_map(|row: DeviceRow| if device_row_failure(row, now) is Some { Some(row.token@) } else { None })
}

fn map_session(row: &Option<SessionRow>) -> (r: Option<Session>)
    ensures
        session_of_row(r, *row),
{
    match row {
        None => None,
        Some(sr) => match SessionToken::from_str(sr.token.as_str()) {
            Ok(token) => Some(Session {
                token,
                user_id: ID::new(sr.user_id),
                expiration: ExpirationTimestamp::from(sr.expiration),
            }),
            Err(_) => None,
        },
    }
}

/// Maps a stored row into a validated view, given the clock reading `now`.
pub fn map_device_at(row: &DeviceRow, now: i64) -> (r: Result<DeviceView, InvalidValue>)
    ensures
        r is Ok <==> device_row_failure(*row, now) is None,
        r is Ok ==> device_view_of_row(r->Ok_0, *row),
        r is Err ==> device_row_failure(*row, now) == Some(r->Err_0@),
{
    let session = map_session(&row.session);
    let token = match DeviceToken::from_str(row.token.as_str()) {
        Ok(t) => t,
        Err(e) => return Err(e),
    };
    let version = match row.version.to_version_at(now) {
        Ok(v) => v,
        Err(e) => return Err(e),
    };
    let first_version = match row.first_version.to_version_at(now) {
        Ok(v) => v,
        Err(e) => return Err(e),
    };
    let name = match DeviceName::from_str(row.name.as_str()) {
        Ok(n) => n,
        Err(e) => return Err(e),
    };
    Ok(DeviceView { token, version, first_version, name, session, status: DeviceStatus::from(row.status) })
}

/// Splits a listing into the views of the valid rows and the tokens of the invalid ones
/// (which the listing then deletes), both in the order of the rows, given the clock reading `now`.
pub fn map_rows_at(rows: &Vec<DeviceRow>, now: i64) -> (r: (Vec<DeviceView>, Vec<String>))
    ensures
        r.0@.len() == valid_device_rows(rows@, now).len(),
        forall|j: int| 0 <= j < r.0@.len() ==> device_view_of_row(#[trigger] r.0@[j], valid_device_rows(rows@, now)[j]),
        crate::privilege::texts_of(r.1@) == corrupt_device_tokens(rows@, now),
{
    let mut good: Vec<DeviceView> = Vec::new();
    let mut bad: Vec<String> = Vec::new();
    let mut i: usize = 0;
    while i < rows.len()
        invariant
            0 <= i <= rows.len(),
            good@.len() == valid_device_rows(rows@.subrange(0, i as int), now).len(),
            forall|j: int| 0 <= j < good@.len() ==> device_view_of_row(#[trigger] good@[j], valid_device_rows(rows@.subrange(0, i as int), now)[j]),
            crate::privilege::texts_of(bad@) == corrupt_device_tokens(rows@.subrange(0, i as int), now),
        decreases rows.len() - i,
    {
        let ghost prefix = rows@.subrange(0, i as int);
        let ghost next = rows@.subrange(0, i + 1);
        let ghost old_good = good@;
        let ghost old_bad = bad@;
        assert(next.drop_last() =~= prefix);
        assert(next.last() == rows@[i as int]);
        let row = &rows[i];
        match map_device_at(row, now) {
            Ok(view) => {
                good.push(view);
                assert(valid_device_rows(next, now) =~= valid_device_rows(prefix, now) + seq![*row]);
                assert(corrupt_device_tokens(next, now) == corrupt_device_tokens(prefix, now));
                assert(bad@ == old_bad);
                assert forall|j: int| 0 <= j < good@.len() implies device_view_of_row(#[trigger] good@[j], valid_device_rows(next, now)[j]) by {
                    if j < old_good.len() {
                        assert(good@[j] == old_good[j]);
                    }
                }
            },
            Err(_) => {
                let token = row.token.clone();
                bad.push(token);
                assert(corrupt_device_tokens(next, now) =~= corrupt_device_tokens(prefix, now) + seq![row.token@]);
                assert(valid_device_rows(next, now) == valid_device_rows(prefix, now));
                assert(crate::privilege::texts_of(bad@) =~= crate::privilege::texts_of(old_bad).push(row.token@));
            },
        }
        i += 1;
    }
    assert(rows@.subrange(0, i as int) =~= rows@);
    (good, bad)
}

/// What splitting a listing gives against the clock reading `now`.
pub open spec fn listing_outcome(rows: Seq<DeviceRow>, now: i64, r: (Vec<DeviceView>, Vec<String>)) -> bool {
    &&& r.0@.len() == valid_device_rows(rows, now).len()
    &&& forall|j: int| 0 <= j < r.0@.len() ==> device_view_of_row(#[trigger] r.0@[j], valid_device_rows(rows, now)[j])
    &&& crate::privilege::texts_of(r.1@) == corrupt_device_tokens(rows, now)
}

/// Splits a listing into valid views and the tokens of invalid rows, against the wall clock.
pub fn map_rows(rows: &Vec<DeviceRow>) -> (r: (Vec<DeviceView>, Vec<String>))
    ensures
        exists|now: i64| #[trigger] listing_outcome(rows@, now, r),
        r.0@.len() + r.1@.len() == rows@.len(),
{
    let now = now_micros();
    let r = map_rows_at(rows, now);
    proof {
        lemma_listing_partitions(rows@, now);
    }
    assert(listing_outcome(rows@, now, r));
    r
}

/// Each row of a listing is either valid or corrupt.
pub proof fn lemma_listing_partitions(rows: Seq<DeviceRow>, now: i64)
    ensures
        valid_device_rows(rows, now).len() + corrupt_device_tokens(rows, now).len() == rows.len(),
    decreases rows.len(),
{
    if rows.len() > 0 {
        lemma_listing_partitions(rows.drop_last(), now);
    }
}

/// Persists a device record.
#[derive(Debug)]
pub struct WriteDevice {
    pub record: Record<Device>,
}

/// The session row that replaces the stored one.
#[derive(Debug)]
pub struct SessionWrite {
    pub token: String,
    pub user_id: u128,
    pub expiration: i64,
}

/// The values one device upsert binds. With no session, the device's stored session is
/// deleted; with one, the stored session is deleted and this one inserted in its place.
#[derive(Debug)]
pub struct DeviceWrite {
    pub token: String,
    pub version: RecordVersion,
    pub name: String,
    pub status: i16,
    pub session: Option<SessionWrite>,
}

impl WriteDevice {
    pub fn row(&self) -> (r: DeviceWrite)
        ensures
            r.token@ == self.record.spec_id().spec_value()@,
            stored_as(self.record.spec_version(), r.version),
            r.name@ == self.record.spec_state().spec_name(),
            r.status as int == code_of_status(self.record.spec_state().spec_status()),
            r.session is Some <==> self.record.spec_state().spec_session() is Some,
            r.session is Some ==> ({
                let s = self.record.spec_state().spec_session()->Some_0;
                let w = r.session->Some_0;
                w.token@ == s.token@ && w.user_id == s.user_id.spec_value() && w.expiration == s.expiration.spec_value()
            }),
    {
        let state = self.record.state();
        let session = match state.session() {
            Some(s) => Some(SessionWrite {
                token: s.token.to_string(),
                user_id: *s.user_id.value(),
                expiration: s.expiration.value(),
            }),
            None => None,
        };
        DeviceWrite {
            token: self.record.id().value().to_string(),
            version: RecordVersion::from(self.record.version()),
            name: state.name().to_string(),
            status: state.status().code(),
            session,
        }
    }
}

} // verus!

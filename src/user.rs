use argon2::{PasswordHasher, PasswordVerifier};
use vstd::prelude::*;
use vstd::utf8::{decode_utf8, encode_utf8, encode_utf8_decode_utf8, encode_utf8_valid_utf8, valid_utf8};

use crate::error::{invalid_value_text, Error, InvalidValue};
use crate::id::{Identifiable, ID};
use crate::model::{Model, Record};
use crate::privilege::{texts_of, Privilege, PrivilegeSet};
use crate::role::{level_of_code, Role, RoleLevel, RoleName};
use crate::source::{stored_as, CorruptRecord, Lookup, RecordVersion, BMC};
use crate::text::{byte_len, text_accepts, text_check, TextValue};
use crate::version::{now_micros, Version};

verus! {

pub const USERNAME_PATTERN: &'static str = r"^[a-z0-9][a-z0-9_]{3,63}$";

pub const EMAIL_PATTERN: &'static str = r"^[a-z0-9!#$%&'*+/=?^_`{|}~-]+(?:\.[a-z0-9!#$%&'*+/=?^_`{|}~-]+)*@(?:[a-z0-9](?:[a-z0-9-]*[a-z0-9])?\.)+[a-z0-9](?:[a-z0-9-]*[a-z0-9])?$";

/// A login name: 4 to 64 lower-case letters, digits and underscores, not starting with `_`.
#[derive(Debug)]
pub struct Username {
    value: String,
}

impl View for Username {
    type V = Seq<char>;

    closed spec fn view(&self) -> Seq<char> {
        self.value@
    }
}

impl Username {
    #[verifier::type_invariant]
    closed spec fn meets_rules(&self) -> bool {
        <Username as TextValue>::accepts(self.value@)
    }

    /// Makes known to a caller that the text meets the rules of its type.
    pub fn meets_its_rules(&self)
        ensures
            <Username as TextValue>::accepts(self@),
    {
        proof {
            use_type_invariant(self);
        }
    }
}

impl TextValue for Username {
    open spec fn accepts(s: Seq<char>) -> bool {
        text_accepts(USERNAME_PATTERN@, None, None, s)
    }

    open spec fn kind_name() -> Seq<char> {
        "Username"@
    }

    fn from_str(s: &str) -> (r: Result<Username, InvalidValue>) {
        if text_check(USERNAME_PATTERN, None, None, s) {
            Ok(Username { value: s.to_owned() })
        } else {
            Err(InvalidValue::new("Username"))
        }
    }

    fn to_string(&self) -> (r: String) {
        self.value.clone()
    }

    fn value(&self) -> (r: &str) {
        self.value.as_str()
    }
}

/// An e-mail address in lower case.
#[derive(Debug)]
pub struct Email {
    value: String,
}

impl View for Email {
    type V = Seq<char>;

    closed spec fn view(&self) -> Seq<char> {
        self.value@
    }
}

impl Email {
    #[verifier::type_invariant]
    closed spec fn meets_rules(&self) -> bool {
        <Email as TextValue>::accepts(self.value@)
    }

    /// Makes known to a caller that the text meets the rules of its type.
    pub fn meets_its_rules(&self)
        ensures
            <Email as TextValue>::accepts(self@),
    {
        proof {
            use_type_invariant(self);
        }
    }
}

impl TextValue for Email {
    open spec fn accepts(s: Seq<char>) -> bool {
        text_accepts(EMAIL_PATTERN@, None, None, s)
    }

    open spec fn kind_name() -> Seq<char> {
        "Email"@
    }

    fn from_str(s: &str) -> (r: Result<Email, InvalidValue>) {
        if text_check(EMAIL_PATTERN, None, None, s) {
            Ok(Email { value: s.to_owned() })
        } else {
            Err(InvalidValue::new("Email"))
        }
    }

    fn to_string(&self) -> (r: String) {
        self.value.clone()
    }

    fn value(&self) -> (r: &str) {
        self.value.as_str()
    }
}

/// Whether `candidate` verifies against the PHC hash text `hash` under Argon2
/// (false where `hash` does not parse).
pub uninterp spec fn argon2_verifies(hash: Seq<char>, candidate: Seq<char>) -> bool;

/// Whether `s` parses as a PHC password hash string.
pub uninterp spec fn phc_parses(s: Seq<char>) -> bool;

/// The unpadded standard base64 text of `b`.
pub uninterp spec fn base64_nopad_of(b: Seq<u8>) -> Seq<char>;

/// The bytes that an unpadded standard base64 text decodes to, if it is one.
pub uninterp spec fn base64_nopad_decoded(s: Seq<char>) -> Option<Seq<u8>>;

/// The longest password Argon2 accepts, in bytes.
pub const MAX_PASSWORD_LEN: usize = 0xFFFF_FFFF;

/// Relies on argon2::Argon2::hash_password with the default parameters and a salt from
/// SaltString::generate over OsRng, which fails only on a password longer than
/// argon2::MAX_PWD_LEN bytes: the PHC string of the hash, which starts with `$`, parses,
/// and verifies `password`.
#[verifier::external_body]
fn argon2_hash(password: &str) -> (r: String)
    requires
        byte_len(password@) <= MAX_PASSWORD_LEN,
    ensures
        phc_parses(r@),
        argon2_verifies(r@, password@),
        r@.len() > 0 && r@[0] == '$',
{
    let salt = argon2::password_hash::SaltString::generate(&mut argon2::password_hash::rand_core::OsRng);
    match argon2::Argon2::default().hash_password(password.as_bytes(), &salt) {
        Ok(hash) => hash.to_string(),
        Err(_) => String::new(),
    }
}

/// Relies on argon2::PasswordHash::new to parse `hash` and on Argon2::verify_password
/// (default parameters) to check `candidate` against it.
#[verifier::external_body]
fn argon2_check(hash: &str, candidate: &str) -> (r: bool)
    ensures
        r == argon2_verifies(hash@, candidate@),
{
    match argon2::PasswordHash::new(hash) {
        Ok(h) => argon2::Argon2::default().verify_password(candidate.as_bytes(), &h).is_ok(),
        Err(_) => false,
    }
}

/// Relies on argon2::PasswordHash::new: whether `s` parses as a PHC hash string.
#[verifier::external_body]
fn is_phc_hash(s: &str) -> (r: bool)
    ensures
        r == phc_parses(s@),
{
    argon2::PasswordHash::new(s).is_ok()
}

/// Relies on data_encoding::BASE64_NOPAD.encode; its decode gives the bytes back.
#[verifier::external_body]
fn base64_encode(b: &[u8]) -> (r: String)
    ensures
        r@ == base64_nopad_of(b@),
        base64_nopad_decoded(r@) == Some(b@),
{
    data_encoding::BASE64_NOPAD.encode(b)
}

/// Relies on data_encoding::BASE64_NOPAD.decode: the bytes, or `None` for text that is not
/// unpadded base64 (text holding a symbol outside the alphabet, such as `$`, is not).
#[verifier::external_body]
fn base64_decode(s: &str) -> (r: Option<Vec<u8>>)
    ensures
        s@.contains('$') ==> r is None,
        r is Some <==> base64_nopad_decoded(s@) is Some,
        r is Some ==> Some(r->Some_0@) == base64_nopad_decoded(s@),
{
    data_encoding::BASE64_NOPAD.decode(s.as_bytes()).ok()
}

/// Relies on String::from_utf8: the text the bytes encode, or `None` where they are not UTF-8.
#[verifier::external_body]
fn utf8_text(b: Vec<u8>) -> (r: Option<String>)
    ensures
        r is Some <==> valid_utf8(b@),
        r is Some ==> r->Some_0@ == decode_utf8(b@),
{
    String::from_utf8(b).ok()
}

/// The hash a stored or submitted password text stands for: the text that its base64
/// armor decodes to where it has one, else the text itself; `None` unless that parses.
pub open spec fn password_from_text(s: Seq<char>) -> Option<Seq<char>> {
    let candidate = match base64_nopad_decoded(s) {
        Some(b) => if valid_utf8(b) { decode_utf8(b) } else { s },
        None => s,
    };
    if phc_parses(candidate) { Some(candidate) } else { None }
}

/// An opaque password hash (PHC string).
#[derive(Debug)]
pub struct Password {
    hash: String,
}

impl View for Password {
    type V = Seq<char>;

    closed spec fn view(&self) -> Seq<char> {
        self.hash@
    }
}

impl Password {
    /// Hashes `password` with a fresh random salt; fails only on a password too long for Argon2.
    pub fn generate(password: &str) -> (r: Result<Password, InvalidValue>)
        ensures
            r is Ok <==> byte_len(password@) <= MAX_PASSWORD_LEN,
            r is Ok ==> phc_parses(r->Ok_0@) && argon2_verifies(r->Ok_0@, password@),
            r is Ok ==> r->Ok_0@.contains('$'),
            r is Err ==> r->Err_0@ == "Password"@,
    {
        if password.len() > MAX_PASSWORD_LEN {
            Err(InvalidValue::new("Password"))
        } else {
            let hash = argon2_hash(password);
            assert(hash@[0] == '$');
            Ok(Password { hash })
        }
    }

    /// Whether `password` matches this hash.
    pub fn verify(&self, password: &str) -> (r: bool)
        ensures
            r == argon2_verifies(self@, password@),
    {
        argon2_check(self.hash.as_str(), password)
    }

    /// Reads a hash from its text, raw or in its base64 armor.
    pub fn from_str(s: &str) -> (r: Result<Password, InvalidValue>)
        ensures
            r is Ok <==> password_from_text(s@) is Some,
            r is Ok ==> Some(r->Ok_0@) == password_from_text(s@),
            r is Err ==> r->Err_0@ == "Password"@,
            s@.contains('$') && phc_parses(s@) ==> r is Ok && r->Ok_0@ == s@,
    {
        let candidate = match base64_decode(s) {
            Some(bytes) => match utf8_text(bytes) {
                Some(text) => text,
                None => s.to_owned(),
            },
            None => s.to_owned(),
        };
        if is_phc_hash(candidate.as_str()) {
            Ok(Password { hash: candidate })
        } else {
            Err(InvalidValue::new("Password"))
        }
    }

    /// The base64 armor of the hash.
    pub fn to_string(&self) -> (r: String)
        ensures
            r@ == base64_nopad_of(encode_utf8(self@)),
            base64_nopad_decoded(r@) == Some(encode_utf8(self@)),
    {
        base64_encode(self.hash.as_str().as_bytes())
    }
}

/// The armor of a hash reads back as that same hash, so the value rebuilt from a
/// password's text verifies the same candidates as the password.
pub proof fn lemma_password_armor_round_trip(hash: Seq<char>, armored: Seq<char>)
    requires
        phc_parses(hash),
        base64_nopad_decoded(armored) == Some(encode_utf8(hash)),
    ensures
        password_from_text(armored) == Some(hash),
{
    encode_utf8_valid_utf8(hash);
    encode_utf8_decode_utf8(hash);
}

/// A user account.
#[derive(Debug)]
pub struct User {
    username: Username,
    password: Password,
    email: Option<Email>,
    role_id: Option<ID<Role>>,
    privileges: PrivilegeSet,
}

impl Identifiable for User {
    type ID = u128;

    open spec fn model_name() -> Seq<char> {
        "User"@
    }

    fn name() -> (r: &'static str) {
        "User"
    }
}

impl Model for User {}

impl View for User {
    type V = (Seq<char>, Seq<char>, Option<Seq<char>>, Option<u128>, Set<Seq<char>>);

    closed spec fn view(&self) -> (Seq<char>, Seq<char>, Option<Seq<char>>, Option<u128>, Set<Seq<char>>) {
        (self.username@, self.password@, opt_email(self.email), opt_role_id(self.role_id), self.privileges@)
    }
}

/// The views of an optional string.
pub open spec fn opt_text(s: Option<String>) -> Option<Seq<char>> {
    match s {
        Some(t) => Some(t@),
        None => None,
    }
}

/// The views of an optional e-mail.
pub open spec fn opt_email(e: Option<Email>) -> Option<Seq<char>> {
    match e {
        Some(t) => Some(t@),
        None => None,
    }
}

/// The identifier value of an optional role reference.
pub open spec fn opt_role_id(r: Option<ID<Role>>) -> Option<u128> {
    match r {
        Some(i) => Some(i.spec_value()),
        None => None,
    }
}

/// The views of an optional string slice.
pub open spec fn opt_str(s: Option<&str>) -> Option<Seq<char>> {
    match s {
        Some(t) => Some(t@),
        None => None,
    }
}

/// Why user inputs are refused, checking the username, then the password length, then
/// the e-mail; `None` where they are accepted.
pub open spec fn user_input_failure(username: Seq<char>, password: Seq<char>, email: Option<Seq<char>>) -> Option<Seq<char>> {
    if !Username::accepts(username) {
        Some("Username"@)
    } else if byte_len(password) > MAX_PASSWORD_LEN {
        Some("Password"@)
    } else if email is Some && !Email::accepts(email->Some_0) {
        Some("Email"@)
    } else {
        None
    }
}

impl User {
    pub closed spec fn spec_username(&self) -> Seq<char> {
        self.username@
    }

    pub closed spec fn spec_password(&self) -> Seq<char> {
        self.password@
    }

    pub closed spec fn spec_email(&self) -> Option<Seq<char>> {
        opt_email(self.email)
    }

    pub closed spec fn spec_role_id(&self) -> Option<u128> {
        opt_role_id(self.role_id)
    }

    pub closed spec fn spec_privileges(&self) -> Set<Seq<char>> {
        self.privileges@
    }

    pub fn username(&self) -> (r: &Username)
        ensures
            r@ == self.spec_username(),
    {
        &self.username
    }

    pub fn password(&self) -> (r: &Password)
        ensures
            r@ == self.spec_password(),
    {
        &self.password
    }

    pub fn email(&self) -> (r: Option<&Email>)
        ensures
            r is Some <==> self.spec_email() is Some,
            r is Some ==> Some(r->Some_0@) == self.spec_email(),
    {
        match &self.email {
            Some(e) => Some(e),
            None => None,
        }
    }

    pub fn role_id(&self) -> (r: Option<u128>)
        ensures
            r == self.spec_role_id(),
    {
        match &self.role_id {
            Some(i) => Some(*i.value()),
            None => None,
        }
    }

    pub fn privileges(&self) -> (r: &PrivilegeSet)
        ensures
            r@ == self.spec_privileges(),
    {
        &self.privileges
    }

    /// Validates raw inputs into a new user record with no privileges of its own, its
    /// password hashed, stamped `Version::now(author)`. The username is checked first,
    /// then the password is hashed, then the e-mail is checked.
    pub fn new(
        id: u128,
        username: &str,
        password: &str,
        email: Option<&str>,
        role_id: Option<u128>,
        author: u128,
    ) -> (r: Result<Record<User>, Error>)
        ensures
            r is Ok <==> user_input_failure(username@, password@, opt_str(email)) is None,
            r is Err ==> r->Err_0 is InvalidValue
                && user_input_failure(username@, password@, opt_str(email)) == Some(r->Err_0->InvalidValue_0@),
            r is Ok ==> ({
                let rec = r->Ok_0;
                let u = rec.spec_state();
                &&& rec.spec_id().spec_value() == id
                &&& u.spec_username() == username@
                &&& phc_parses(u.spec_password()) && argon2_verifies(u.spec_password(), password@)
                &&& (email is Some <==> u.spec_email() is Some)
                &&& (email is Some ==> u.spec_email() == Some(email->Some_0@))
                &&& u.spec_role_id() == role_id
                &&& u.spec_privileges() == Set::<Seq<char>>::empty()
                &&& rec.spec_version().spec_author() == author
            }),
    {
        let username = match Username::from_str(username) {
            Ok(u) => u,
            Err(e) => return Err(Error::InvalidValue(e)),
        };
        let password = match Password::generate(password) {
            Ok(p) => p,
            Err(e) => return Err(Error::InvalidValue(e)),
        };
        let email = match email {
            Some(text) => match Email::from_str(text) {
                Ok(e) => Some(e),
                Err(e) => return Err(Error::InvalidValue(e)),
            },
            None => None,
        };
        let role_id = match role_id {
            Some(v) => Some(ID::new(v)),
            None => None,
        };
        let state = User { username, password, email, role_id, privileges: PrivilegeSet::new() };
        Ok(Record::new(ID::new(id), state, Version::now(author)))
    }
}

/// The role a user holds, as read along with the user.
#[derive(Debug)]
pub struct UserRole {
    pub id: ID<Role>,
    pub name: RoleName,
    pub level: RoleLevel,
    pub privileges: PrivilegeSet,
}

/// A user as read back: the record, the role it refers to, and the version it was created with.
#[derive(Debug)]
pub struct DetailedUserView {
    pub id: ID<User>,
    pub username: Username,
    pub password: Password,
    pub email: Option<Email>,
    pub role: Option<UserRole>,
    pub privileges: PrivilegeSet,
    pub version: Version,
    pub first_version: Version,
}

impl DetailedUserView {
    /// The bare record. This drops `first_version` and all of the role but its
    /// identifier on purpose: a record has no place for them.
    pub fn as_record(self) -> (r: Record<User>)
        ensures
            r.spec_id() == self.id,
            r.spec_version() == self.version,
            r.spec_state().spec_username() == self.username@,
            r.spec_state().spec_password() == self.password@,
            r.spec_state().spec_email() == opt_email(self.email),
            r.spec_state().spec_role_id() == (match self.role {
                Some(role) => Some(role.id.spec_value()),
                None => None::<u128>,
            }),
            r.spec_state().spec_privileges() == self.privileges@,
    {
        let DetailedUserView { id, username, password, email, role, privileges, version, first_version: _ } = self;
        let role_id = match role {
            Some(role) => Some(role.id),
            None => None,
        };
        Record::new(id, User { username, password, email, role_id, privileges }, version)
    }

    pub fn id(&self) -> (r: ID<User>)
        ensures
            r == self.id,
    {
        self.id.copy()
    }

    pub fn username(&self) -> (r: &Username)
        ensures
            r == &self.username,
    {
        &self.username
    }

    pub fn password(&self) -> (r: &Password)
        ensures
            r == &self.password,
    {
        &self.password
    }

    pub fn email(&self) -> (r: Option<&Email>)
        ensures
            r is Some <==> self.email is Some,
            r is Some ==> *r->Some_0 == self.email->Some_0,
    {
        match &self.email {
            Some(e) => Some(e),
            None => None,
        }
    }

    pub fn role(&self) -> (r: Option<&UserRole>)
        ensures
            r is Some <==> self.role is Some,
            r is Some ==> *r->Some_0 == self.role->Some_0,
    {
        match &self.role {
            Some(role) => Some(role),
            None => None,
        }
    }

    pub fn privileges(&self) -> (r: &PrivilegeSet)
        ensures
            r == &self.privileges,
    {
        &self.privileges
    }

    pub fn version(&self) -> (r: Version)
        ensures
            r == self.version,
    {
        self.version
    }

    pub fn first_version(&self) -> (r: Version)
        ensures
            r == self.first_version,
    {
        self.first_version
    }
}

} // verus!

verus! {

/// A stored user row.
#[derive(Debug)]
pub struct UserRow {
    pub id: u128,
    pub version: RecordVersion,
    pub first_version: RecordVersion,
    pub username: String,
    pub email: Option<String>,
    pub password: String,
    pub privileges: Vec<String>,
    pub role_id: Option<u128>,
}

/// A stored row of the role a user refers to.
#[derive(Debug)]
pub struct UserRoleRow {
    pub id: u128,
    pub name: String,
    pub level: i16,
    pub privileges: Vec<String>,
}

/// Each stored name is a valid privilege.
pub open spec fn all_privileges(v: Seq<String>) -> bool {
    forall|j: int| 0 <= j < v.len() ==> Privilege::accepts(#[trigger] v[j]@)
}

/// Why a stored user row, with the row of its role, fails validation against the clock
/// reading `now`, in the order the fields are checked; `None` for valid rows.
pub open spec fn user_row_failure(u: UserRow, role: Option<UserRoleRow>, now: i64) -> Option<Seq<char>> {
    if !all_privileges(u.privileges@) {
        Some("Privilege"@)
    } else if role is Some && !RoleName::accepts(role->Some_0.name@) {
        Some("RoleName"@)
    } else if role is Some && !all_privileges(role->Some_0.privileges@) {
        Some("Privilege"@)
    } else if u.version.timestamp > now || u.first_version.timestamp > now {
        Some("Version"@)
    } else if !Username::accepts(u.username@) {
        Some("Username"@)
    } else if u.email is Some && !Email::accepts(u.email->Some_0@) {
        Some("Email"@)
    } else if password_from_text(u.password@) is None {
        Some("Password"@)
    } else {
        None
    }
}

/// The role snapshot is exactly what the role row holds.
pub open spec fn user_role_of_row(r: UserRole, row: UserRoleRow) -> bool {
    &&& r.id.spec_value() == row.id
    &&& r.name@ == row.name@
    &&& r.level == level_of_code(row.level as int)
    &&& r.privileges@ == texts_of(row.privileges@).to_set()
}

/// The view is exactly what the rows hold.
pub open spec fn user_view_of_rows(v: DetailedUserView, u: UserRow, role: Option<UserRoleRow>) -> bool {
    &&& v.id.spec_value() == u.id
    &&& stored_as(v.version, u.version)
    &&& stored_as(v.first_version, u.first_version)
    &&& v.username@ == u.username@
    &&& Some(v.password@) == password_from_text(u.password@)
    &&& opt_email(v.email) == opt_text(u.email)
    &&& v.privileges@ == texts_of(u.privileges@).to_set()
    &&& match role {
        None => v.role is None,
        Some(rr) => v.role is Some && user_role_of_row(v.role->Some_0, rr),
    }
}

/// Maps a stored user row and the row of its role into a validated view, given the clock
/// reading `now`.
pub fn map_user_rows_at(user_row: UserRow, role_row: Option<UserRoleRow>, now: i64) -> (r: Result<DetailedUserView, InvalidValue>)
    ensures
        r is Ok <==> user_row_failure(user_row, role_row, now) is None,
        r is Ok ==> user_view_of_rows(r->Ok_0, user_row, role_row),
        r is Err ==> user_row_failure(user_row, role_row, now) == Some(r->Err_0@),
{
    let privileges = match PrivilegeSet::parse_all(&user_row.privileges) {
        Ok(p) => p,
        Err(e) => return Err(e),
    };
    let role = match &role_row {
        Some(row) => {
            let name = match RoleName::from_str(row.name.as_str()) {
                Ok(n) => n,
                Err(e) => return Err(e),
            };
            let role_privileges = match PrivilegeSet::parse_all(&row.privileges) {
                Ok(p) => p,
                Err(e) => return Err(e),
            };
            Some(UserRole {
                id: ID::new(row.id),
                name,
                level: RoleLevel::from(row.level as i64),
                privileges: role_privileges,
            })
        },
        None => None,
    };
    let version = match user_row.version.to_version_at(now) {
        Ok(v) => v,
        Err(e) => return Err(e),
    };
    let first_version = match user_row.first_version.to_version_at(now) {
        Ok(v) => v,
        Err(e) => return Err(e),
    };
    let username = match Username::from_str(user_row.username.as_str()) {
        Ok(u) => u,
        Err(e) => return Err(e),
    };
    let email = match &user_row.email {
        Some(text) => match Email::from_str(text.as_str()) {
            Ok(e) => Some(e),
            Err(e) => return Err(e),
        },
        None => None,
    };
    let password = match Password::from_str(user_row.password.as_str()) {
        Ok(p) => p,
        Err(e) => return Err(e),
    };
    Ok(DetailedUserView {
        id: ID::new(user_row.id),
        username,
        password,
        email,
        role,
        privileges,
        version,
        first_version,
    })
}

/// What mapping the stored rows gives against the clock reading `now`.
pub open spec fn user_rows_outcome(u: UserRow, role: Option<UserRoleRow>, now: i64, r: Result<DetailedUserView, InvalidValue>) -> bool {
    &&& (r is Ok <==> user_row_failure(u, role, now) is None)
    &&& (r is Ok ==> user_view_of_rows(r->Ok_0, u, role))
    &&& (r is Err ==> user_row_failure(u, role, now) == Some(r->Err_0@))
}

/// Maps a stored user row and the row of its role into a validated view, against the wall clock.
pub fn map_rows(user_row: UserRow, role_row: Option<UserRoleRow>) -> (r: Result<DetailedUserView, InvalidValue>)
    ensures
        exists|now: i64| #[trigger] user_rows_outcome(user_row, role_row, now, r),
        !Username::accepts(user_row.username@) ==> r is Err,
{
    let now = now_micros();
    let r = map_user_rows_at(user_row, role_row, now);
    assert(user_rows_outcome(user_row, role_row, now, r));
    r
}

/// What a user lookup decides from the rows found, against the clock reading `now`.
pub open spec fn user_lookup_outcome(user_row: Option<UserRow>, role_row: Option<UserRoleRow>, now: i64, r: Lookup<DetailedUserView>) -> bool {
    &&& (user_row is None ==> r is Missing)
    &&& (user_row is Some ==> match user_row_failure(user_row->Some_0, role_row, now) {
        None => r is Found && user_view_of_rows(r->Found_0, user_row->Some_0, role_row),
        Some(reason) => r is Corrupt && r->Corrupt_0.id == user_row->Some_0.id
            && r->Corrupt_0.model@ == User::model_name()
            && r->Corrupt_0.description@ == invalid_value_text(reason),
    })
}

/// Decides a user lookup from the rows found, given the clock reading `now`: invalid rows
/// are put in quarantine under the user's identifier and entity name, and the lookup
/// reports nothing.
pub fn resolve_user_lookup_at(user_row: Option<UserRow>, role_row: Option<UserRoleRow>, now: i64) -> (r: Lookup<DetailedUserView>)
    ensures
        user_lookup_outcome(user_row, role_row, now, r),
{
    match user_row {
        None => Lookup::Missing,
        Some(row) => {
            let id = row.id;
            match map_user_rows_at(row, role_row, now) {
                Ok(view) => Lookup::Found(view),
                Err(e) => Lookup::Corrupt(CorruptRecord::new(id, <User as Identifiable>::name(), &e)),
            }
        },
    }
}

/// Decides a user lookup from the rows found, against the wall clock.
pub fn resolve_user_lookup(user_row: Option<UserRow>, role_row: Option<UserRoleRow>) -> (r: Lookup<DetailedUserView>)
    ensures
        exists|now: i64| #[trigger] user_lookup_outcome(user_row, role_row, now, r),
        user_row is Some && !Username::accepts(user_row->Some_0.username@) ==> r is Corrupt,
{
    let now = now_micros();
    let r = resolve_user_lookup_at(user_row, role_row, now);
    assert(user_lookup_outcome(user_row, role_row, now, r));
    r
}

/// Looks a user up by identifier, username or e-mail.
#[derive(Debug)]
pub struct GetUser {
    pub id: Option<u128>,
    pub username: Option<String>,
    pub email: Option<String>,
}

impl GetUser {
    pub fn by_username(value: &str) -> (r: GetUser)
        ensures
            r.id is None,
            opt_text(r.username) == Some(value@),
            r.email is None,
    {
        GetUser { id: None, username: Some(value.to_owned()), email: None }
    }
}

impl BMC for GetUser {
    type Output = Option<DetailedUserView>;
}

/// Persists a user record.
#[derive(Debug)]
pub struct WriteUser {
    pub record: Record<User>,
}

/// The values one user upsert binds: the row keyed by `id`, with the password in its
/// armor, and the full set of privileges that the privilege rows are reconciled with.
#[derive(Debug)]
pub struct UserWrite {
    pub id: u128,
    pub version: RecordVersion,
    pub username: String,
    pub password: String,
    pub email: Option<String>,
    pub role_id: Option<u128>,
    pub privileges: Vec<String>,
}

impl WriteUser {
    pub fn row(&self) -> (r: UserWrite)
        ensures
            r.id == self.record.spec_id().spec_value(),
            stored_as(self.record.spec_version(), r.version),
            r.username@ == self.record.spec_state().spec_username(),
            r.password@ == base64_nopad_of(encode_utf8(self.record.spec_state().spec_password())),
            opt_text(r.email) == self.record.spec_state().spec_email(),
            r.role_id == self.record.spec_state().spec_role_id(),
            texts_of(r.privileges@).to_set() == self.record.spec_state().spec_privileges(),
    {
        let state = self.record.state();
        let email = match state.email() {
            Some(e) => Some(e.to_string()),
            None => None,
        };
        UserWrite {
            id: *self.record.id().value(),
            version: RecordVersion::from(self.record.version()),
            username: state.username().to_string(),
            password: state.password().to_string(),
            email,
            role_id: state.role_id(),
            privileges: state.privileges().to_strings(),
        }
    }
}

} // verus!

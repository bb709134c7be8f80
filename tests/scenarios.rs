use gnify::device::{Device, DeviceName, DeviceStatus, DeviceToken, DeviceWrite, ExpirationTimestamp, ListDevices, Session, SessionToken, WriteDevice};
use gnify::error::InvalidValue;
use gnify::id::ID;
use gnify::memory::MemorySource;
use gnify::model::Record;
use gnify::role::{GetRole, Role, RoleWrite, WriteRole};
use gnify::source::{CorruptRecord, RecordVersion};
use gnify::text::TextValue;
use gnify::version::Version;

fn role_record(privileges: Vec<&str>) -> Record<Role> {
    match Role::new(42, "Admin", "administrator", privileges, 7) {
        Ok(r) => r,
        Err(_) => panic!("valid role"),
    }
}

fn clock() -> i64 {
    Version::now(0).timestamp()
}

fn sorted(mut v: Vec<String>) -> Vec<String> {
    v.sort();
    v
}

#[test]
fn quarantine_insert_is_idempotent() {
    let mut store = MemorySource::new();
    let first = CorruptRecord::new(5, "Role", &InvalidValue::new("RoleName"));
    let second = CorruptRecord::new(5, "Role", &InvalidValue::new("Privilege"));
    assert!(store.add_corrupt_record(first));
    assert!(!store.add_corrupt_record(second));
    assert_eq!(store.quarantined_ids(), vec![5]);
    assert!(store.is_quarantined(5));
    assert!(!store.is_quarantined(6));
}

#[test]
fn written_role_reads_back_by_name() {
    let mut store = MemorySource::new();
    let rec = role_record(vec!["MANAGE USERS"]);
    let version = rec.version();
    store.write_role(WriteRole { record: rec }.row());
    let view = store.get_role(&GetRole::by_name("Admin"), clock()).unwrap();
    assert_eq!(view.privileges().to_strings(), vec!["MANAGE USERS".to_string()]);
    assert_eq!(view.first_version(), view.version());
    assert_eq!(view.version(), version);
    assert_eq!(*view.id().value(), 42);
}

#[test]
fn rewritten_role_keeps_first_version() {
    let mut store = MemorySource::new();
    let first = role_record(vec!["MANAGE USERS"]);
    let first_version = first.version();
    store.write_role(WriteRole { record: first }.row());
    let mut later = role_record(vec!["MANAGE USERS", "MANAGE ROLES"]);
    while later.version().timestamp() <= first_version.timestamp() {
        later = role_record(vec!["MANAGE USERS", "MANAGE ROLES"]);
    }
    let later_version = later.version();
    store.write_role(WriteRole { record: later }.row());
    let view = store.get_role(&GetRole::by_name("Admin"), clock()).unwrap();
    assert_eq!(
        sorted(view.privileges().to_strings()),
        vec!["MANAGE ROLES".to_string(), "MANAGE USERS".to_string()]
    );
    assert_eq!(view.version(), later_version);
    assert_eq!(view.first_version(), first_version);
    assert!(store.get_role(&GetRole::by_id(42), clock()).is_some());
}

#[test]
fn corrupt_role_is_hidden_and_quarantined_once() {
    let mut store = MemorySource::new();
    store.write_role(RoleWrite {
        id: 77,
        version: RecordVersion { author: 1, timestamp: 10 },
        name: "Bad Name 1".to_string(),
        level: 1,
        privileges: vec![],
    });
    assert!(store.get_role(&GetRole::by_name("Bad Name 1"), clock()).is_none());
    assert_eq!(store.quarantined_ids(), vec![77]);
    assert!(store.get_role(&GetRole::by_id(77), clock()).is_none());
    assert_eq!(store.quarantined_ids(), vec![77]);
    assert!(store.get_role(&GetRole::by_name("Nobody"), clock()).is_none());
}

fn device_write(token: &str, name: &str, expiration: Option<i64>) -> DeviceWrite {
    DeviceWrite {
        token: token.to_string(),
        version: RecordVersion { author: 1, timestamp: 10 },
        name: name.to_string(),
        status: 1,
        session: expiration.map(|e| gnify::device::SessionWrite { token: "s".repeat(64), user_id: 3, expiration: e }),
    }
}

#[test]
fn corrupt_device_is_deleted_by_listing() {
    let good = format!("A{}C", "b".repeat(30));
    let mut store = MemorySource::new();
    store.write_device(device_write(&"a".repeat(64), &good, None));
    store.write_device(device_write(&"b".repeat(64), "Bad name", None));
    assert_eq!(store.device_count(), 2);
    let views = store.list_devices(&ListDevices { status: None }, clock());
    assert_eq!(views.len(), 1);
    assert_eq!(views[0].token.to_string(), "a".repeat(64));
    assert_eq!(store.device_count(), 1);
    assert!(store.quarantined_ids().is_empty());
    let views = store.list_devices(&ListDevices { status: Some(DeviceStatus::Unauthorized) }, clock());
    assert!(views.is_empty());
}

#[test]
fn expired_session_is_purged_before_listing() {
    let now = clock();
    let name = DeviceName::from_str(&format!("A{}C", "b".repeat(30))).unwrap();
    let session = Session {
        token: SessionToken::from_str(&"s".repeat(64)).unwrap(),
        user_id: ID::new(3),
        expiration: ExpirationTimestamp::new(-60_000_000),
    };
    let token = DeviceToken::from_str(&"d".repeat(64)).unwrap();
    let rec = Record::new(ID::new(token), Device::new(name, Some(session), DeviceStatus::Authorized), Version::now(1));
    let mut store = MemorySource::new();
    store.write_device(WriteDevice { record: rec }.row());
    let views = store.list_devices(&ListDevices { status: Some(DeviceStatus::Authorized) }, now + 1_000_000);
    assert_eq!(views.len(), 1);
    assert!(views[0].session.is_none());

    store.write_device(device_write(&"e".repeat(64), &format!("A{}C", "b".repeat(30)), Some(now + 3_600_000_000)));
    let views = store.list_devices(&ListDevices { status: None }, now + 1_000_000);
    assert_eq!(views.len(), 2);
    let live = views.iter().find(|v| v.token.to_string() == "e".repeat(64)).unwrap();
    assert_eq!(live.session.as_ref().unwrap().expiration.value(), now + 3_600_000_000);
}

#[test]
fn quarantine_entry_carries_entity_name_and_reason() {
    let mut store = MemorySource::new();
    store.write_role(RoleWrite {
        id: 78,
        version: RecordVersion { author: 1, timestamp: 10 },
        name: "BAD 1".to_string(),
        level: 1,
        privileges: vec![],
    });
    assert!(store.get_role(&GetRole::by_id(78), clock()).is_none());
    let first = CorruptRecord::new(78, "Role", &InvalidValue::new("Other"));
    assert!(!store.add_corrupt_record(first));
    assert_eq!(store.quarantined_ids(), vec![78]);
}

use gnify::device::{
    map_rows_at, Device, DeviceName, DeviceRow, DeviceStatus, DeviceToken, ExpirationTimestamp, ListDevices,
    Session, SessionRow, SessionToken, WriteDevice,
};
use gnify::id::ID;
use gnify::model::Record;
use gnify::role::{map_role_row_at, resolve_role_lookup_at, Role, RoleLevel, RoleRow, WriteRole};
use gnify::source::{Lookup, RecordVersion};
use gnify::text::TextValue;
use gnify::user::{map_user_rows_at, resolve_user_lookup_at, Password, User, UserRoleRow, UserRow, WriteUser};
use gnify::version::Version;

fn rv(author: u128, timestamp: i64) -> RecordVersion {
    RecordVersion { author, timestamp }
}

fn role_row(name: &str, privileges: &[&str]) -> RoleRow {
    RoleRow {
        id: 11,
        version: rv(2, 100),
        first_version: rv(1, 50),
        name: name.to_string(),
        level: 3,
        privileges: privileges.iter().map(|p| p.to_string()).collect(),
    }
}

#[test]
fn role_row_maps_to_view() {
    let view = map_role_row_at(role_row("Admin", &["MANAGE USERS"]), 200).unwrap();
    assert_eq!(*view.id().value(), 11);
    assert_eq!(view.name().to_string(), "Admin");
    assert_eq!(view.level(), RoleLevel::Administrator);
    assert_eq!(view.version().timestamp(), 100);
    assert_eq!(view.version().author(), 2);
    assert_eq!(view.first_version().timestamp(), 50);
    assert_eq!(view.privileges().to_strings(), vec!["MANAGE USERS".to_string()]);
    let record = view.as_record();
    assert_eq!(record.version().timestamp(), 100);
    assert_eq!(*record.id().value(), 11);
}

#[test]
fn role_row_failures_name_the_field() {
    assert_eq!(map_role_row_at(role_row("Admin", &[]), 99).err().unwrap().name(), "Version");
    assert_eq!(map_role_row_at(role_row("Admin 2", &[]), 200).err().unwrap().name(), "RoleName");
    assert_eq!(map_role_row_at(role_row("Admin", &["x"]), 200).err().unwrap().name(), "Privilege");
}

#[test]
fn corrupt_role_lookup_goes_to_quarantine() {
    match resolve_role_lookup_at(Some(role_row("Admin 2", &[])), 200) {
        Lookup::Corrupt(c) => {
            assert_eq!(c.id, 11);
            assert_eq!(c.model, "Role");
            assert_eq!(c.description, "Invalid value for RoleName");
        },
        _ => panic!("the row is corrupt"),
    }
    assert!(resolve_role_lookup_at(Some(role_row("Admin 2", &[])), 200).into_output().is_none());
    assert!(matches!(resolve_role_lookup_at(None, 200), Lookup::Missing));
    let found = resolve_role_lookup_at(Some(role_row("Admin", &[])), 200).into_output().unwrap();
    assert_eq!(found.name().to_string(), "Admin");
}

#[test]
fn role_write_binds_record_values() {
    let rec = match Role::new(4, "Admin", "developer", vec!["MANAGE USERS", "MANAGE ROLES"], 7) {
        Ok(r) => r,
        Err(_) => panic!("valid role"),
    };
    let w = WriteRole { record: rec };
    let row = w.row();
    assert_eq!(row.id, 4);
    assert_eq!(row.name, "Admin");
    assert_eq!(row.level, 4);
    assert_eq!(row.version.author, 7);
    let mut p = row.privileges.clone();
    p.sort();
    assert_eq!(p, vec!["MANAGE ROLES".to_string(), "MANAGE USERS".to_string()]);
}

fn device_row(token: &str, name: &str, session: Option<SessionRow>) -> DeviceRow {
    DeviceRow {
        token: token.to_string(),
        version: rv(2, 100),
        first_version: rv(2, 100),
        name: name.to_string(),
        session,
        status: 1,
    }
}

#[test]
fn device_listing_splits_valid_and_corrupt_rows() {
    let good_name = format!("A{}C", "b".repeat(30));
    let t1 = "a".repeat(64);
    let t2 = "b".repeat(64);
    let t3 = "c".repeat(64);
    let rows = vec![
        device_row(&t1, &good_name, Some(SessionRow { token: "s".repeat(64), user_id: 5, expiration: 900 })),
        device_row(&t2, "Bad name", None),
        device_row(&t3, &good_name, Some(SessionRow { token: "not valid".to_string(), user_id: 5, expiration: 900 })),
    ];
    let (views, corrupt) = map_rows_at(&rows, 200);
    assert_eq!(corrupt, vec![t2.clone()]);
    assert_eq!(views.len(), 2);
    assert_eq!(views[0].token.to_string(), t1);
    let s = views[0].session.as_ref().unwrap();
    assert_eq!(*s.user_id.value(), 5);
    assert_eq!(s.expiration.value(), 900);
    assert_eq!(views[0].status, DeviceStatus::Authorized);
    assert_eq!(views[1].token.to_string(), t3);
    assert!(views[1].session.is_none());
    let (views, corrupt) = map_rows_at(&rows, 99);
    assert!(views.is_empty());
    assert_eq!(corrupt, vec![t1, t2, t3]);
}

#[test]
fn device_write_replaces_session() {
    let name = DeviceName::from_str(&format!("A{}C", "b".repeat(30))).unwrap();
    let token = DeviceToken::from_str(&"d".repeat(64)).unwrap();
    let session = Session {
        token: SessionToken::from_str(&"s".repeat(64)).unwrap(),
        user_id: ID::new(5),
        expiration: ExpirationTimestamp::from(-10),
    };
    let version = Version::new_at(3, 10, 20).unwrap();
    let rec = Record::new(ID::new(token), Device::new(name, Some(session), DeviceStatus::Authorized), version);
    let row = WriteDevice { record: rec }.row();
    assert_eq!(row.token, "d".repeat(64));
    assert_eq!(row.status, 1);
    assert_eq!(row.version, RecordVersion { author: 3, timestamp: 10 });
    let s = row.session.unwrap();
    assert_eq!(s.token, "s".repeat(64));
    assert_eq!(s.user_id, 5);
    assert_eq!(s.expiration, -10);

    let name = DeviceName::from_str(&format!("A{}C", "b".repeat(30))).unwrap();
    let token = DeviceToken::from_str(&"d".repeat(64)).unwrap();
    let rec = Record::new(ID::new(token), Device::new(name, None, DeviceStatus::Unauthorized), version);
    let row = WriteDevice { record: rec }.row();
    assert!(row.session.is_none());
    assert_eq!(row.status, 0);
    assert_eq!(ListDevices { status: Some(DeviceStatus::Unauthorized) }.status_code(), Some(0));
    assert_eq!(ListDevices { status: None }.status_code(), None);
}

fn user_row(password: &str, email: Option<&str>) -> UserRow {
    UserRow {
        id: 21,
        version: rv(2, 100),
        first_version: rv(2, 60),
        username: "developer".to_string(),
        email: email.map(|e| e.to_string()),
        password: password.to_string(),
        privileges: vec!["MANAGE USERS".to_string()],
        role_id: Some(11),
    }
}

#[test]
fn user_rows_map_and_quarantine() {
    let armored = Password::generate("1234").unwrap().to_string();
    let role = UserRoleRow { id: 11, name: "Admin".to_string(), level: 4, privileges: vec!["MANAGE ROLES".to_string()] };
    let view = map_user_rows_at(user_row(&armored, Some("dev@example.com")), Some(role), 200).unwrap();
    assert_eq!(*view.id().value(), 21);
    assert_eq!(view.username().to_string(), "developer");
    assert!(view.password().verify("1234"));
    assert_eq!(view.email().unwrap().to_string(), "dev@example.com");
    let r = view.role().unwrap();
    assert_eq!(*r.id.value(), 11);
    assert_eq!(r.level, RoleLevel::Developer);
    assert_eq!(view.first_version().timestamp(), 60);
    let record = view.as_record();
    assert_eq!(record.state().role_id(), Some(11));

    assert_eq!(map_user_rows_at(user_row("plain", None), None, 200).err().unwrap().name(), "Password");
    assert_eq!(map_user_rows_at(user_row(&armored, Some("bad")), None, 200).err().unwrap().name(), "Email");
    let bad_role = UserRoleRow { id: 11, name: "Admin 2".to_string(), level: 4, privileges: vec![] };
    match resolve_user_lookup_at(Some(user_row(&armored, None)), Some(bad_role), 200) {
        Lookup::Corrupt(c) => {
            assert_eq!(c.id, 21);
            assert_eq!(c.model, "User");
            assert_eq!(c.description, "Invalid value for RoleName");
        },
        _ => panic!("the role row is corrupt"),
    }
    assert!(matches!(resolve_user_lookup_at(None, None, 200), Lookup::Missing));
}

#[test]
fn user_write_binds_armored_password() {
    let rec = match User::new(3, "developer", "1234", None, None, 8) {
        Ok(r) => r,
        Err(_) => panic!("valid user"),
    };
    let armored = rec.state().password().to_string();
    let row = WriteUser { record: rec }.row();
    assert_eq!(row.id, 3);
    assert_eq!(row.username, "developer");
    assert_eq!(row.password, armored);
    assert_eq!(row.email, None);
    assert_eq!(row.role_id, None);
    assert!(row.privileges.is_empty());
    assert_eq!(row.version.author, 8);
}

use gnify::error::Error;
use gnify::id::ID;
use gnify::model::Record;
use gnify::privilege::Privilege;
use gnify::role::{Role, RoleLevel, RoleName, RoleUpdate};
use gnify::text::TextValue;
use gnify::user::{Password, User};
use gnify::version::Version;

#[test]
fn version_refuses_future_timestamps() {
    let v = Version::new_at(7, 100, 200).unwrap();
    assert_eq!(v.author(), 7);
    assert_eq!(v.timestamp(), 100);
    assert!(Version::new_at(7, 200, 200).is_ok());
    assert_eq!(Version::new_at(7, 201, 200).err().unwrap().name(), "Version");
    let now = Version::now(3);
    assert_eq!(now.author(), 3);
    assert!(Version::new(3, now.timestamp()).is_ok());
    assert!(Version::new(3, i64::MAX).is_err());
    assert_eq!(Version::new(3, i64::MAX).err().unwrap().to_string(), "Invalid value for Version");
}

#[test]
fn versions_order_by_timestamp_then_author() {
    let a = Version::new_at(9, 100, 500).unwrap();
    let b = Version::new_at(1, 200, 500).unwrap();
    let c = Version::new_at(2, 200, 500).unwrap();
    assert!(a < b);
    assert!(b < c);
}

#[test]
fn ulid_identifiers_parse() {
    let text = "01ARZ3NDEKTSV4RRFFQ69G5FAV";
    let id: ID<Role> = ID::from_str(text).unwrap();
    assert_eq!(*id.value(), ulid::Ulid::from_string(text).unwrap().0);
    let e = ID::<Role>::from_str("not an id").err().unwrap();
    assert_eq!(e.name(), "Role ID");
    let e = ID::<User>::from_str("").err().unwrap();
    assert_eq!(e.name(), "User ID");
}

fn admin_role() -> Record<Role> {
    match Role::new(1, "Admin", "administrator", vec!["MANAGE USERS"], 7) {
        Ok(r) => r,
        Err(_) => panic!("the role inputs are valid"),
    }
}

#[test]
fn role_new_builds_a_record() {
    let rec = admin_role();
    assert_eq!(*rec.id().value(), 1);
    assert_eq!(rec.state().name().to_string(), "Admin");
    assert_eq!(rec.state().level(), RoleLevel::Administrator);
    assert_eq!(rec.state().privileges().to_strings(), vec!["MANAGE USERS".to_string()]);
    assert_eq!(rec.version().author(), 7);
}

fn invalid_name<T>(r: Result<T, Error>) -> String {
    match r {
        Err(Error::InvalidValue(e)) => e.name().to_string(),
        _ => panic!("expected an invalid value"),
    }
}

#[test]
fn role_new_reports_the_first_invalid_input() {
    assert_eq!(invalid_name(Role::new(1, "Admin 1", "boss", vec!["bad"], 7)), "RoleName");
    assert_eq!(invalid_name(Role::new(1, "Admin", "boss", vec!["bad"], 7)), "RoleLevel");
    assert_eq!(invalid_name(Role::new(1, "Admin", "guest", vec!["OK NAME", "bad"], 7)), "Privilege");
}

#[test]
fn update_without_change_is_a_no_op() {
    let mut rec = admin_role();
    let before = rec.version();
    let r = rec.update(9, |u: RoleUpdate| Ok(u));
    assert!(matches!(r, Ok(false)));
    assert_eq!(rec.version(), before);
    let r = rec.update(9, |mut u: RoleUpdate| {
        u.set_level(RoleLevel::Administrator);
        Ok(u)
    });
    assert!(matches!(r, Ok(false)));
    assert_eq!(rec.version(), before);
}

#[test]
fn update_with_change_stamps_the_author() {
    let mut rec = admin_role();
    let before = rec.version();
    let r = rec.update(9, |mut u: RoleUpdate| {
        u.set_level(RoleLevel::Developer);
        Ok(u)
    });
    assert!(matches!(r, Ok(true)));
    assert_eq!(rec.version().author(), 9);
    assert!(rec.version().timestamp() >= before.timestamp());
    assert_eq!(rec.state().level(), RoleLevel::Developer);
    assert_eq!(rec.state().name().to_string(), "Admin");
}

#[test]
fn update_merges_every_changed_field() {
    let mut rec = admin_role();
    let stamp = Version::new_at(5, 1_000, 2_000).unwrap();
    let r = rec.update_with(stamp, |mut u: RoleUpdate| {
        u.set_name(RoleName::from_str("Owner").unwrap());
        u.grant(Privilege::from_str("MANAGE ROLES").unwrap());
        Ok(u)
    });
    assert!(matches!(r, Ok(true)));
    assert_eq!(rec.version(), stamp);
    assert_eq!(rec.state().name().to_string(), "Owner");
    let mut names = rec.state().privileges().to_strings();
    names.sort();
    assert_eq!(names, vec!["MANAGE ROLES".to_string(), "MANAGE USERS".to_string()]);
}

#[test]
fn failing_mutator_leaves_record_unchanged() {
    let mut rec = admin_role();
    let before = rec.version();
    let r = rec.update(9, |mut u: RoleUpdate| {
        u.set_level(RoleLevel::Developer);
        if u.level() == RoleLevel::Developer {
            Err(Error::Forbiden("no".to_string()))
        } else {
            Ok(u)
        }
    });
    assert!(matches!(r, Err(Error::Forbiden(_))));
    assert_eq!(rec.version(), before);
    assert_eq!(rec.state().level(), RoleLevel::Administrator);
}

#[test]
fn password_round_trip() {
    let p = Password::generate("s3cret").unwrap();
    assert!(p.verify("s3cret"));
    assert!(!p.verify("wrong"));
    let armored = p.to_string();
    let back = Password::from_str(&armored).unwrap();
    assert!(back.verify("s3cret"));
    assert_eq!(back.to_string(), armored);
    let raw = String::from_utf8(data_encoding::BASE64_NOPAD.decode(armored.as_bytes()).unwrap()).unwrap();
    assert!(raw.starts_with("$argon2"));
    assert!(Password::from_str(&raw).unwrap().verify("s3cret"));
    assert_eq!(Password::from_str("not a hash").err().unwrap().name(), "Password");
}

#[test]
fn user_new_builds_a_record() {
    let rec = match User::new(1, "developer", "1234", Some("dev@example.com"), Some(5), 0) {
        Ok(r) => r,
        Err(_) => panic!("the user inputs are valid"),
    };
    let u = rec.state();
    assert_eq!(u.username().to_string(), "developer");
    assert!(u.password().verify("1234"));
    assert!(!u.password().verify("4321"));
    assert_eq!(u.email().unwrap().to_string(), "dev@example.com");
    assert_eq!(u.role_id(), Some(5));
    assert_eq!(u.privileges().len(), 0);
    assert_eq!(rec.version().author(), 0);
}

#[test]
fn user_new_rejects_invalid_inputs() {
    assert_eq!(invalid_name(User::new(1, "Dev", "1234", None, None, 0)), "Username");
    assert_eq!(invalid_name(User::new(1, "developer", "1234", Some("nope"), None, 0)), "Email");
}

#[test]
fn split_update_merges_only_changes() {
    let mut rec = admin_role();
    let before = rec.version();
    let stamp = Version::new_at(4, 10, 20).unwrap();
    let (snapshot, copy) = rec.begin_update::<RoleUpdate>(stamp);
    assert!(!rec.finish_update(snapshot, copy, stamp));
    assert_eq!(rec.version(), before);
    let (snapshot, mut copy) = rec.begin_update::<RoleUpdate>(stamp);
    copy.set_level(RoleLevel::Guest);
    assert!(rec.finish_update(snapshot, copy, stamp));
    assert_eq!(rec.version(), stamp);
    assert_eq!(rec.state().level(), RoleLevel::Guest);
}

#[test]
fn raw_password_hash_is_accepted() {
    let p = Password::generate("hunter2").unwrap();
    let raw = String::from_utf8(data_encoding::BASE64_NOPAD.decode(p.to_string().as_bytes()).unwrap()).unwrap();
    let back = Password::from_str(&raw).unwrap();
    assert_eq!(back.to_string(), p.to_string());
    assert!(back.verify("hunter2"));
    assert!(!back.verify(""));
}

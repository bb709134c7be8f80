use gnify::device::{DeviceName, DeviceStatus, DeviceToken, ExpirationTimestamp, SessionToken};
use gnify::error::{error, Error, InvalidValue, PersistenceError};
use gnify::privilege::{Privilege, PrivilegeSet};
use gnify::role::{RoleLevel, RoleName};
use gnify::text::TextValue;
use gnify::user::{Email, Username};

#[test]
fn privilege_round_trip() {
    for s in ["MANAGE USERS", "MANAGE ROLES", "ADMIN", "ABCD"] {
        let p = Privilege::from_str(s).unwrap();
        assert_eq!(p.to_string(), s);
        assert_eq!(p.value(), s);
    }
}

#[test]
fn privilege_rejects_bad_text() {
    for s in ["manage users", "ABC", "MANAGE  USERS", " MANAGE", "ABCDEFGHIJKLMNOPQRSTUVWXYZ ABCDEFG", ""] {
        let e = Privilege::from_str(s).err().unwrap();
        assert_eq!(e.name(), "Privilege");
    }
}

#[test]
fn privilege_length_bounds() {
    let longest = "ABCDEFGHIJKLMNOPQRSTUVWXYZ ABCDE";
    assert_eq!(longest.len(), 32);
    assert!(Privilege::from_str(longest).is_ok());
    assert!(Privilege::from_str("ABCDEFGHIJKLMNOPQRSTUVWXYZ ABCDEF").is_err());
}

#[test]
fn role_name_rules() {
    assert_eq!(RoleName::from_str("Développeur Senior").unwrap().to_string(), "Développeur Senior");
    assert_eq!(RoleName::from_str("DEVELOPER").unwrap().value(), "DEVELOPER");
    assert_eq!(RoleName::from_str("Dev 2").err().unwrap().name(), "RoleName");
    assert_eq!(RoleName::from_str("").err().unwrap().name(), "RoleName");
}

#[test]
fn username_and_email_rules() {
    assert_eq!(Username::from_str("developer").unwrap().to_string(), "developer");
    assert_eq!(Username::from_str("dev").err().unwrap().name(), "Username");
    assert_eq!(Username::from_str("_developer").err().unwrap().name(), "Username");
    assert_eq!(Username::from_str("Developer").err().unwrap().name(), "Username");
    assert_eq!(Email::from_str("dev@example.com").unwrap().to_string(), "dev@example.com");
    assert_eq!(Email::from_str("dev.example.com").err().unwrap().name(), "Email");
}

#[test]
fn device_text_rules() {
    let name = format!("A{}C", "b".repeat(30));
    assert_eq!(DeviceName::from_str(&name).unwrap().to_string(), name);
    assert_eq!(DeviceName::from_str("Short").err().unwrap().name(), "DeviceName");
    let token = "a".repeat(64);
    assert_eq!(DeviceToken::from_str(&token).unwrap().to_string(), token);
    assert_eq!(DeviceToken::from_str(&"a".repeat(63)).err().unwrap().name(), "DeviceToken");
    assert_eq!(SessionToken::from_str("x-y").err().unwrap().name(), "SessionToken");
}

#[test]
fn session_token_generation() {
    let t = SessionToken::generate();
    let s = t.to_string();
    assert_eq!(s.chars().count(), 67);
    assert!(s.starts_with("GNI"));
    assert_ne!(SessionToken::generate().to_string(), s);
}

#[test]
fn role_level_from_code() {
    assert_eq!(RoleLevel::from(4), RoleLevel::Developer);
    assert_eq!(RoleLevel::from(3), RoleLevel::Administrator);
    assert_eq!(RoleLevel::from(2), RoleLevel::Manager);
    assert_eq!(RoleLevel::from(1), RoleLevel::Operator);
    assert_eq!(RoleLevel::from(0), RoleLevel::Guest);
    assert_eq!(RoleLevel::from(9), RoleLevel::Guest);
    assert_eq!(RoleLevel::from(-1), RoleLevel::Guest);
    assert_eq!(RoleLevel::from(260), RoleLevel::Guest);
    assert_eq!(RoleLevel::Developer.code(), 4);
    assert_eq!(RoleLevel::Guest.code(), 0);
    assert!(RoleLevel::Guest < RoleLevel::Developer);
    assert_eq!(RoleLevel::default(), RoleLevel::Guest);
}

#[test]
fn role_level_from_text() {
    assert_eq!(RoleLevel::from_str("  Developer ").unwrap(), RoleLevel::Developer);
    assert_eq!(RoleLevel::from_str("ADMINISTRATOR").unwrap(), RoleLevel::Administrator);
    assert_eq!(RoleLevel::from_str("manager").unwrap(), RoleLevel::Manager);
    assert_eq!(RoleLevel::from_str("Operator\n").unwrap(), RoleLevel::Operator);
    assert_eq!(RoleLevel::from_str("guest").unwrap(), RoleLevel::Guest);
    assert_eq!(RoleLevel::from_str("boss").err().unwrap().name(), "RoleLevel");
}

#[test]
fn device_status_codes() {
    assert_eq!(DeviceStatus::from(1), DeviceStatus::Authorized);
    assert_eq!(DeviceStatus::from(0), DeviceStatus::Unauthorized);
    assert_eq!(DeviceStatus::from(7), DeviceStatus::Unauthorized);
    assert_eq!(DeviceStatus::Authorized.code(), 1);
    assert_eq!(DeviceStatus::Unauthorized.code(), 0);
}

#[test]
fn expiration_offsets() {
    assert_eq!(ExpirationTimestamp::new_at(1_000, 500).value(), 1_500);
    assert_eq!(ExpirationTimestamp::new_at(1_000, -2_000).value(), -1_000);
    assert_eq!(ExpirationTimestamp::new_at(i64::MAX - 1, 10).value(), i64::MAX);
    assert_eq!(ExpirationTimestamp::new_at(i64::MIN + 1, -10).value(), i64::MIN);
    assert_eq!(ExpirationTimestamp::from(42).value(), 42);
}

#[test]
fn error_texts() {
    assert_eq!(InvalidValue::new("Privilege").to_string(), "Invalid value for Privilege");
    assert_eq!(PersistenceError::new("gone").to_string(), "Persistence error: gone");
    assert_eq!(PersistenceError::new("gone").detail(), "gone");
    let e: Result<u8, Error> = error(Error::Forbiden("no".to_string()));
    match e {
        Err(Error::Forbiden(s)) => assert_eq!(s, "no"),
        _ => panic!("expected a forbidden error"),
    }
    assert_eq!(Error::from(InvalidValue::new("Email")).to_string(), "Invalid value for Email");
    assert_eq!(Error::from(PersistenceError::new("x")).to_string(), "Persistence error: x");
    assert!(matches!(Error::from("denied"), Error::Forbiden(ref s) if s == "denied"));
}

#[test]
fn privilege_set_keeps_names_once() {
    let names = vec!["MANAGE USERS".to_string(), "MANAGE ROLES".to_string(), "MANAGE USERS".to_string()];
    let set = PrivilegeSet::parse_all(&names).unwrap();
    assert_eq!(set.len(), 2);
    let mut out = set.to_strings();
    out.sort();
    assert_eq!(out, vec!["MANAGE ROLES".to_string(), "MANAGE USERS".to_string()]);
    assert!(set.contains(&Privilege::from_str("MANAGE ROLES").unwrap()));
    assert!(!set.contains(&Privilege::from_str("DELETE ROLES").unwrap()));
    let bad = vec!["MANAGE USERS".to_string(), "bad".to_string()];
    assert_eq!(PrivilegeSet::parse_all(&bad).err().unwrap().name(), "Privilege");
    let other = PrivilegeSet::parse_strs(&vec!["MANAGE ROLES", "MANAGE USERS"]).unwrap();
    assert!(set.same_as(&other));
    assert!(!set.same_as(&PrivilegeSet::new()));
}

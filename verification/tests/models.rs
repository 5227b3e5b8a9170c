use chrono::NaiveDate;
use garage_rfid::log_data::LogData;
use garage_rfid::models::credential::Credential;
use garage_rfid::models::log::Log;
use garage_rfid::models::user::User;

fn is_v4_uuid_text(id: &str) -> bool {
    let chars: Vec<char> = id.chars().collect();
    chars.len() == 36
        && chars.iter().enumerate().all(|(i, c)| {
            if i == 8 || i == 13 || i == 18 || i == 23 {
                *c == '-'
            } else {
                c.is_ascii_digit() || ('a'..='f').contains(c)
            }
        })
        && chars[14] == '4'
}

#[test]
fn user_create_builds_a_fresh_record() {
    let user = User::create("Matilda".to_string());
    assert_eq!(user.name, "Matilda");
    assert!(is_v4_uuid_text(&user.id));
    assert_eq!(user.created_at, user.updated_at);
    let other = User::create("Matilda".to_string());
    assert_ne!(user.id, other.id);
}

#[test]
fn credential_create_builds_a_fresh_record() {
    let credential = Credential::create(
        "dea3f799-f6da-423d-aecf-21518a8b76ad",
        "Taco RFID".to_string(),
        "RFID".to_string(),
        "101100101100".to_string(),
    );
    assert_eq!(credential.user_id, "dea3f799-f6da-423d-aecf-21518a8b76ad");
    assert_eq!(credential.name, "Taco RFID");
    assert_eq!(credential.variety, "RFID");
    assert_eq!(credential.value, "101100101100");
    assert!(is_v4_uuid_text(&credential.id));
    assert_eq!(credential.created_at, credential.updated_at);
}

#[test]
fn log_create_builds_a_fresh_record() {
    let log = Log::create("Bouncer", "is_authorized", Some("u-1"), Some(LogData::AuthSuccessData));
    assert_eq!(log.module, "Bouncer");
    assert_eq!(log.action, "is_authorized");
    assert_eq!(log.user_id, Some("u-1".to_string()));
    assert_eq!(log.data, Some(LogData::AuthSuccessData));
    assert!(is_v4_uuid_text(&log.id));
    let log = Log::create("Bouncer", "is_authorized", None, None);
    assert_eq!(log.user_id, None);
    assert_eq!(log.data, None);
}

#[test]
fn log_format_user_id_copies_the_id() {
    assert_eq!(Log::format_user_id(Some("abc")), Some("abc".to_string()));
    assert_eq!(Log::format_user_id(None), None);
}

#[test]
fn new_records_keep_every_field() {
    let at = NaiveDate::from_ymd_opt(2018, 1, 2).unwrap().and_hms_opt(3, 4, 5).unwrap();
    let user = User::new_record("u-1".to_string(), "Matilda".to_string(), at);
    assert_eq!(user.id, "u-1");
    assert_eq!(user.name, "Matilda");
    assert_eq!(user.created_at, at);
    assert_eq!(user.updated_at, at);
    let credential = Credential::new_record(
        "c-1".to_string(),
        "u-1",
        "Taco RFID".to_string(),
        "RFID".to_string(),
        "101100101100".to_string(),
        at,
    );
    assert_eq!(credential.id, "c-1");
    assert_eq!(credential.user_id, "u-1");
    assert_eq!(credential.name, "Taco RFID");
    assert_eq!(credential.variety, "RFID");
    assert_eq!(credential.value, "101100101100");
    assert_eq!(credential.created_at, at);
    assert_eq!(credential.updated_at, at);
    let log = Log::new_record("l-1".to_string(), "Bouncer", "is_authorized", None, Some(LogData::AuthFailData), at);
    assert_eq!(log.id, "l-1");
    assert_eq!(log.module, "Bouncer");
    assert_eq!(log.action, "is_authorized");
    assert_eq!(log.user_id, None);
    assert_eq!(log.data, Some(LogData::AuthFailData));
    assert_eq!(log.created_at, at);
}

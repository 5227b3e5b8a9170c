use chrono::NaiveDate;
use garage_rfid::bouncer::{Bouncer, Variety};
use garage_rfid::models::credential::Credential;

fn credential(variety: &str, value: &str) -> Credential {
    let at = NaiveDate::from_ymd_opt(2018, 1, 2).unwrap().and_hms_opt(3, 4, 5).unwrap();
    Credential {
        id: "c-1".to_string(),
        user_id: "u-1".to_string(),
        name: "Taco RFID".to_string(),
        variety: variety.to_string(),
        value: value.to_string(),
        created_at: at,
        updated_at: at,
    }
}

#[test]
fn bouncer_approves_a_matching_credential() {
    let bouncer = Bouncer::new();
    let found = credential("RFID", "101100101100");
    let verdict = bouncer.is_authorized(Variety::RFID, "101100101100", Some(&found));
    assert!(verdict.approved);
    assert_eq!(verdict.announcement, "Bouncer approved RFID Taco RFID.");
}

#[test]
fn bouncer_denies_when_nothing_is_found() {
    let bouncer = Bouncer::new();
    let verdict = bouncer.is_authorized(Variety::PIN, "234", None);
    assert!(!verdict.approved);
    assert_eq!(verdict.announcement, "Bouncer denied PIN 234.");
}

#[test]
fn bouncer_denies_a_credential_of_another_kind_or_value() {
    let bouncer = Bouncer::new();
    let found = credential("RFID", "1234");
    let verdict = bouncer.is_authorized(Variety::PIN, "1234", Some(&found));
    assert!(!verdict.approved);
    assert_eq!(verdict.announcement, "Bouncer denied PIN 1234.");
    let verdict = bouncer.is_authorized(Variety::RFID, "12345", Some(&found));
    assert!(!verdict.approved);
    assert_eq!(verdict.announcement, "Bouncer denied RFID 12345.");
}

#[test]
fn variety_names() {
    assert_eq!(Variety::RFID.as_str(), "RFID");
    assert_eq!(Variety::PIN.as_str(), "PIN");
}

//! A secret a user presents at the reader: a badge number or a PIN.

use vstd::prelude::*;
use chrono::NaiveDateTime;
use crate::models::stamp::{is_v4_uuid_text, new_id, now_utc};

verus! {

/// A row of the `credentials` table. `variety` names the kind of secret
/// (`RFID` or `PIN`) and `value` is the secret as the reader reports it.
#[derive(Debug)]
pub struct Credential {
    pub id: String,
    pub user_id: String,
    pub name: String,
    pub variety: String,
    pub value: String,
    pub created_at: NaiveDateTime,
    pub updated_at: NaiveDateTime,
}

impl Credential {
    /// The record of a credential of user `user_id` with identifier `id`,
    /// the given name, variety and value, created and last updated at `now`.
    pub fn new_record(
        id: String,
        user_id: &str,
        name: String,
        variety: String,
        value: String,
        now: NaiveDateTime,
    ) -> (credential: Credential)
        ensures
            credential.id@ == id@,
            credential.user_id@ == user_id@,
            credential.name@ == name@,
            credential.variety@ == variety@,
            credential.value@ == value@,
            credential.created_at == now,
            credential.updated_at == now,
    {
        Credential {
            id,
            user_id: String::from_str(user_id),
            name,
            variety,
            value,
            created_at: now,
            updated_at: now,
        }
    }

    /// The record stored for a new credential of user `user_id`: the given
    /// name, variety and value, a fresh random id, and one reading of the
    /// clock as both its creation and update time.
    pub fn create(user_id: &str, name: String, variety: String, value: String) -> (credential: Credential)
        ensures
            credential.user_id@ == user_id@,
            credential.name@ == name@,
            credential.variety@ == variety@,
            credential.value@ == value@,
            is_v4_uuid_text(credential.id@),
            credential.created_at == credential.updated_at,
    {
        let id = new_id();
        let now = now_utc();
        Credential::new_record(id, user_id, name, variety, value, now)
    }
}

} // verus!

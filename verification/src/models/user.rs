//! A person who may hold credentials.

use vstd::prelude::*;
use chrono::NaiveDateTime;
use crate::models::stamp::{is_v4_uuid_text, new_id, now_utc};

verus! {

/// A row of the `users` table.
#[derive(Debug)]
pub struct User {
    pub id: String,
    pub name: String,
    pub created_at: NaiveDateTime,
    pub updated_at: NaiveDateTime,
}

impl User {
    /// The record of a user named `name` with identifier `id`, created and
    /// last updated at `now`.
    pub fn new_record(id: String, name: String, now: NaiveDateTime) -> (user: User)
        ensures
            user.id@ == id@,
            user.name@ == name@,
            user.created_at == now,
            user.updated_at == now,
    {
        User { id, name, created_at: now, updated_at: now }
    }

    /// The record stored for a new user named `name`: a fresh random id,
    /// and one reading of the clock as both its creation and update time.
    pub fn create(name: String) -> (user: User)
        ensures
            user.name@ == name@,
            is_v4_uuid_text(user.id@),
            user.created_at == user.updated_at,
    {
        let id = new_id();
        let now = now_utc();
        User::new_record(id, name, now)
    }
}

} // verus!

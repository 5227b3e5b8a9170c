//! An audit entry: which module did what, for whom.

use vstd::prelude::*;
use chrono::NaiveDateTime;
use crate::log_data::LogData;
use crate::models::stamp::{is_v4_uuid_text, new_id, now_utc};

verus! {

/// A row of the `logs` table.
#[derive(Debug)]
pub struct Log {
    pub id: String,
    pub module: String,
    pub action: String,
    pub user_id: Option<String>,
    pub data: Option<LogData>,
    pub created_at: NaiveDateTime,
}

impl Log {
    /// The record of an audit entry with identifier `id`, the given module,
    /// action, user and data, created at `now`.
    pub fn new_record(
        id: String,
        module: &str,
        action: &str,
        user_id: Option<&str>,
        data: Option<LogData>,
        now: NaiveDateTime,
    ) -> (log: Log)
        ensures
            log.id@ == id@,
            log.module@ == module@,
            log.action@ == action@,
            log.user_id is Some <==> user_id is Some,
            log.user_id matches Some(u) ==> u@ == user_id->0@,
            log.data == data,
            log.created_at == now,
    {
        Log {
            id,
            module: String::from_str(module),
            action: String::from_str(action),
            user_id: Log::format_user_id(user_id),
            data,
            created_at: now,
        }
    }

    /// The record stored for a new audit entry: the given module, action,
    /// user and data, a fresh random id, and the current time.
    pub fn create(module: &str, action: &str, user_id: Option<&str>, data: Option<LogData>) -> (log: Log)
        ensures
            log.module@ == module@,
            log.action@ == action@,
            log.user_id is Some <==> user_id is Some,
            log.user_id matches Some(u) ==> u@ == user_id->0@,
            log.data == data,
            is_v4_uuid_text(log.id@),
    {
        let id = new_id();
        let now = now_utc();
        Log::new_record(id, module, action, user_id, data, now)
    }

    /// An owned copy of the optional user id.
    pub fn format_user_id(user_id: Option<&str>) -> (formatted: Option<String>)
        ensures
            formatted is Some <==> user_id is Some,
            formatted matches Some(f) ==> f@ == user_id->0@,
    {
        match user_id {
            Some(id) => Some(String::from_str(id)),
            None => None,
        }
    }
}

} // verus!

//! The web interface's answers about users: which status and body to send
//! for what the store gave back.

use vstd::prelude::*;

verus! {

/// The statuses the interface answers with.
#[derive(Debug, Clone, Copy, PartialEq, Eq, Structural)]
pub enum HttpStatus {
    Success,
    NotFound,
    InternalServerError,
}

/// What loading and writing out the requested users gave.
#[derive(Debug)]
pub enum Loaded {
    /// The users, written out as JSON.
    Json(String),
    /// The store has no such user.
    NotFound,
    /// Loading or writing out failed.
    Failed,
}

/// A JSON answer.
#[derive(Debug)]
pub struct JsonReply {
    pub status: HttpStatus,
    pub body: String,
}

/// Answers requests about users.
pub struct UsersController {}

impl UsersController {
    /// The answer to a listing: the JSON with `Success`, or an empty body with
    /// `InternalServerError` on any failure.
    pub fn index(loaded: Loaded) -> (reply: JsonReply)
        ensures
            loaded matches Loaded::Json(j) ==> reply.status == HttpStatus::Success && reply.body@ == j@,
            !(loaded is Json) ==> reply.status == HttpStatus::InternalServerError && reply.body@.len() == 0,
    {
        match loaded {
            Loaded::Json(json) => JsonReply { status: HttpStatus::Success, body: json },
            _ => JsonReply { status: HttpStatus::InternalServerError, body: String::new() },
        }
    }

    /// The answer to a lookup of one user: the JSON with `Success`, an empty body
    /// with `NotFound` when there is no such user, or an empty body with
    /// `InternalServerError` on any other failure.
    pub fn show(loaded: Loaded) -> (reply: JsonReply)
        ensures
            loaded matches Loaded::Json(j) ==> reply.status == HttpStatus::Success && reply.body@ == j@,
            loaded is NotFound ==> reply.status == HttpStatus::NotFound && reply.body@.len() == 0,
            loaded is Failed ==> reply.status == HttpStatus::InternalServerError && reply.body@.len() == 0,
    {
        match loaded {
            Loaded::Json(json) => JsonReply { status: HttpStatus::Success, body: json },
            Loaded::NotFound => JsonReply { status: HttpStatus::NotFound, body: String::new() },
            Loaded::Failed => JsonReply { status: HttpStatus::InternalServerError, body: String::new() },
        }
    }

    /// The answer to a creation: the new user, written out as JSON, with
    /// `Success`; when the request could not be read, its error, passed on.
    pub fn create<E>(written: Result<String, E>) -> (reply: Result<JsonReply, E>)
        ensures
            reply is Ok <==> written is Ok,
            reply matches Ok(r) ==> r.status == HttpStatus::Success && r.body@ == written->Ok_0@,
            written matches Err(e) ==> reply == Err::<JsonReply, E>(e),
    {
        match written {
            Ok(json) => Ok(JsonReply { status: HttpStatus::Success, body: json }),
            Err(err) => Err(err),
        }
    }

    /// The answer to an update: the renamed user, written out as JSON, with
    /// `Success`; when reading, storing or writing failed, its error, passed on.
    pub fn update<E>(written: Result<String, E>) -> (reply: Result<JsonReply, E>)
        ensures
            reply is Ok <==> written is Ok,
            reply matches Ok(r) ==> r.status == HttpStatus::Success && r.body@ == written->Ok_0@,
            written matches Err(e) ==> reply == Err::<JsonReply, E>(e),
    {
        match written {
            Ok(json) => Ok(JsonReply { status: HttpStatus::Success, body: json }),
            Err(err) => Err(err),
        }
    }
}

} // verus!

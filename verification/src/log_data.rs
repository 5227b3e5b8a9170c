//! The kinds of data an audit entry may carry.

use vstd::prelude::*;

verus! {

/// The payload kind of an audit entry.
#[derive(Debug, Clone, Copy, PartialEq, Eq, Structural)]
pub enum LogData {
    AuthSuccessData,
    AuthFailData,
}

/// Data of a successful authorization: the credential that was accepted.
#[derive(Debug)]
pub struct AuthSuccessData {
    pub credential_id: String,
}

/// Data of a refused authorization: what was presented.
#[derive(Debug)]
pub struct AuthFailData {
    pub variety: String,
    pub value: String,
}

} // verus!

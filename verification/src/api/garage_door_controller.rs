//! The web interface's answers about the door.

use vstd::prelude::*;
use crate::garage_door::{status_text, GarageDoor};

verus! {

/// The body of the door's status page.
#[derive(Debug)]
pub struct Show {
    pub status: String,
}

/// The answer to a command: whether to pulse the opener, and the body to send.
#[derive(Debug)]
pub struct Reply {
    pub pulse: bool,
    pub body: &'static str,
}

/// Answers requests about the door.
pub struct GarageDoorController {}

impl GarageDoorController {
    /// The door's status page.
    pub fn show(door: &GarageDoor) -> (show: Show)
        ensures
            show.status@ == status_text(door@.is_open),
    {
        Show { status: door.status() }
    }

    /// The toggle command: always pulse.
    pub fn toggle(door: &GarageDoor) -> (reply: Reply)
        ensures
            reply.pulse,
            reply.body@ == "\"Door toggled\""@,
    {
        Reply { pulse: door.toggle(), body: "\"Door toggled\"" }
    }

    /// The open command: pulse only a closed door.
    pub fn open(door: &GarageDoor) -> (reply: Reply)
        ensures
            reply.pulse == !door@.is_open,
            reply.body@ == "\"Door opened\""@,
    {
        Reply { pulse: door.open(), body: "\"Door opened\"" }
    }

    /// The close command: pulse only an open door.
    pub fn close(door: &GarageDoor) -> (reply: Reply)
        ensures
            reply.pulse == door@.is_open,
            reply.body@ == "\"Door closed\""@,
    {
        Reply { pulse: door.close(), body: "\"Door closed\"" }
    }
}

} // verus!

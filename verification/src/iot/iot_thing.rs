//! The door as a web thing: which actions the thing accepts, how the door's
//! broadcasts set its `open` property, and the event text that goes with it.

use vstd::prelude::*;
use crate::garage_door::{movement_announcement, movement_broadcast};
use crate::text::str_eq;

verus! {

/// The actions the thing accepts.
#[derive(Debug, Clone, Copy, PartialEq, Eq, Structural)]
pub enum ThingAction {
    Close,
}

/// The action a request named `name` asks for.
pub open spec fn action_named(name: Seq<char>) -> Option<ThingAction> {
    if name == "close"@ { Some(ThingAction::Close) } else { None }
}

/// The door state a broadcast message reports, if it reports one.
pub open spec fn door_state_of(message: Seq<char>) -> Option<bool> {
    if message == "opened"@ {
        Some(true)
    } else if message == "closed"@ {
        Some(false)
    } else {
        None
    }
}

/// Makes the actions that requests to the thing ask for.
pub struct Generator {
    ttt: String,
}

impl Generator {
    /// The label the generator was made with.
    pub closed spec fn label(&self) -> Seq<char> {
        self.ttt@
    }

    /// A generator labelled `ttt`.
    pub fn new(ttt: String) -> (generator: Generator)
        ensures
            generator.label() == ttt@,
    {
        Generator { ttt: ttt }
    }

    /// The action that a request named `name` asks for: `close` is the only
    /// one there is.
    pub fn generate(&self, name: &str) -> (action: Option<ThingAction>)
        ensures
            action == action_named(name@),
    {
        if str_eq(name, "close") {
            Some(ThingAction::Close)
        } else {
            None
        }
    }
}

/// The door state that a message of the door's broadcast reports: `opened`
/// and `closed` do, any other message does not.
pub fn door_state_from_message(message: &str) -> (is_open: Option<bool>)
    ensures
        is_open == door_state_of(message@),
{
    if str_eq(message, "opened") {
        Some(true)
    } else if str_eq(message, "closed") {
        Some(false)
    } else {
        None
    }
}

/// The text of the event that the thing records when the door moved.
pub fn open_message(is_open: bool) -> (message: &'static str)
    ensures
        message@ == movement_announcement(is_open),
{
    if is_open {
        "Garage door opened"
    } else {
        "Garage door closed"
    }
}

/// What the door broadcasts on moving, the thing reads back as the state
/// the door moved to.
pub proof fn lemma_broadcast_round_trip(is_open: bool)
    ensures
        door_state_of(movement_broadcast(is_open)) == Some(is_open),
{
    reveal_strlit("opened");
    reveal_strlit("closed");
    if !is_open {
        assert("closed"@[0] != "opened"@[0]);
    }
}

} // verus!

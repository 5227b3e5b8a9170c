//! The garage door: what its sensor says, and what the opener must do when
//! asked to open, close or toggle it. The pins themselves are driven
//! outside; the door says which pulses and lamp levels to put on them.

use vstd::prelude::*;
use crate::configuration::Configuration;

verus! {

/// The door's state as the contracts speak of it.
pub struct GarageDoorView {
    pub sensor_gpio: usize,
    pub opener_gpio: usize,
    pub open_led_gpio: usize,
    pub closed_led_gpio: usize,
    pub is_open: bool,
}

/// The text of the door's status.
pub open spec fn status_text(is_open: bool) -> Seq<char> {
    if is_open { "open"@ } else { "closed"@ }
}

/// The announcement that the door moved.
pub open spec fn movement_announcement(is_open: bool) -> Seq<char> {
    if is_open { "Garage door opened"@ } else { "Garage door closed"@ }
}

/// The message broadcast to subscribers when the door moved.
pub open spec fn movement_broadcast(is_open: bool) -> Seq<char> {
    if is_open { "opened"@ } else { "closed"@ }
}

/// A sensor reading of `raw_sensor_value` says the door is open exactly when it is 1.
pub open spec fn reads_open(raw_sensor_value: u8) -> bool {
    raw_sensor_value == 1
}

/// The door after a sensor reading of `raw_sensor_value`: it is in the state read.
pub open spec fn after_sensor(v: GarageDoorView, raw_sensor_value: u8) -> GarageDoorView {
    GarageDoorView { is_open: reads_open(raw_sensor_value), ..v }
}

/// Whether a sensor reading of `raw_sensor_value` shows the door moved.
pub open spec fn sensor_moves(v: GarageDoorView, raw_sensor_value: u8) -> bool {
    v.is_open != reads_open(raw_sensor_value)
}

/// Whether opening the door takes a pulse of the opener.
pub open spec fn open_pulses(v: GarageDoorView) -> bool {
    !v.is_open
}

/// Whether closing the door takes a pulse of the opener.
pub open spec fn close_pulses(v: GarageDoorView) -> bool {
    v.is_open
}

/// A reading settles the door: the same reading again shows no movement and
/// leaves the door as it is.
pub proof fn lemma_sensor_settles(v: GarageDoorView, raw_sensor_value: u8)
    ensures
        !sensor_moves(after_sensor(v, raw_sensor_value), raw_sensor_value),
        after_sensor(after_sensor(v, raw_sensor_value), raw_sensor_value) == after_sensor(v, raw_sensor_value),
{
}

/// Exactly one of opening and closing the door pulses the opener; after the
/// sensor read the door open, only closing does.
pub proof fn lemma_one_command_pulses(v: GarageDoorView, raw_sensor_value: u8)
    ensures
        open_pulses(v) != close_pulses(v),
        reads_open(raw_sensor_value) ==> close_pulses(after_sensor(v, raw_sensor_value))
            && !open_pulses(after_sensor(v, raw_sensor_value)),
        !reads_open(raw_sensor_value) ==> open_pulses(after_sensor(v, raw_sensor_value))
            && !close_pulses(after_sensor(v, raw_sensor_value)),
{
}

/// What to do after the door was seen to move: announce it, broadcast it,
/// and light the lamp of the new state.
#[derive(Debug)]
pub struct DoorChange {
    pub is_open: bool,
    pub announcement: &'static str,
    pub broadcast: &'static str,
    pub open_led: u8,
    pub closed_led: u8,
}

/// Whether `change` is what the door does on seeing it is now `is_open`.
pub open spec fn is_change_to(change: DoorChange, is_open: bool) -> bool {
    &&& change.is_open == is_open
    &&& change.announcement@ == movement_announcement(is_open)
    &&& change.broadcast@ == movement_broadcast(is_open)
    &&& change.open_led == (if is_open { 1u8 } else { 0u8 })
    &&& change.closed_led == (if is_open { 0u8 } else { 1u8 })
}

/// The door's pins and its last known state.
pub struct GarageDoor {
    sensor_gpio: usize,
    opener_gpio: usize,
    open_led_gpio: usize,
    closed_led_gpio: usize,
    is_open: bool,
}

impl View for GarageDoor {
    type V = GarageDoorView;

    closed spec fn view(&self) -> GarageDoorView {
        GarageDoorView {
            sensor_gpio: self.sensor_gpio,
            opener_gpio: self.opener_gpio,
            open_led_gpio: self.open_led_gpio,
            closed_led_gpio: self.closed_led_gpio,
            is_open: self.is_open,
        }
    }
}

impl GarageDoor {
    /// A door on the pins of `configuration`, taken to be open until its
    /// sensor says otherwise.
    pub fn new(configuration: &Configuration) -> (door: GarageDoor)
        ensures
            door@.sensor_gpio == configuration.garage_door.sensor_gpio,
            door@.opener_gpio == configuration.garage_door.opener_gpio,
            door@.open_led_gpio == configuration.garage_door.open_led_gpio,
            door@.closed_led_gpio == configuration.garage_door.closed_led_gpio,
            door@.is_open,
    {
        GarageDoor {
            sensor_gpio: configuration.garage_door.sensor_gpio,
            opener_gpio: configuration.garage_door.opener_gpio,
            open_led_gpio: configuration.garage_door.open_led_gpio,
            closed_led_gpio: configuration.garage_door.closed_led_gpio,
            is_open: true,
        }
    }

    /// The pin of the door sensor.
    pub fn sensor_gpio(&self) -> (pin: usize)
        ensures
            pin == self@.sensor_gpio,
    {
        self.sensor_gpio
    }

    /// The pin of the opener relay.
    pub fn opener_gpio(&self) -> (pin: usize)
        ensures
            pin == self@.opener_gpio,
    {
        self.opener_gpio
    }

    /// The pin of the lamp lit while the door is open.
    pub fn open_led_gpio(&self) -> (pin: usize)
        ensures
            pin == self@.open_led_gpio,
    {
        self.open_led_gpio
    }

    /// The pin of the lamp lit while the door is closed.
    pub fn closed_led_gpio(&self) -> (pin: usize)
        ensures
            pin == self@.closed_led_gpio,
    {
        self.closed_led_gpio
    }

    /// Takes a reading of the door sensor. When it differs from the known
    /// state, the state follows it and the change to announce is returned;
    /// otherwise nothing changes.
    pub fn on_sensor_value(&mut self, raw_sensor_value: u8) -> (change: Option<DoorChange>)
        ensures
            final(self)@ == after_sensor(old(self)@, raw_sensor_value),
            change is Some <==> sensor_moves(old(self)@, raw_sensor_value),
            change matches Some(c) ==> is_change_to(c, reads_open(raw_sensor_value)),
    {
        let sensor_value = raw_sensor_value == 1;
        if self.is_open != sensor_value {
            self.is_open = sensor_value;
            if sensor_value {
                Some(DoorChange {
                    is_open: true,
                    announcement: "Garage door opened",
                    broadcast: "opened",
                    open_led: 1,
                    closed_led: 0,
                })
            } else {
                Some(DoorChange {
                    is_open: false,
                    announcement: "Garage door closed",
                    broadcast: "closed",
                    open_led: 0,
                    closed_led: 1,
                })
            }
        } else {
            None
        }
    }

    /// `open` or `closed`.
    pub fn status(&self) -> (status: String)
        ensures
            status@ == status_text(self@.is_open),
    {
        if self.is_open() {
            String::from_str("open")
        } else {
            String::from_str("closed")
        }
    }

    /// Whether the opener must be pulsed to open the door: only when it is closed.
    pub fn open(&self) -> (pulse: bool)
        ensures
            pulse == open_pulses(self@),
    {
        !self.is_open()
    }

    /// Whether the opener must be pulsed to close the door: only when it is open.
    pub fn close(&self) -> (pulse: bool)
        ensures
            pulse == close_pulses(self@),
    {
        self.is_open()
    }

    /// Whether the opener must be pulsed to toggle the door: always.
    pub fn toggle(&self) -> (pulse: bool)
        ensures
            pulse,
    {
        true
    }

    /// The last known state of the door.
    pub fn is_open(&self) -> (is_open: bool)
        ensures
            is_open == self@.is_open,
    {
        self.is_open
    }
}

} // verus!

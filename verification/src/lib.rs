//! Decision logic of an RFID keypad and garage door controller: the
//! keypad code table, the bit buffer that turns reader pulses into PIN and
//! badge authorization requests, the bouncer's verdict, and the door's
//! sensor and opener rules.

pub mod text;
pub mod key_mapper;
pub mod log_data;
pub mod models;
pub mod bouncer;
pub mod rfid_buffer;
pub mod configuration;
pub mod garage_door;
pub mod iot;
pub mod root_logger;
pub mod slacker;
pub mod api;
pub mod users_controller;

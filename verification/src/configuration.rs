//! The settings the controller runs with, as read from its configuration files.

use vstd::prelude::*;

verus! {

/// Where the credential store lives.
#[derive(Debug)]
pub struct DatabaseConfiguration {
    pub url: String,
}

/// How much to log, and where.
#[derive(Debug)]
pub struct LoggingConfiguration {
    pub level: String,
    pub log_file_path: String,
}

/// The GPIO pins of the door: the opener relay, the door sensor and the two lamps.
#[derive(Debug, Clone, Copy)]
pub struct GarageDoorConfiguration {
    pub opener_gpio: usize,
    pub sensor_gpio: usize,
    pub open_led_gpio: usize,
    pub closed_led_gpio: usize,
}

/// Where the web interface listens.
#[derive(Debug)]
pub struct HttpServerConfiguration {
    pub address: String,
    pub port: usize,
}

/// The GPIO pins and timeouts of the card reader.
#[derive(Debug, Clone, Copy)]
pub struct RfidReaderConfiguration {
    pub data_0_gpio: usize,
    pub data_1_gpio: usize,
    pub green_led_gpio: usize,
    pub red_led_gpio: usize,
    pub wait_timeout_ms: usize,
    pub read_timeout_ms: usize,
    pub pin_key_timeout_secs: usize,
}

/// Where announcements are posted.
#[derive(Debug)]
pub struct SlackConfiguration {
    pub channel: String,
    pub username: String,
    pub webhook_url: String,
}

/// All the settings.
#[derive(Debug)]
pub struct Configuration {
    pub database: DatabaseConfiguration,
    pub logging: LoggingConfiguration,
    pub garage_door: GarageDoorConfiguration,
    pub http_server: HttpServerConfiguration,
    pub rfid_reader: RfidReaderConfiguration,
    pub slack: SlackConfiguration,
}

} // verus!

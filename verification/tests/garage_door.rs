use garage_rfid::api::garage_door_controller::GarageDoorController;
use garage_rfid::configuration::{
    Configuration, DatabaseConfiguration, GarageDoorConfiguration, HttpServerConfiguration,
    LoggingConfiguration, RfidReaderConfiguration, SlackConfiguration,
};
use garage_rfid::garage_door::GarageDoor;
use garage_rfid::iot::iot_thing::door_state_from_message;
use garage_rfid::slacker::Slacker;

fn configuration() -> Configuration {
    Configuration {
        database: DatabaseConfiguration { url: "db/garage.sqlite3".to_string() },
        logging: LoggingConfiguration {
            level: "INFO".to_string(),
            log_file_path: "log/garage.log".to_string(),
        },
        garage_door: GarageDoorConfiguration {
            opener_gpio: 17,
            sensor_gpio: 27,
            open_led_gpio: 22,
            closed_led_gpio: 23,
        },
        http_server: HttpServerConfiguration { address: "0.0.0.0".to_string(), port: 8080 },
        rfid_reader: RfidReaderConfiguration {
            data_0_gpio: 5,
            data_1_gpio: 6,
            green_led_gpio: 13,
            red_led_gpio: 19,
            wait_timeout_ms: 1000,
            read_timeout_ms: 120,
            pin_key_timeout_secs: 15,
        },
        slack: SlackConfiguration {
            channel: "#garage".to_string(),
            username: "garage-bot".to_string(),
            webhook_url: "https://hooks.example.com/T000".to_string(),
        },
    }
}

#[test]
fn garage_door_starts_open_on_configured_pins() {
    let door = GarageDoor::new(&configuration());
    assert!(door.is_open());
    assert_eq!(door.status(), "open");
    assert_eq!(door.sensor_gpio(), 27);
    assert_eq!(door.opener_gpio(), 17);
    assert_eq!(door.open_led_gpio(), 22);
    assert_eq!(door.closed_led_gpio(), 23);
}

#[test]
fn garage_door_commands_pulse_only_when_needed() {
    let mut door = GarageDoor::new(&configuration());
    assert!(!door.open());
    assert!(door.close());
    assert!(door.toggle());
    door.on_sensor_value(0);
    assert!(door.open());
    assert!(!door.close());
    assert!(door.toggle());
    assert_eq!(door.status(), "closed");
}

#[test]
fn garage_door_sensor_changes_are_announced_once() {
    let mut door = GarageDoor::new(&configuration());
    assert!(door.on_sensor_value(1).is_none());
    let change = door.on_sensor_value(0).unwrap();
    assert!(!change.is_open);
    assert_eq!(change.announcement, "Garage door closed");
    assert_eq!(change.broadcast, "closed");
    assert_eq!((change.open_led, change.closed_led), (0, 1));
    assert!(!door.is_open());
    assert!(door.on_sensor_value(0).is_none());
    assert!(door.on_sensor_value(7).is_none());
    let change = door.on_sensor_value(1).unwrap();
    assert!(change.is_open);
    assert_eq!(change.announcement, "Garage door opened");
    assert_eq!(change.broadcast, "opened");
    assert_eq!((change.open_led, change.closed_led), (1, 0));
    assert!(door.is_open());
}

#[test]
fn garage_door_broadcast_is_read_back_by_the_thing() {
    let mut door = GarageDoor::new(&configuration());
    let change = door.on_sensor_value(0).unwrap();
    assert_eq!(door_state_from_message(change.broadcast), Some(false));
    let change = door.on_sensor_value(1).unwrap();
    assert_eq!(door_state_from_message(change.broadcast), Some(true));
}

#[test]
fn garage_door_controller_replies() {
    let mut door = GarageDoor::new(&configuration());
    assert_eq!(GarageDoorController::show(&door).status, "open");
    let reply = GarageDoorController::toggle(&door);
    assert!(reply.pulse);
    assert_eq!(reply.body, "\"Door toggled\"");
    let reply = GarageDoorController::open(&door);
    assert!(!reply.pulse);
    assert_eq!(reply.body, "\"Door opened\"");
    let reply = GarageDoorController::close(&door);
    assert!(reply.pulse);
    assert_eq!(reply.body, "\"Door closed\"");
    door.on_sensor_value(0);
    assert_eq!(GarageDoorController::show(&door).status, "closed");
    assert!(GarageDoorController::open(&door).pulse);
    assert!(!GarageDoorController::close(&door).pulse);
}

#[test]
fn slacker_takes_its_settings_from_configuration() {
    let slacker = Slacker::new(&configuration());
    assert_eq!(slacker.channel(), "#garage");
    assert_eq!(slacker.username(), "garage-bot");
    assert_eq!(slacker.webhook_url(), "https://hooks.example.com/T000");
}

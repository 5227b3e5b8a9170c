use garage_rfid::iot::iot_thing::{door_state_from_message, open_message, Generator, ThingAction};

#[test]
fn generator_makes_only_close_actions() {
    let generator = Generator::new("hello".to_string());
    assert_eq!(generator.generate("close"), Some(ThingAction::Close));
    assert_eq!(generator.generate("open"), None);
    assert_eq!(generator.generate("Close"), None);
    assert_eq!(generator.generate(""), None);
}

#[test]
fn door_messages_set_the_open_property() {
    assert_eq!(door_state_from_message("opened"), Some(true));
    assert_eq!(door_state_from_message("closed"), Some(false));
    assert_eq!(door_state_from_message("Failed to receive"), None);
    assert_eq!(door_state_from_message(""), None);
}

#[test]
fn door_event_texts() {
    assert_eq!(open_message(true), "Garage door opened");
    assert_eq!(open_message(false), "Garage door closed");
}

use garage_rfid::bouncer::Variety;
use garage_rfid::rfid_buffer::{
    AuthorizationError, AuthorizationOutcome, AuthorizationRequest, BufferEvent, RfidBuffer,
};

fn read(buffer: &mut RfidBuffer, code: &str, now_ns: u128) -> Option<AuthorizationRequest> {
    for c in code.chars() {
        let bit = if c == '1' { 1 } else { 0 };
        assert!(buffer.receive(BufferEvent::Bit(bit), now_ns).is_none());
    }
    buffer.receive(BufferEvent::Timeout, now_ns)
}

#[test]
fn rfid_buffer_starts_empty_and_waiting() {
    let buffer = RfidBuffer::new(1000, 120, 15, 0);
    assert_eq!(buffer.bits(), "");
    assert_eq!(buffer.pin_keys(), "");
    assert_eq!(buffer.timeout_ms(), 1000);
    assert!(!buffer.pin_key_buffer_is_stale(1_000_000_000_000));
}

#[test]
fn rfid_buffer_uses_read_timeout_during_a_read() {
    let mut buffer = RfidBuffer::new(1000, 120, 15, 0);
    assert!(buffer.receive(BufferEvent::Bit(1), 5).is_none());
    assert_eq!(buffer.timeout_ms(), 120);
    assert_eq!(buffer.bits(), "1");
    let request = buffer.receive(BufferEvent::Timeout, 6).unwrap();
    assert_eq!(request.variety, Variety::RFID);
    assert_eq!(request.value, "1");
    assert_eq!(buffer.timeout_ms(), 1000);
    assert_eq!(buffer.bits(), "");
}

#[test]
fn rfid_buffer_pin_entry_is_submitted_with_hash() {
    let mut buffer = RfidBuffer::new(1000, 120, 15, 0);
    assert!(read(&mut buffer, "11100001", 10).is_none());
    assert!(read(&mut buffer, "11010010", 20).is_none());
    assert!(read(&mut buffer, "11000011", 30).is_none());
    assert_eq!(buffer.pin_keys(), "123");
    let request = read(&mut buffer, "01001011", 40).unwrap();
    assert_eq!(request.variety, Variety::PIN);
    assert_eq!(request.value, "123");
    assert_eq!(buffer.bits(), "");
    assert_eq!(buffer.pin_keys(), "123");
    let outcome = buffer.process_authorization(Ok(true));
    assert_eq!(outcome, AuthorizationOutcome::Approved);
    assert_eq!(buffer.pin_keys(), "");
}

#[test]
fn rfid_buffer_hash_with_no_keys_submits_an_empty_pin() {
    let mut buffer = RfidBuffer::new(1000, 120, 15, 0);
    let request = read(&mut buffer, "01001011", 40).unwrap();
    assert_eq!(request.variety, Variety::PIN);
    assert_eq!(request.value, "");
}

#[test]
fn rfid_buffer_star_wipes_the_typed_keys() {
    let mut buffer = RfidBuffer::new(1000, 120, 15, 0);
    assert!(read(&mut buffer, "10110100", 10).is_none());
    assert!(read(&mut buffer, "01111000", 10).is_none());
    assert_eq!(buffer.pin_keys(), "48");
    assert!(read(&mut buffer, "01011010", 10).is_none());
    assert_eq!(buffer.pin_keys(), "");
    assert!(read(&mut buffer, "11110000", 10).is_none());
    assert_eq!(buffer.pin_keys(), "0");
}

#[test]
fn rfid_buffer_badge_bits_ask_for_rfid_check() {
    let mut buffer = RfidBuffer::new(1000, 120, 15, 0);
    assert!(read(&mut buffer, "10010110", 10).is_none());
    let request = read(&mut buffer, "101100101100", 20).unwrap();
    assert_eq!(request.variety, Variety::RFID);
    assert_eq!(request.value, "101100101100");
    assert_eq!(buffer.bits(), "");
    assert_eq!(buffer.pin_keys(), "6");
    let outcome = buffer.process_authorization(Ok(false));
    assert_eq!(outcome, AuthorizationOutcome::Denied);
    assert_eq!(buffer.pin_keys(), "");
}

#[test]
fn rfid_buffer_failed_authorization_still_drops_keys() {
    let mut buffer = RfidBuffer::new(1000, 120, 15, 0);
    assert!(read(&mut buffer, "10000111", 10).is_none());
    let outcome = buffer.process_authorization(Err(AuthorizationError {
        message: "database is locked".to_string(),
    }));
    assert_eq!(outcome, AuthorizationOutcome::Failed);
    assert_eq!(buffer.pin_keys(), "");
}

#[test]
fn rfid_buffer_stale_keys_are_dropped_on_wait_timeout() {
    let mut buffer = RfidBuffer::new(1000, 120, 15, 0);
    assert!(read(&mut buffer, "10100101", 1_000).is_none());
    assert!(!buffer.pin_key_buffer_is_stale(15_000_001_000));
    assert!(buffer.receive(BufferEvent::Timeout, 15_000_001_000).is_none());
    assert_eq!(buffer.pin_keys(), "5");
    assert!(buffer.pin_key_buffer_is_stale(15_000_001_001));
    assert!(buffer.receive(BufferEvent::Timeout, 15_000_001_001).is_none());
    assert_eq!(buffer.pin_keys(), "");
}

#[test]
fn rfid_buffer_clock_going_back_is_not_stale() {
    let mut buffer = RfidBuffer::new(1000, 120, 0, 0);
    assert!(read(&mut buffer, "10100101", 5_000).is_none());
    assert!(!buffer.pin_key_buffer_is_stale(4_000));
    assert!(!buffer.pin_key_buffer_is_stale(5_000));
    assert!(buffer.pin_key_buffer_is_stale(5_001));
}

#[test]
fn rfid_buffer_disconnect_ends_a_read_and_keeps_its_bits() {
    let mut buffer = RfidBuffer::new(1000, 120, 15, 0);
    assert!(buffer.receive(BufferEvent::Bit(1), 1).is_none());
    assert!(buffer.receive(BufferEvent::Bit(0), 1).is_none());
    assert!(buffer.receive(BufferEvent::Disconnected, 1).is_none());
    assert_eq!(buffer.timeout_ms(), 1000);
    assert_eq!(buffer.bits(), "10");
    assert!(buffer.receive(BufferEvent::Disconnected, 1).is_none());
    assert_eq!(buffer.bits(), "10");
}

#[test]
fn rfid_buffer_writes_bits_in_decimal() {
    let mut buffer = RfidBuffer::new(1000, 120, 15, 0);
    buffer.add_bit(0);
    buffer.add_bit(12);
    buffer.add_bit(255);
    buffer.add_bit(7);
    buffer.add_bit(100);
    assert_eq!(buffer.bits(), "0122557100");
    buffer.clear_bit_buffer();
    assert_eq!(buffer.bits(), "");
}

#[test]
fn rfid_buffer_clear_pin_key_buffer_empties_keys() {
    let mut buffer = RfidBuffer::new(1000, 120, 15, 0);
    assert!(read(&mut buffer, "01101001", 1).is_none());
    assert_eq!(buffer.pin_keys(), "9");
    buffer.clear_pin_key_buffer();
    assert_eq!(buffer.pin_keys(), "");
}

#[test]
fn rfid_buffer_read_in_progress_closes_once_on_pause() {
    let mut buffer = RfidBuffer::new(1000, 120, 15, 0);
    assert!(buffer.receive(BufferEvent::Bit(1), 1).is_none());
    assert!(buffer.receive(BufferEvent::Bit(1), 1).is_none());
    assert!(buffer.receive(BufferEvent::Disconnected, 1).is_none());
    assert_eq!(buffer.bits(), "11");
    // a read that starts after an interrupted one closes on all the bits
    let request = read(&mut buffer, "100001", 2);
    assert!(request.is_none());
    assert_eq!(buffer.bits(), "");
    assert_eq!(buffer.pin_keys(), "1");
}

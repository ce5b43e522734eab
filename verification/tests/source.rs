use vehicle_control::codec::{decode, encode, Message};
use vehicle_control::command::{Command, Status};
use vehicle_control::source::{ack_payload, poll_usb, CommandFilter, PacketSource, Polled};

fn payload(cmd: &Command) -> Vec<u8> {
    let mut buf = [0u8; 32];
    let len = encode(&Message::from_command(cmd), &mut buf).unwrap();
    buf[..len].to_vec()
}

fn ready() -> PacketSource {
    let mut source = PacketSource::new();
    source.poll(None);
    source
}

#[test]
fn filter_suppresses_a_repeated_command() {
    let mut filter = CommandFilter::new();
    let a = Command::Remote { roll: 100, pitch: 0, yaw: 0, thrust: 0 };
    let b = Command::Remote { roll: 100, pitch: 1, yaw: 0, thrust: 0 };
    assert_eq!(filter.pass(Command::new()), None);
    assert_eq!(filter.pass(a), Some(a));
    assert_eq!(filter.pass(a), None);
    assert_eq!(filter.pass(a), None);
    assert_eq!(filter.pass(b), Some(b));
    assert_eq!(filter.pass(a), Some(a));
}

#[test]
fn source_drains_stale_payloads_after_reset() {
    let mut source = PacketSource::new();
    let cmd = Command::Remote { roll: 1, pitch: 2, yaw: 3, thrust: 4 };
    let bytes = payload(&cmd);
    assert_eq!(source.poll(Some(&bytes)), Polled { command: None, load_ack: false });
    assert_eq!(source.poll(Some(&bytes)), Polled { command: None, load_ack: false });
    assert_eq!(source.poll(None), Polled { command: None, load_ack: false });
    assert_eq!(source.poll(Some(&bytes)), Polled { command: Some(cmd), load_ack: true });
}

#[test]
fn source_yields_nothing_without_data() {
    let mut source = ready();
    assert_eq!(source.poll(None), Polled { command: None, load_ack: false });
    assert_eq!(source.poll(None), Polled { command: None, load_ack: false });
}

#[test]
fn truncated_payload_is_skipped_and_the_next_one_is_read() {
    let mut source = ready();
    let cmd = Command::Remote { roll: 500, pitch: 1000, yaw: -100, thrust: 0 };
    let bytes = payload(&cmd);
    for cut in 0..bytes.len() {
        assert_eq!(source.poll(Some(&bytes[..cut])), Polled { command: None, load_ack: true });
    }
    assert_eq!(source.poll(Some(&bytes)), Polled { command: Some(cmd), load_ack: true });
}

#[test]
fn source_drops_a_repeated_command_but_still_acknowledges() {
    let mut source = ready();
    let cmd = Command::MotorDebug { m1: 1, m2: 2, m3: 3, m4: 4 };
    let bytes = payload(&cmd);
    assert_eq!(source.poll(Some(&bytes)), Polled { command: Some(cmd), load_ack: true });
    assert_eq!(source.poll(Some(&bytes)), Polled { command: None, load_ack: true });
    // garbage in between does not make the old command new again
    assert_eq!(source.poll(Some(&[9, 9, 9])), Polled { command: None, load_ack: true });
    assert_eq!(source.poll(Some(&bytes)), Polled { command: None, load_ack: true });
}

#[test]
fn source_ignores_telemetry_on_the_command_channel() {
    let mut source = ready();
    let mut buf = [0u8; 32];
    let len = ack_payload(&Status { roll: 1, pitch: 2, battery: 3 }, &mut buf).unwrap();
    assert_eq!(source.poll(Some(&buf[..len])), Polled { command: None, load_ack: true });
}

#[test]
fn first_neutral_command_is_not_news() {
    let mut source = ready();
    let bytes = payload(&Command::new());
    assert_eq!(source.poll(Some(&bytes)), Polled { command: None, load_ack: true });
}

#[test]
fn ack_payload_carries_the_status() {
    let status = Status { roll: -1500, pitch: 250, battery: 7400 };
    let mut buf = [0u8; 32];
    let len = ack_payload(&status, &mut buf).unwrap();
    assert_eq!(len, 17);
    assert_eq!(decode(&buf[..len]).unwrap().as_status(), Some(status));
    let mut small = [0u8; 8];
    assert!(ack_payload(&status, &mut small).is_err());
    assert_eq!(small, [0u8; 8]);
}

#[test]
fn debug_port_packet_becomes_motor_debug() {
    assert_eq!(
        poll_usb(&[255, 0, 128, 51]),
        Some(Command::MotorDebug { m1: 1000, m2: 0, m3: 501, m4: 200 })
    );
    assert_eq!(
        poll_usb(&[1, 2, 3, 4, 200, 200]),
        Some(Command::MotorDebug { m1: 3, m2: 7, m3: 11, m4: 15 })
    );
}

#[test]
fn short_debug_port_packet_is_ignored() {
    assert_eq!(poll_usb(&[]), None);
    assert_eq!(poll_usb(&[255]), None);
    assert_eq!(poll_usb(&[255, 255, 255]), None);
}

#[test]
fn ack_payload_returns_the_length_of_the_record() {
    let mut buf = [9u8; 24];
    assert_eq!(ack_payload(&Status { roll: 1, pitch: 2, battery: 3 }, &mut buf), Ok(17));
    assert_eq!(&buf[17..], &[9u8; 7][..]);
}

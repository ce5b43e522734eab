use vehicle_control::codec::{decode, encode, Message};
use vehicle_control::command::{Command, Status};
use vehicle_control::uplink::{Radio, SendAction, MAX_RETRIES, RETRY_DELAY_MS};

#[test]
fn radio_skips_a_repeated_command() {
    let mut radio = Radio::new();
    let cmd = Command::Remote { roll: 300, pitch: 0, yaw: 0, thrust: 0 };
    assert_eq!(radio.accept(Command::new()), None);
    assert_eq!(radio.accept(cmd), Some(cmd));
    assert_eq!(radio.accept(cmd), None);
    assert_eq!(radio.accept(Command::new()), Some(Command::new()));
}

#[test]
fn delivered_command_is_done() {
    let mut radio = Radio::new();
    radio.accept(Command::Remote { roll: 300, pitch: 0, yaw: 0, thrust: 0 });
    assert_eq!(radio.sent(true), SendAction::Done);
}

#[test]
fn failed_send_is_retried_ten_times_then_drained() {
    assert_eq!(MAX_RETRIES, 10);
    assert_eq!(RETRY_DELAY_MS, 100);
    let mut radio = Radio::new();
    radio.accept(Command::Remote { roll: 300, pitch: 0, yaw: 0, thrust: 0 });
    for _ in 0..9 {
        assert_eq!(radio.sent(false), SendAction::Retry { delay_ms: 100 });
    }
    assert_eq!(radio.sent(false), SendAction::Drain);
    // the count starts anew
    for _ in 0..9 {
        assert_eq!(radio.sent(false), SendAction::Retry { delay_ms: 100 });
    }
    assert_eq!(radio.sent(false), SendAction::Drain);
}

#[test]
fn success_on_the_last_attempt_does_not_drain() {
    let mut radio = Radio::new();
    radio.accept(Command::Remote { roll: 300, pitch: 0, yaw: 0, thrust: 0 });
    for _ in 0..9 {
        assert_eq!(radio.sent(false), SendAction::Retry { delay_ms: 100 });
    }
    assert_eq!(radio.sent(true), SendAction::Done);
    assert_eq!(radio.sent(false), SendAction::Retry { delay_ms: 100 });
}

#[test]
fn new_command_resets_the_retries() {
    let mut radio = Radio::new();
    radio.accept(Command::Remote { roll: 300, pitch: 0, yaw: 0, thrust: 0 });
    for _ in 0..9 {
        radio.sent(false);
    }
    radio.accept(Command::Remote { roll: -300, pitch: 0, yaw: 0, thrust: 0 });
    for _ in 0..9 {
        assert_eq!(radio.sent(false), SendAction::Retry { delay_ms: 100 });
    }
    assert_eq!(radio.sent(false), SendAction::Drain);
}

#[test]
fn send_limits_the_fields_before_encoding() {
    let mut buf = [0u8; 32];
    let wild = Command::Remote { roll: 4000, pitch: -4000, yaw: 5, thrust: -1 };
    let len = Radio::send(&wild, &mut buf).unwrap();
    assert_eq!(
        decode(&buf[..len]),
        Ok(Message::Command { roll: 1000, pitch: -1000, yaw: 5, thrust: 0 })
    );
    let fine = Command::MotorDebug { m1: 0, m2: 10, m3: 20, m4: 1000 };
    let len = Radio::send(&fine, &mut buf).unwrap();
    assert_eq!(decode(&buf[..len]).unwrap().as_command(), Some(fine));
}

#[test]
fn send_fails_whole_on_a_small_buffer() {
    let mut buf = [7u8; 20];
    assert!(Radio::send(&Command::new(), &mut buf).is_err());
    assert_eq!(buf, [7u8; 20]);
}

#[test]
fn ack_reads_status_and_skips_the_rest() {
    let status = Status { roll: 100, pitch: -200, battery: 7900 };
    let mut buf = [0u8; 32];
    let len = encode(&Message::from_status(&status), &mut buf).unwrap();
    assert_eq!(Radio::ack(&buf[..len]), Some(status));
    assert_eq!(Radio::ack(&buf[..len - 1]), None);
    assert_eq!(Radio::ack(&[]), None);
    let len = encode(&Message::from_command(&Command::new()), &mut buf).unwrap();
    assert_eq!(Radio::ack(&buf[..len]), None);
}

#[test]
fn send_returns_the_length_of_the_frame() {
    let mut buf = [9u8; 24];
    assert_eq!(Radio::send(&Command::new(), &mut buf), Ok(22));
    assert_eq!(&buf[22..], &[9u8, 9][..]);
}

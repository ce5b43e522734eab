use vehicle_control::car::Car;
use vehicle_control::command::{Command, Direction};
use vehicle_control::engine::{
    esc_duties, same_directions, scale_duty, EnginePwm, EscPwm, Pin, Step, MINIMAL_DUTY,
};

#[test]
fn zero_stays_off() {
    for max_duty in [0u16, 1, 149, 150, 151, 1000, u16::MAX] {
        assert_eq!(scale_duty(0, max_duty), 0);
    }
}

#[test]
fn scale_duty_formula() {
    assert_eq!(MINIMAL_DUTY, 150);
    assert_eq!(scale_duty(500, 1150), 650);
    assert_eq!(scale_duty(1000, 1150), 1150);
    assert_eq!(scale_duty(1, 1150), 151);
    assert_eq!(scale_duty(1, 1000), 150);
    assert_eq!(scale_duty(999, 1000), 999);
    assert_eq!(scale_duty(300, 65535), 19765);
}

#[test]
fn scale_duty_never_exceeds_the_timer() {
    assert_eq!(scale_duty(2000, 1150), 1150);
    assert_eq!(scale_duty(u16::MAX, u16::MAX), u16::MAX);
    assert_eq!(scale_duty(1000, 100), 100);
    assert_eq!(scale_duty(500, 100), 100);
    assert_eq!(scale_duty(1, 0), 0);
}

#[test]
fn esc_duties_limit_the_fractions_first() {
    assert_eq!(esc_duties(&[0, 500, 1000, 2000], 1150), [0, 650, 1150, 1150]);
    assert_eq!(esc_duties(&[-1, i32::MIN, i32::MAX, 1], 1150), [0, 0, 1150, 151]);
    assert_eq!(esc_duties(&[0, 0, 0, 0], 40_000), [0, 0, 0, 0]);
}

#[test]
fn init_zeroes_before_it_enables() {
    let (engines, steps) = EnginePwm::init(Car::new(), 1150);
    assert_eq!(engines.get_max_duty(), 1150);
    assert_eq!(
        steps,
        [
            Step::SetDuty { motor: 0, duty: 0 },
            Step::SetDuty { motor: 1, duty: 0 },
            Step::Enable { motor: 0 },
            Step::Enable { motor: 1 },
        ]
    );
}

#[test]
fn update_sets_pins_before_duties() {
    let (mut engines, _) = EnginePwm::init(Car::new(), 1150);
    let steps = engines.update(&Command::Remote { roll: 1000, pitch: 100, yaw: 0, thrust: 0 });
    assert_eq!(
        steps,
        Some([
            Step::SetPin { motor: 0, pin: Pin::A, high: true },
            Step::SetPin { motor: 0, pin: Pin::B, high: false },
            Step::SetPin { motor: 1, pin: Pin::A, high: false },
            Step::SetPin { motor: 1, pin: Pin::B, high: true },
            Step::SetDuty { motor: 0, duty: 550 },
            Step::SetDuty { motor: 1, duty: 350 },
        ])
    );
}

#[test]
fn update_is_silent_while_nothing_changes() {
    let (mut engines, _) = EnginePwm::init(Car::new(), 1150);
    // the driver starts stopped, so a command at rest changes nothing
    assert_eq!(engines.update(&Command::new()), None);
    let forward = Command::Remote { roll: 0, pitch: 1000, yaw: 0, thrust: 0 };
    assert!(engines.update(&forward).is_some());
    assert_eq!(engines.update(&forward), None);
    // a change inside the deadzone mixes to the same directions
    let nearly = Command::Remote { roll: 50, pitch: 1000, yaw: 0, thrust: 0 };
    assert_eq!(engines.update(&nearly), None);
}

#[test]
fn update_stops_with_both_pins_low() {
    let (mut engines, _) = EnginePwm::init(Car::new(), 1150);
    assert!(engines.update(&Command::Remote { roll: 0, pitch: -1000, yaw: 0, thrust: 0 }).is_some());
    assert_eq!(
        engines.update(&Command::new()),
        Some([
            Step::SetPin { motor: 0, pin: Pin::A, high: false },
            Step::SetPin { motor: 0, pin: Pin::B, high: false },
            Step::SetPin { motor: 1, pin: Pin::A, high: false },
            Step::SetPin { motor: 1, pin: Pin::B, high: false },
            Step::SetDuty { motor: 0, duty: 0 },
            Step::SetDuty { motor: 1, duty: 0 },
        ])
    );
}

#[test]
fn update_backward_reverses_the_pins() {
    let (mut engines, _) = EnginePwm::init(Car::new(), 1000);
    assert_eq!(
        engines.update(&Command::Remote { roll: 0, pitch: -1000, yaw: 0, thrust: 0 }),
        Some([
            Step::SetPin { motor: 0, pin: Pin::A, high: false },
            Step::SetPin { motor: 0, pin: Pin::B, high: true },
            Step::SetPin { motor: 1, pin: Pin::A, high: false },
            Step::SetPin { motor: 1, pin: Pin::B, high: true },
            Step::SetDuty { motor: 0, duty: 1000 },
            Step::SetDuty { motor: 1, duty: 1000 },
        ])
    );
}

#[test]
fn set_duty_scales_both_channels() {
    let (engines, _) = EnginePwm::init(Car::new(), 1150);
    assert_eq!(
        engines.set_duty([0, 1000]),
        [Step::SetDuty { motor: 0, duty: 0 }, Step::SetDuty { motor: 1, duty: 1150 }]
    );
}

#[test]
fn same_directions_compares_slot_by_slot() {
    let a = [Direction::Forward(1), Direction::Stop, Direction::Backward(2), Direction::Stop];
    let mut b = a;
    assert!(same_directions(&a, &b));
    b[3] = Direction::Forward(0);
    assert!(!same_directions(&a, &b));
    b = a;
    b[0] = Direction::Backward(1);
    assert!(!same_directions(&a, &b));
}

#[test]
fn esc_init_zeroes_all_four_before_it_enables() {
    let (esc, steps) = EscPwm::init(2000);
    assert_eq!(esc.get_max_duty(), 2000);
    assert_eq!(
        steps,
        [
            Step::SetDuty { motor: 0, duty: 0 },
            Step::SetDuty { motor: 1, duty: 0 },
            Step::SetDuty { motor: 2, duty: 0 },
            Step::SetDuty { motor: 3, duty: 0 },
            Step::Enable { motor: 0 },
            Step::Enable { motor: 1 },
            Step::Enable { motor: 2 },
            Step::Enable { motor: 3 },
        ]
    );
}

#[test]
fn esc_update_writes_one_duty_per_motor() {
    let (esc, _) = EscPwm::init(1150);
    assert_eq!(
        esc.update(&[0, 500, 1000, -7]),
        [
            Step::SetDuty { motor: 0, duty: 0 },
            Step::SetDuty { motor: 1, duty: 650 },
            Step::SetDuty { motor: 2, duty: 1150 },
            Step::SetDuty { motor: 3, duty: 0 },
        ]
    );
}

use aog_core::automation::automation_step;
use aog_core::command::Status;

#[test]
fn clear_overflow_commands_pump_on() {
    let raw = "CO2: 412 HUM: 55 TOP_TANK_OVERFLOW: NONE";
    match automation_step(raw, 17) {
        Status::Gpio { pin, level } => {
            assert_eq!(pin, 17);
            assert!(level);
        }
        _ => panic!("expected a gpio action"),
    }
}

#[test]
fn detected_overflow_commands_pump_off() {
    let raw = "TOP_TANK_OVERFLOW: DETECTED";
    match automation_step(raw, 17) {
        Status::Gpio { pin, level } => {
            assert_eq!(pin, 17);
            assert!(!level);
        }
        _ => panic!("expected a gpio action"),
    }
}

#[test]
fn missing_telemetry_commands_pump_off() {
    match automation_step("", 23) {
        Status::Gpio { pin, level } => {
            assert_eq!(pin, 23);
            assert!(!level);
        }
        _ => panic!("expected a gpio action"),
    }
}

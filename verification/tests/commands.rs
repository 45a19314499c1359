use aog_core::command::run;
use aog_core::command::CommandError;
use aog_core::command::Status;
use aog_core::state::Config;

fn test_config() -> Config {
    Config::default()
}

#[test]
fn empty_command_is_rejected() {
    let cfg = test_config();
    let r = run("", "", &cfg);
    assert_eq!(r.unwrap_err(), CommandError::Empty);
}

#[test]
fn blank_command_is_rejected() {
    let cfg = test_config();
    let r = run("   \t ", "", &cfg);
    assert_eq!(r.unwrap_err(), CommandError::Empty);
}

#[test]
fn unknown_verb_is_rejected() {
    let cfg = test_config();
    let r = run("frobnicate now", "", &cfg);
    assert_eq!(r.unwrap_err(), CommandError::UnknownVerb);
}

#[test]
fn gpio_missing_arguments_is_rejected() {
    let cfg = test_config();
    assert_eq!(run("gpio", "", &cfg).unwrap_err(), CommandError::MissingArgument);
    assert_eq!(run("gpio on", "", &cfg).unwrap_err(), CommandError::MissingArgument);
}

#[test]
fn gpio_extra_argument_is_rejected() {
    let cfg = test_config();
    assert_eq!(run("gpio on 17 18", "", &cfg).unwrap_err(), CommandError::ExtraArgument);
}

#[test]
fn gpio_bad_level_is_rejected() {
    let cfg = test_config();
    assert_eq!(run("gpio maybe 17", "", &cfg).unwrap_err(), CommandError::BadArgument);
}

#[test]
fn gpio_bad_pin_is_rejected() {
    let cfg = test_config();
    assert_eq!(run("gpio on seventeen", "", &cfg).unwrap_err(), CommandError::BadArgument);
    assert_eq!(run("gpio on 17a", "", &cfg).unwrap_err(), CommandError::BadArgument);
    assert_eq!(
        run("gpio on 99999999999999999999999999", "", &cfg).unwrap_err(),
        CommandError::BadArgument
    );
}

#[test]
fn gpio_on_parses() {
    let cfg = test_config();
    match run("gpio on 17", "", &cfg).unwrap() {
        Status::Gpio { pin, level } => {
            assert_eq!(pin, 17);
            assert!(level);
        }
        _ => panic!("expected a gpio action"),
    }
}

#[test]
fn gpio_off_parses() {
    let cfg = test_config();
    match run("gpio off 4", "", &cfg).unwrap() {
        Status::Gpio { pin, level } => {
            assert_eq!(pin, 4);
            assert!(!level);
        }
        _ => panic!("expected a gpio action"),
    }
}

#[test]
fn pump_uses_configured_pin() {
    let cfg = test_config();
    match run("pump on", "", &cfg).unwrap() {
        Status::Pump { pin, on } => {
            assert_eq!(pin, cfg.tank_one_to_two_pump_pin);
            assert!(on);
        }
        _ => panic!("expected a pump action"),
    }
}

#[test]
fn pump_bad_level_is_rejected() {
    let cfg = test_config();
    assert_eq!(run("pump sideways", "", &cfg).unwrap_err(), CommandError::BadArgument);
    assert_eq!(run("pump", "", &cfg).unwrap_err(), CommandError::MissingArgument);
    assert_eq!(run("pump on now", "", &cfg).unwrap_err(), CommandError::ExtraArgument);
}

#[test]
fn lcd_and_video_switch() {
    let cfg = test_config();
    match run("lcd off", "", &cfg).unwrap() {
        Status::Display { on } => assert!(!on),
        _ => panic!("expected a display action"),
    }
    match run("video on", "", &cfg).unwrap() {
        Status::Video { on } => assert!(on),
        _ => panic!("expected a video action"),
    }
}

#[test]
fn sensor_query_returns_cached_value() {
    let cfg = test_config();
    let raw = "CO2: 412 HUM: 55";
    match run("co2", raw, &cfg).unwrap() {
        Status::Value { value } => assert_eq!(value, "412"),
        _ => panic!("expected a value"),
    }
}

#[test]
fn sensor_query_with_extra_argument_is_rejected() {
    let cfg = test_config();
    assert_eq!(run("co2 now", "CO2: 412", &cfg).unwrap_err(), CommandError::ExtraArgument);
}

#[test]
fn sensor_query_missing_metric_reports_unavailable() {
    let cfg = test_config();
    match run("ph", "CO2: 412", &cfg).unwrap() {
        Status::Value { value } => assert_eq!(value, "unavailable"),
        _ => panic!("expected a value"),
    }
}

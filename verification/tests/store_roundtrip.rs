use aog_core::state::Config;
use aog_core::state::SensorKitConfig;
use aog_core::state::SensorLog;
use aog_core::state::Session;
use aog_core::state::Sessions;
use aog_core::state::version_tag;
use aog_core::store::decode_config;
use aog_core::store::decode_sessions;
use aog_core::store::encode_config;
use aog_core::store::encode_sessions;
use aog_core::store::needs_upgrade;
use aog_core::store::retry_delay_millis;

fn sample_log(n: usize) -> SensorLog {
    SensorLog {
        id: format!("probe-{}", n),
        timestamp: 1600000000 + n,
        s1_co2: "410".to_string(),
        s2_co2: "414".to_string(),
        avg_co2: "412".to_string(),
        humidity: "55".to_string(),
        temperature: "21".to_string(),
        is_tank_one_overflowed: n % 2 == 0,
        is_tank_two_overflowed: false,
    }
}

fn full_config() -> Config {
    let mut c = Config::default();
    c.encrypted_password = "p@ss wörter ✓".to_string();
    c.power_type = "solar".to_string();
    c.boot_time = 1700000001;
    c.enable_automatic_updates = true;
    c.is_sensor_kit_installed = true;
    c.sensor_kit_config = Some(SensorKitConfig {
        dht11_pin: 7,
        tank_one_overflow: 4,
        tank_two_overflow: 2,
        analog_co2_pin: "A0".to_string(),
        enable_dht11: true,
        enable_analog_co2: true,
        enable_ccs811: false,
    });
    c.sensor_logs = vec![sample_log(0), sample_log(1), sample_log(2)];
    c
}

fn assert_config_eq(a: &Config, b: &Config) {
    assert_eq!(a.id, b.id);
    assert_eq!(a.encrypted_password, b.encrypted_password);
    assert_eq!(a.version_installed, b.version_installed);
    assert_eq!(a.boot_time, b.boot_time);
    assert_eq!(a.enable_automatic_updates, b.enable_automatic_updates);
    assert_eq!(a.is_hvac_kit_installed, b.is_hvac_kit_installed);
    assert_eq!(a.is_sensor_kit_installed, b.is_sensor_kit_installed);
    assert_eq!(a.photo_cycle_start, b.photo_cycle_start);
    assert_eq!(a.photo_cycle_end, b.photo_cycle_end);
    assert_eq!(a.power_type, b.power_type);
    assert_eq!(a.tank_one_to_two_pump_pin, b.tank_one_to_two_pump_pin);
    assert_eq!(a.uv_light_pin, b.uv_light_pin);
    assert_eq!(a.air_circulation_pin, b.air_circulation_pin);
    match (&a.sensor_kit_config, &b.sensor_kit_config) {
        (None, None) => {}
        (Some(x), Some(y)) => {
            assert_eq!(x.dht11_pin, y.dht11_pin);
            assert_eq!(x.tank_one_overflow, y.tank_one_overflow);
            assert_eq!(x.tank_two_overflow, y.tank_two_overflow);
            assert_eq!(x.analog_co2_pin, y.analog_co2_pin);
            assert_eq!(x.enable_dht11, y.enable_dht11);
            assert_eq!(x.enable_analog_co2, y.enable_analog_co2);
            assert_eq!(x.enable_ccs811, y.enable_ccs811);
        }
        _ => panic!("sensor kit presence differs"),
    }
    assert_eq!(a.sensor_logs.len(), b.sensor_logs.len());
    for (x, y) in a.sensor_logs.iter().zip(b.sensor_logs.iter()) {
        assert_eq!(x.id, y.id);
        assert_eq!(x.timestamp, y.timestamp);
        assert_eq!(x.s1_co2, y.s1_co2);
        assert_eq!(x.s2_co2, y.s2_co2);
        assert_eq!(x.avg_co2, y.avg_co2);
        assert_eq!(x.humidity, y.humidity);
        assert_eq!(x.temperature, y.temperature);
        assert_eq!(x.is_tank_one_overflowed, y.is_tank_one_overflowed);
        assert_eq!(x.is_tank_two_overflowed, y.is_tank_two_overflowed);
    }
}

#[test]
fn config_round_trip_full() {
    let c = full_config();
    let bytes = encode_config(&c);
    let back = decode_config(&bytes).expect("decode must succeed on an encoding");
    assert_config_eq(&c, &back);
}

#[test]
fn config_round_trip_default() {
    let c = Config::default();
    let bytes = encode_config(&c);
    let back = decode_config(&bytes).expect("decode must succeed on an encoding");
    assert_config_eq(&c, &back);
}

#[test]
fn first_boot_default_carries_build_version() {
    let c = Config::default();
    assert_eq!(c.version_installed, version_tag());
    assert_eq!(c.version_installed, "0.2.0-alpha");
    assert_eq!(c.id.len(), 100);
    assert!(c.id.chars().all(|ch| ch.is_ascii_alphanumeric()));
    assert_eq!(c.encrypted_password, "");
    assert_eq!(c.photo_cycle_start, 6);
    assert_eq!(c.photo_cycle_end, 24);
    assert_eq!(c.tank_one_to_two_pump_pin, 17);
    assert_eq!(c.uv_light_pin, 27);
    assert_eq!(c.air_circulation_pin, 22);
    assert!(c.sensor_kit_config.is_none());
    assert!(c.sensor_logs.is_empty());
    // What a first boot persists decodes to the same configuration.
    let bytes = encode_config(&c);
    let back = decode_config(&bytes).expect("decode must succeed on an encoding");
    assert_eq!(back.version_installed, version_tag());
    assert!(!needs_upgrade(&back));
}

#[test]
fn two_fresh_identities_differ() {
    let a = Config::default();
    let b = Config::default();
    assert_ne!(a.id, b.id);
}

#[test]
fn garbage_bytes_do_not_decode() {
    assert!(decode_config(&vec![]).is_none());
    assert!(decode_config(&vec![1, 2, 3]).is_none());
    let mut bytes = encode_config(&full_config());
    bytes.truncate(bytes.len() - 1);
    assert!(decode_config(&bytes).is_none());
}

#[test]
fn trailing_bytes_do_not_decode() {
    let mut bytes = encode_config(&full_config());
    bytes.push(0);
    assert!(decode_config(&bytes).is_none());
}

#[test]
fn sessions_round_trip() {
    let t = Sessions {
        sessions: vec![
            Session { id: "alpha-token".to_string(), delta: 0 },
            Session { id: "βeta-token".to_string(), delta: 3 },
        ],
    };
    let bytes = encode_sessions(&t);
    let back = decode_sessions(&bytes).expect("decode must succeed on an encoding");
    assert_eq!(back.sessions.len(), 2);
    assert_eq!(back.sessions[0].id, "alpha-token");
    assert_eq!(back.sessions[0].delta, 0);
    assert_eq!(back.sessions[1].id, "βeta-token");
    assert_eq!(back.sessions[1].delta, 3);
}

#[test]
fn empty_sessions_round_trip() {
    let t = Sessions { sessions: vec![] };
    let bytes = encode_sessions(&t);
    let back = decode_sessions(&bytes).expect("decode must succeed on an encoding");
    assert!(back.sessions.is_empty());
}

#[test]
fn sessions_garbage_does_not_decode() {
    assert!(decode_sessions(&vec![]).is_none());
    assert!(decode_sessions(&vec![9, 9]).is_none());
}

#[test]
fn upgrade_needed_iff_version_differs() {
    let mut c = Config::default();
    assert!(!needs_upgrade(&c));
    c.version_installed = "0.1.0".to_string();
    assert!(needs_upgrade(&c));
}

#[test]
fn appended_logs_stay_in_order_and_round_trip() {
    let mut c = Config::default();
    c.append_sensor_log(sample_log(0));
    c.append_sensor_log(sample_log(1));
    c.append_sensor_log(sample_log(1));
    assert_eq!(c.sensor_logs.len(), 3);
    for w in c.sensor_logs.windows(2) {
        assert!(w[0].timestamp <= w[1].timestamp);
    }
    let back = decode_config(&encode_config(&c)).expect("decode must succeed on an encoding");
    assert_config_eq(&c, &back);
}

#[test]
fn retry_delay_fits_one_byte() {
    for _ in 0..50 {
        assert!(retry_delay_millis() <= 255);
    }
}

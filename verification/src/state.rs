//! The persistent state of the controller: the process-wide Configuration
//! with its nested sensor-kit settings and append-only sensor log, and the
//! table of operator sessions.

use vstd::prelude::*;
use crate::host;

verus! {

/// One periodic telemetry sample, immutable once appended to the log.
#[derive(Clone, Debug)]
pub struct SensorLog {
    pub id: String,
    pub timestamp: usize,
    pub s1_co2: String,
    pub s2_co2: String,
    pub avg_co2: String,
    pub humidity: String,
    pub temperature: String,
    pub is_tank_one_overflowed: bool,
    pub is_tank_two_overflowed: bool,
}

/// Mathematical image of a `SensorLog`.
pub struct SensorLogV {
    pub id: Seq<char>,
    pub timestamp: usize,
    pub s1_co2: Seq<char>,
    pub s2_co2: Seq<char>,
    pub avg_co2: Seq<char>,
    pub humidity: Seq<char>,
    pub temperature: Seq<char>,
    pub is_tank_one_overflowed: bool,
    pub is_tank_two_overflowed: bool,
}

impl View for SensorLog {
    type V = SensorLogV;

    open spec fn view(&self) -> SensorLogV {
        SensorLogV {
            id: self.id@,
            timestamp: self.timestamp,
            s1_co2: self.s1_co2@,
            s2_co2: self.s2_co2@,
            avg_co2: self.avg_co2@,
            humidity: self.humidity@,
            temperature: self.temperature@,
            is_tank_one_overflowed: self.is_tank_one_overflowed,
            is_tank_two_overflowed: self.is_tank_two_overflowed,
        }
    }
}

/// Pin assignments and per-sensor enable flags, owned by `Config`.
#[derive(Clone, Debug)]
pub struct SensorKitConfig {
    pub dht11_pin: u8,
    pub tank_one_overflow: u8,
    pub tank_two_overflow: u8,
    pub analog_co2_pin: String,
    pub enable_dht11: bool,
    pub enable_analog_co2: bool,
    pub enable_ccs811: bool,
}

/// Mathematical image of a `SensorKitConfig`.
pub struct SensorKitConfigV {
    pub dht11_pin: u8,
    pub tank_one_overflow: u8,
    pub tank_two_overflow: u8,
    pub analog_co2_pin: Seq<char>,
    pub enable_dht11: bool,
    pub enable_analog_co2: bool,
    pub enable_ccs811: bool,
}

impl View for SensorKitConfig {
    type V = SensorKitConfigV;

    open spec fn view(&self) -> SensorKitConfigV {
        SensorKitConfigV {
            dht11_pin: self.dht11_pin,
            tank_one_overflow: self.tank_one_overflow,
            tank_two_overflow: self.tank_two_overflow,
            analog_co2_pin: self.analog_co2_pin@,
            enable_dht11: self.enable_dht11,
            enable_analog_co2: self.enable_analog_co2,
            enable_ccs811: self.enable_ccs811,
        }
    }
}

/// The process-wide configuration, persisted across restarts.
#[derive(Clone, Debug)]
pub struct Config {
    pub id: String,
    pub encrypted_password: String,
    pub version_installed: String,
    pub boot_time: u64,
    pub enable_automatic_updates: bool,
    pub is_hvac_kit_installed: bool,
    pub is_sensor_kit_installed: bool,
    pub photo_cycle_start: u8,
    pub photo_cycle_end: u8,
    pub power_type: String,
    pub tank_one_to_two_pump_pin: usize,
    pub uv_light_pin: usize,
    pub air_circulation_pin: usize,
    pub sensor_kit_config: Option<SensorKitConfig>,
    pub sensor_logs: Vec<SensorLog>,
}

/// Mathematical image of a `Config`.
pub struct ConfigV {
    pub id: Seq<char>,
    pub encrypted_password: Seq<char>,
    pub version_installed: Seq<char>,
    pub boot_time: u64,
    pub enable_automatic_updates: bool,
    pub is_hvac_kit_installed: bool,
    pub is_sensor_kit_installed: bool,
    pub photo_cycle_start: u8,
    pub photo_cycle_end: u8,
    pub power_type: Seq<char>,
    pub tank_one_to_two_pump_pin: usize,
    pub uv_light_pin: usize,
    pub air_circulation_pin: usize,
    pub sensor_kit_config: Option<SensorKitConfigV>,
    pub sensor_logs: Seq<SensorLogV>,
}

impl View for Config {
    type V = ConfigV;

    open spec fn view(&self) -> ConfigV {
        ConfigV {
            id: self.id@,
            encrypted_password: self.encrypted_password@,
            version_installed: self.version_installed@,
            boot_time: self.boot_time,
            enable_automatic_updates: self.enable_automatic_updates,
            is_hvac_kit_installed: self.is_hvac_kit_installed,
            is_sensor_kit_installed: self.is_sensor_kit_installed,
            photo_cycle_start: self.photo_cycle_start,
            photo_cycle_end: self.photo_cycle_end,
            power_type: self.power_type@,
            tank_one_to_two_pump_pin: self.tank_one_to_two_pump_pin,
            uv_light_pin: self.uv_light_pin,
            air_circulation_pin: self.air_circulation_pin,
            sensor_kit_config: match self.sensor_kit_config {
                Some(k) => Some(k@),
                None => None,
            },
            sensor_logs: self.sensor_logs@.map_values(|l: SensorLog| l@),
        }
    }
}

/// Timestamps never decrease across the append-only sensor log.
pub open spec fn logs_chronological(logs: Seq<SensorLogV>) -> bool {
    forall|i: int, j: int|
        0 <= i < j < logs.len() ==> #[trigger] logs[i].timestamp <= #[trigger] logs[j].timestamp
}

impl Config {
    /// Appends one sample to the append-only sensor log. The single
    /// appender hands samples in over time, so each new timestamp is at
    /// least the last one, and the log stays chronological; entries
    /// already appended are never touched.
    pub fn append_sensor_log(&mut self, l: SensorLog)
        requires
            logs_chronological(old(self)@.sensor_logs),
            old(self)@.sensor_logs.len() > 0 ==> old(
                self,
            )@.sensor_logs.last().timestamp <= l@.timestamp,
        ensures
            final(self)@.sensor_logs == old(self)@.sensor_logs.push(l@),
            logs_chronological(final(self)@.sensor_logs),
            final(self)@ == (ConfigV { sensor_logs: final(self)@.sensor_logs, ..old(self)@ }),
    {
        self.sensor_logs.push(l);
        proof {
            let logs = self@.sensor_logs;
            let prev = old(self)@.sensor_logs;
            assert(logs =~= prev.push(l@));
            assert forall|i: int, j: int|
                0 <= i < j < logs.len() implies #[trigger] logs[i].timestamp
                <= #[trigger] logs[j].timestamp by {
                if j < prev.len() as int {
                } else {
                    assert(logs[j] == l@);
                    if i < prev.len() - 1 {
                        assert(prev[i].timestamp <= prev[prev.len() - 1].timestamp);
                    }
                }
            }
        }
    }
}

/// A token proving a successful prior login.
#[derive(Clone, Debug)]
pub struct Session {
    pub id: String,
    pub delta: u8,
}

/// Mathematical image of a `Session`.
pub struct SessionV {
    pub id: Seq<char>,
    pub delta: u8,
}

impl View for Session {
    type V = SessionV;

    open spec fn view(&self) -> SessionV {
        SessionV { id: self.id@, delta: self.delta }
    }
}

/// The table of operator sessions, persisted to its own store.
#[derive(Clone, Debug)]
pub struct Sessions {
    pub sessions: Vec<Session>,
}

impl View for Sessions {
    type V = Seq<SessionV>;

    open spec fn view(&self) -> Seq<SessionV> {
        self.sessions@.map_values(|s: Session| s@)
    }
}

/// The version tag of the running build.
pub open spec fn spec_version_tag() -> Seq<char> {
    "0.2.0-alpha"@
}

pub fn version_tag() -> (r: &'static str)
    ensures
        r@ == spec_version_tag(),
{
    "0.2.0-alpha"
}

impl Default for Config {
    /// A first-boot configuration: fresh random identity, empty password,
    /// the running build's version tag, and the default pin assignments.
    fn default() -> (c: Config)
        ensures
            c.id@.len() == 100,
            forall|i: int| 0 <= i < c.id@.len() ==> host::is_ascii_alphanumeric(c.id@[i]),
            c.encrypted_password@ == Seq::<char>::empty(),
            c.version_installed@ == spec_version_tag(),
            c.enable_automatic_updates == false,
            c.is_hvac_kit_installed == false,
            c.is_sensor_kit_installed == false,
            c.photo_cycle_start == 6,
            c.photo_cycle_end == 24,
            c.power_type@ == Seq::<char>::empty(),
            c.tank_one_to_two_pump_pin == 17,
            c.uv_light_pin == 27,
            c.air_circulation_pin == 22,
            c.sensor_kit_config is None,
            c.sensor_logs@ == Seq::<SensorLog>::empty(),
    {
        Config {
            id: host::fresh_identity(),
            encrypted_password: String::new(),
            version_installed: String::from_str(version_tag()),
            boot_time: host::unix_time_secs(),
            enable_automatic_updates: false,
            is_hvac_kit_installed: false,
            is_sensor_kit_installed: false,
            photo_cycle_start: 6,
            photo_cycle_end: 24,
            power_type: String::new(),
            tank_one_to_two_pump_pin: 17,
            uv_light_pin: 27,
            air_circulation_pin: 22,
            sensor_kit_config: None,
            sensor_logs: Vec::new(),
        }
    }
}

} // verus!

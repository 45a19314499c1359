//! The telemetry aggregator: parses the controller's single-line status
//! report into named metric values. Metrics absent from the raw line
//! resolve to an explicit "unavailable" marker, never to a default number.

use vstd::prelude::*;
use crate::text::lookup_value;
use crate::text::str_eq;
use crate::text::tokenize;
use crate::text::tokens_of;

verus! {

/// The closed set of metrics the controller reports.
#[derive(Clone, Copy, Debug, PartialEq, Eq, Structural)]
pub enum Metric {
    Pm25,
    Pm10,
    Co2,
    Tvoc,
    Hum,
    Temp,
    Ph,
    T1Ovf,
    T2Ovf,
}

/// The query name of each metric, as callers spell it.
pub open spec fn spec_metric_of_name(name: Seq<char>) -> Option<Metric> {
    if name == "pm25"@ {
        Some(Metric::Pm25)
    } else if name == "pm_10"@ {
        Some(Metric::Pm10)
    } else if name == "co2"@ {
        Some(Metric::Co2)
    } else if name == "tvoc"@ {
        Some(Metric::Tvoc)
    } else if name == "hum"@ {
        Some(Metric::Hum)
    } else if name == "temp"@ {
        Some(Metric::Temp)
    } else if name == "ph"@ {
        Some(Metric::Ph)
    } else if name == "t1_ovf"@ {
        Some(Metric::T1Ovf)
    } else if name == "t2_ovf"@ {
        Some(Metric::T2Ovf)
    } else {
        None
    }
}

/// The key token that announces each metric in a raw status line.
pub open spec fn spec_key_of_metric(m: Metric) -> Seq<char> {
    match m {
        Metric::Pm25 => "PM2_5:"@,
        Metric::Pm10 => "PM10:"@,
        Metric::Co2 => "CO2:"@,
        Metric::Tvoc => "TVOC:"@,
        Metric::Hum => "HUM:"@,
        Metric::Temp => "TEMP:"@,
        Metric::Ph => "PH:"@,
        Metric::T1Ovf => "TOP_TANK_OVERFLOW:"@,
        Metric::T2Ovf => "BOTTOM_TANK_OVERFLOW:"@,
    }
}

/// The marker returned when a metric cannot be read from the raw line.
pub open spec fn spec_unavailable() -> Seq<char> {
    "unavailable"@
}

pub fn unavailable() -> (r: &'static str)
    ensures
        r@ == spec_unavailable(),
{
    "unavailable"
}

/// What `get_value` returns: the token after the metric's key in the raw
/// line, or the unavailable marker if the name is unknown or the key (or
/// its value) is missing.
pub open spec fn spec_get_value(raw: Seq<char>, name: Seq<char>) -> Seq<char> {
    match spec_metric_of_name(name) {
        Some(m) => match lookup_value(tokens_of(raw), spec_key_of_metric(m)) {
            Some(v) => v,
            None => spec_unavailable(),
        },
        None => spec_unavailable(),
    }
}

/// A metric name missing from the raw line yields the unavailable marker,
/// never a default reading, for every metric in the known set.
pub proof fn lemma_missing_key_unavailable(raw: Seq<char>, name: Seq<char>, m: Metric)
    requires
        spec_metric_of_name(name) == Some(m),
        lookup_value(tokens_of(raw), spec_key_of_metric(m)) is None,
    ensures
        spec_get_value(raw, name) == spec_unavailable(),
{
}

pub fn metric_of_name(name: &str) -> (r: Option<Metric>)
    ensures
        r == spec_metric_of_name(name@),
{
    if str_eq(name, "pm25") {
        Some(Metric::Pm25)
    } else if str_eq(name, "pm_10") {
        Some(Metric::Pm10)
    } else if str_eq(name, "co2") {
        Some(Metric::Co2)
    } else if str_eq(name, "tvoc") {
        Some(Metric::Tvoc)
    } else if str_eq(name, "hum") {
        Some(Metric::Hum)
    } else if str_eq(name, "temp") {
        Some(Metric::Temp)
    } else if str_eq(name, "ph") {
        Some(Metric::Ph)
    } else if str_eq(name, "t1_ovf") {
        Some(Metric::T1Ovf)
    } else if str_eq(name, "t2_ovf") {
        Some(Metric::T2Ovf)
    } else {
        None
    }
}

pub fn key_of_metric(m: Metric) -> (r: &'static str)
    ensures
        r@ == spec_key_of_metric(m),
{
    match m {
        Metric::Pm25 => "PM2_5:",
        Metric::Pm10 => "PM10:",
        Metric::Co2 => "CO2:",
        Metric::Tvoc => "TVOC:",
        Metric::Hum => "HUM:",
        Metric::Temp => "TEMP:",
        Metric::Ph => "PH:",
        Metric::T1Ovf => "TOP_TANK_OVERFLOW:",
        Metric::T2Ovf => "BOTTOM_TANK_OVERFLOW:",
    }
}

/// Looks the named metric up in a raw status line. Parsing is tolerant:
/// extra or reordered fragments do not disturb the fields that are
/// present.
pub fn get_value(raw: &str, name: &str) -> (v: String)
    ensures
        v@ == spec_get_value(raw@, name@),
{
    match metric_of_name(name) {
        Some(m) => {
            let tokens = tokenize(raw);
            match crate::text::find_value(&tokens, key_of_metric(m)) {
                Some(v) => v,
                None => unavailable().to_owned(),
            }
        },
        None => unavailable().to_owned(),
    }
}

} // verus!

//! The automation decision: one telemetry signal drives one actuator with
//! plain on/off control. The surrounding loop — poll the transport, apply
//! the commanded level, wait — belongs to the collaborator that owns the
//! devices; the decision itself is total and verified.

use vstd::prelude::*;
use crate::command::Status;
use crate::sensors::get_value;
use crate::sensors::spec_get_value;
use crate::text::str_eq;

verus! {

/// The top-tank overflow metric reads clear.
pub open spec fn spec_overflow_clear(raw: Seq<char>) -> bool {
    spec_get_value(raw, "t1_ovf"@) == "NONE"@
}

/// One iteration of the automation loop: command the inter-tank pump pin
/// on exactly when the top-tank overflow telemetry reads clear; off on a
/// detected overflow, a missing metric, or an empty raw line.
pub fn automation_step(raw: &str, pump_pin: usize) -> (s: Status)
    ensures
        s == (Status::Gpio { pin: pump_pin, level: spec_overflow_clear(raw@) }),
{
    let v = get_value(raw, "t1_ovf");
    let level = str_eq(v.as_str(), "NONE");
    Status::Gpio { pin: pump_pin, level }
}

} // verus!

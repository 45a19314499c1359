//! The persistent state store's wire format: a length-prefixed binary
//! encoding of the Configuration and of the Session Table, with a proved
//! round trip — whatever is saved is exactly what a later load yields.
//! Reading and writing the two backing files, and the bounded retry with
//! randomized backoff around a contended read, belong to the caller; the
//! decisions (what a fresh store holds, when an upgrade is due, how long
//! a backoff may last) are here and verified.

use vstd::prelude::*;
use vstd::bytes::*;
use vstd::utf8::*;
use vstd::slice::slice_subrange;
use vstd::slice::slice_to_vec;
use crate::host;
use crate::state::Config;
use crate::state::ConfigV;
use crate::state::SensorKitConfig;
use crate::state::SensorKitConfigV;
use crate::state::SensorLog;
use crate::state::SensorLogV;
use crate::state::Session;
use crate::state::SessionV;
use crate::state::Sessions;
use crate::state::spec_version_tag;
use crate::state::version_tag;
use crate::text::str_eq;

verus! {

// ---------------------------------------------------------------------
// Serialization, stated on the mathematical images.
// ---------------------------------------------------------------------
pub open spec fn ser_u64(v: u64) -> Seq<u8> {
    spec_u64_to_le_bytes(v)
}

pub open spec fn ser_usize(v: usize) -> Seq<u8> {
    ser_u64(v as u64)
}

pub open spec fn ser_u8(v: u8) -> Seq<u8> {
    seq![v]
}

pub open spec fn ser_bool(v: bool) -> Seq<u8> {
    seq![if v { 1u8 } else { 0u8 }]
}

/// A character sequence travels as its UTF-8 byte length, then its UTF-8
/// bytes.
pub open spec fn ser_chars(s: Seq<char>) -> Seq<u8> {
    ser_u64(encode_utf8(s).len() as u64) + encode_utf8(s)
}

pub open spec fn ser_log(l: SensorLogV) -> Seq<u8> {
    ser_chars(l.id) + (ser_usize(l.timestamp) + (ser_chars(l.s1_co2) + (ser_chars(l.s2_co2) + (
    ser_chars(l.avg_co2) + (ser_chars(l.humidity) + (ser_chars(l.temperature) + (ser_bool(
        l.is_tank_one_overflowed,
    ) + ser_bool(l.is_tank_two_overflowed))))))))
}

pub open spec fn ser_logs(ls: Seq<SensorLogV>) -> Seq<u8>
    decreases ls.len(),
{
    if ls.len() == 0 {
        Seq::empty()
    } else {
        ser_log(ls[0]) + ser_logs(ls.skip(1))
    }
}

pub open spec fn ser_kit(k: SensorKitConfigV) -> Seq<u8> {
    ser_u8(k.dht11_pin) + (ser_u8(k.tank_one_overflow) + (ser_u8(k.tank_two_overflow) + (
    ser_chars(k.analog_co2_pin) + (ser_bool(k.enable_dht11) + (ser_bool(k.enable_analog_co2)
        + ser_bool(k.enable_ccs811))))))
}

pub open spec fn ser_opt_kit(k: Option<SensorKitConfigV>) -> Seq<u8> {
    match k {
        None => seq![0u8],
        Some(kk) => seq![1u8] + ser_kit(kk),
    }
}

pub open spec fn ser_config(c: ConfigV) -> Seq<u8> {
    ser_chars(c.id) + (ser_chars(c.encrypted_password) + (ser_chars(c.version_installed) + (
    ser_u64(c.boot_time) + (ser_bool(c.enable_automatic_updates) + (ser_bool(
        c.is_hvac_kit_installed,
    ) + (ser_bool(c.is_sensor_kit_installed) + (ser_u8(c.photo_cycle_start) + (ser_u8(
        c.photo_cycle_end,
    ) + (ser_chars(c.power_type) + (ser_usize(c.tank_one_to_two_pump_pin) + (ser_usize(
        c.uv_light_pin,
    ) + (ser_usize(c.air_circulation_pin) + (ser_opt_kit(c.sensor_kit_config) + (ser_u64(
        c.sensor_logs.len() as u64,
    ) + ser_logs(c.sensor_logs)))))))))))))))
}

pub open spec fn ser_session(s: SessionV) -> Seq<u8> {
    ser_chars(s.id) + ser_u8(s.delta)
}

pub open spec fn ser_sessions_rec(ss: Seq<SessionV>) -> Seq<u8>
    decreases ss.len(),
{
    if ss.len() == 0 {
        Seq::empty()
    } else {
        ser_session(ss[0]) + ser_sessions_rec(ss.skip(1))
    }
}

pub open spec fn ser_sessions(ss: Seq<SessionV>) -> Seq<u8> {
    ser_u64(ss.len() as u64) + ser_sessions_rec(ss)
}

// ---------------------------------------------------------------------
// What a value must satisfy for its encoding to carry it faithfully:
// lengths that fit the length prefixes. Every value built in executable
// code satisfies these by construction.
// ---------------------------------------------------------------------
pub open spec fn wf_chars(s: Seq<char>) -> bool {
    encode_utf8(s).len() <= u64::MAX
}

pub open spec fn wf_log_v(l: SensorLogV) -> bool {
    wf_chars(l.id) && wf_chars(l.s1_co2) && wf_chars(l.s2_co2) && wf_chars(l.avg_co2)
        && wf_chars(l.humidity) && wf_chars(l.temperature)
}

pub open spec fn wf_kit_v(k: SensorKitConfigV) -> bool {
    wf_chars(k.analog_co2_pin)
}

pub open spec fn wf_config_v(c: ConfigV) -> bool {
    &&& wf_chars(c.id)
    &&& wf_chars(c.encrypted_password)
    &&& wf_chars(c.version_installed)
    &&& wf_chars(c.power_type)
    &&& match c.sensor_kit_config {
        Some(k) => wf_kit_v(k),
        None => true,
    }
    &&& c.sensor_logs.len() <= u64::MAX
    &&& forall|i: int| 0 <= i < c.sensor_logs.len() ==> wf_log_v(#[trigger] c.sensor_logs[i])
}

pub open spec fn wf_sessions_v(ss: Seq<SessionV>) -> bool {
    ss.len() <= u64::MAX && forall|i: int| 0 <= i < ss.len() ==> wf_chars(#[trigger] ss[i].id)
}

// ---------------------------------------------------------------------
// Deserialization, position-passing.
// ---------------------------------------------------------------------
pub open spec fn dx_u64(b: Seq<u8>, p: int) -> Option<(u64, int)> {
    if 0 <= p && p + 8 <= b.len() {
        Some((spec_u64_from_le_bytes(b.subrange(p, p + 8)), p + 8))
    } else {
        None
    }
}

pub open spec fn dx_usize(b: Seq<u8>, p: int) -> Option<(usize, int)> {
    match dx_u64(b, p) {
        Some((v, q)) => if v <= usize::MAX as u64 {
            Some((v as usize, q))
        } else {
            None
        },
        None => None,
    }
}

pub open spec fn dx_u8(b: Seq<u8>, p: int) -> Option<(u8, int)> {
    if 0 <= p && p + 1 <= b.len() {
        Some((b[p], p + 1))
    } else {
        None
    }
}

pub open spec fn dx_bool(b: Seq<u8>, p: int) -> Option<(bool, int)> {
    match dx_u8(b, p) {
        Some((v, q)) => if v == 0 {
            Some((false, q))
        } else if v == 1 {
            Some((true, q))
        } else {
            None
        },
        None => None,
    }
}

pub open spec fn dx_chars(b: Seq<u8>, p: int) -> Option<(Seq<char>, int)> {
    match dx_u64(b, p) {
        Some((n, q)) => if q + n <= b.len() && valid_utf8(b.subrange(q, q + n)) {
            Some((decode_utf8(b.subrange(q, q + n)), q + n))
        } else {
            None
        },
        None => None,
    }
}

pub open spec fn dx_log(b: Seq<u8>, p: int) -> Option<(SensorLogV, int)> {
    match dx_chars(b, p) {
        Some((id, p)) => match dx_usize(b, p) {
            Some((timestamp, p)) => match dx_chars(b, p) {
                Some((s1_co2, p)) => match dx_chars(b, p) {
                    Some((s2_co2, p)) => match dx_chars(b, p) {
                        Some((avg_co2, p)) => match dx_chars(b, p) {
                            Some((humidity, p)) => match dx_chars(b, p) {
                                Some((temperature, p)) => match dx_bool(b, p) {
                                    Some((ovf1, p)) => match dx_bool(b, p) {
                                        Some((ovf2, p)) => Some(
                                            (
                                                SensorLogV {
                                                    id,
                                                    timestamp,
                                                    s1_co2,
                                                    s2_co2,
                                                    avg_co2,
                                                    humidity,
                                                    temperature,
                                                    is_tank_one_overflowed: ovf1,
                                                    is_tank_two_overflowed: ovf2,
                                                },
                                                p,
                                            ),
                                        ),
                                        None => None,
                                    },
                                    None => None,
                                },
                                None => None,
                            },
                            None => None,
                        },
                        None => None,
                    },
                    None => None,
                },
                None => None,
            },
            None => None,
        },
        None => None,
    }
}

pub open spec fn dx_logs(b: Seq<u8>, p: int, n: int) -> Option<(Seq<SensorLogV>, int)>
    decreases n,
{
    if n <= 0 {
        Some((Seq::empty(), p))
    } else {
        match dx_log(b, p) {
            Some((l, q)) => match dx_logs(b, q, n - 1) {
                Some((rest, r)) => Some((seq![l] + rest, r)),
                None => None,
            },
            None => None,
        }
    }
}

pub open spec fn dx_kit(b: Seq<u8>, p: int) -> Option<(SensorKitConfigV, int)> {
    match dx_u8(b, p) {
        Some((dht11_pin, p)) => match dx_u8(b, p) {
            Some((tank_one_overflow, p)) => match dx_u8(b, p) {
                Some((tank_two_overflow, p)) => match dx_chars(b, p) {
                    Some((analog_co2_pin, p)) => match dx_bool(b, p) {
                        Some((enable_dht11, p)) => match dx_bool(b, p) {
                            Some((enable_analog_co2, p)) => match dx_bool(b, p) {
                                Some((enable_ccs811, p)) => Some(
                                    (
                                        SensorKitConfigV {
                                            dht11_pin,
                                            tank_one_overflow,
                                            tank_two_overflow,
                                            analog_co2_pin,
                                            enable_dht11,
                                            enable_analog_co2,
                                            enable_ccs811,
                                        },
                                        p,
                                    ),
                                ),
                                None => None,
                            },
                            None => None,
                        },
                        None => None,
                    },
                    None => None,
                },
                None => None,
            },
            None => None,
        },
        None => None,
    }
}

pub open spec fn dx_opt_kit(b: Seq<u8>, p: int) -> Option<(Option<SensorKitConfigV>, int)> {
    match dx_u8(b, p) {
        Some((tag, p)) => if tag == 0 {
            Some((None, p))
        } else if tag == 1 {
            match dx_kit(b, p) {
                Some((k, q)) => Some((Some(k), q)),
                None => None,
            }
        } else {
            None
        },
        None => None,
    }
}

pub open spec fn dx_config(b: Seq<u8>, p: int) -> Option<(ConfigV, int)> {
    match dx_chars(b, p) {
        Some((id, p)) => match dx_chars(b, p) {
            Some((encrypted_password, p)) => match dx_chars(b, p) {
                Some((version_installed, p)) => match dx_u64(b, p) {
                    Some((boot_time, p)) => match dx_bool(b, p) {
                        Some((enable_automatic_updates, p)) => match dx_bool(b, p) {
                            Some((is_hvac_kit_installed, p)) => match dx_bool(b, p) {
                                Some((is_sensor_kit_installed, p)) => match dx_u8(b, p) {
                                    Some((photo_cycle_start, p)) => match dx_u8(b, p) {
                                        Some((photo_cycle_end, p)) => match dx_chars(b, p) {
                                            Some((power_type, p)) => match dx_usize(b, p) {
                                                Some((tank_one_to_two_pump_pin, p)) => match dx_usize(
                                                    b,
                                                    p,
                                                ) {
                                                    Some((uv_light_pin, p)) => match dx_usize(
                                                        b,
                                                        p,
                                                    ) {
                                                        Some((air_circulation_pin, p)) => match dx_opt_kit(
                                                            b,
                                                            p,
                                                        ) {
                                                            Some((sensor_kit_config, p)) => match dx_u64(
                                                                b,
                                                                p,
                                                            ) {
                                                                Some((log_count, p)) => match dx_logs(
                                                                    b,
                                                                    p,
                                                                    log_count as int,
                                                                ) {
                                                                    Some((sensor_logs, p)) => Some(
                                                                        (
                                                                            ConfigV {
                                                                                id,
                                                                                encrypted_password,
                                                                                version_installed,
                                                                                boot_time,
                                                                                enable_automatic_updates,
                                                                                is_hvac_kit_installed,
                                                                                is_sensor_kit_installed,
                                                                                photo_cycle_start,
                                                                                photo_cycle_end,
                                                                                power_type,
                                                                                tank_one_to_two_pump_pin,
                                                                                uv_light_pin,
                                                                                air_circulation_pin,
                                                                                sensor_kit_config,
                                                                                sensor_logs,
                                                                            },
                                                                            p,
                                                                        ),
                                                                    ),
                                                                    None => None,
                                                                },
                                                                None => None,
                                                            },
                                                            None => None,
                                                        },
                                                        None => None,
                                                    },
                                                    None => None,
                                                },
                                                None => None,
                                            },
                                            None => None,
                                        },
                                        None => None,
                                    },
                                    None => None,
                                },
                                None => None,
                            },
                            None => None,
                        },
                        None => None,
                    },
                    None => None,
                },
                None => None,
            },
            None => None,
        },
        None => None,
    }
}

/// A whole configuration file: one configuration, consuming every byte.
pub open spec fn deser_config(b: Seq<u8>) -> Option<ConfigV> {
    match dx_config(b, 0) {
        Some((c, p)) => if p == b.len() {
            Some(c)
        } else {
            None
        },
        None => None,
    }
}

pub open spec fn dx_session(b: Seq<u8>, p: int) -> Option<(SessionV, int)> {
    match dx_chars(b, p) {
        Some((id, p)) => match dx_u8(b, p) {
            Some((delta, p)) => Some((SessionV { id, delta }, p)),
            None => None,
        },
        None => None,
    }
}

pub open spec fn dx_sessions_rec(b: Seq<u8>, p: int, n: int) -> Option<(Seq<SessionV>, int)>
    decreases n,
{
    if n <= 0 {
        Some((Seq::empty(), p))
    } else {
        match dx_session(b, p) {
            Some((s, q)) => match dx_sessions_rec(b, q, n - 1) {
                Some((rest, r)) => Some((seq![s] + rest, r)),
                None => None,
            },
            None => None,
        }
    }
}

/// A whole session-table file: the count, the sessions, every byte used.
pub open spec fn deser_sessions(b: Seq<u8>) -> Option<Seq<SessionV>> {
    match dx_u64(b, 0) {
        Some((n, p)) => match dx_sessions_rec(b, p, n as int) {
            Some((ss, q)) => if q == b.len() {
                Some(ss)
            } else {
                None
            },
            None => None,
        },
        None => None,
    }
}

// ---------------------------------------------------------------------
// Round trip: decoding what was encoded yields the value back.
// ---------------------------------------------------------------------
/// Splitting a window of `b` known to hold `x + y` into the two parts.
proof fn lemma_subrange_concat(b: Seq<u8>, p: int, x: Seq<u8>, y: Seq<u8>)
    requires
        0 <= p,
        p + x.len() + y.len() <= b.len(),
        b.subrange(p, p + x.len() + y.len()) == x + y,
    ensures
        b.subrange(p, p + x.len()) == x,
        b.subrange(p + x.len(), p + x.len() + y.len()) == y,
{
    let whole = b.subrange(p, p + x.len() + y.len());
    assert forall|i: int| 0 <= i < x.len() implies b.subrange(p, p + x.len())[i] == x[i] by {
        assert(whole[i] == (x + y)[i]);
    }
    assert(b.subrange(p, p + x.len()) =~= x);
    assert forall|i: int|
        0 <= i < y.len() implies b.subrange(p + x.len(), p + x.len() + y.len())[i] == y[i] by {
        assert(whole[x.len() + i] == (x + y)[x.len() + i]);
    }
    assert(b.subrange(p + x.len(), p + x.len() + y.len()) =~= y);
}

proof fn lemma_assoc(a: Seq<u8>, x: Seq<u8>, y: Seq<u8>)
    ensures
        (a + x) + y == a + (x + y),
{
    assert((a + x) + y =~= a + (x + y));
}

proof fn lemma_ser_u64_len(v: u64)
    ensures
        ser_u64(v).len() == 8,
{
    lemma_auto_spec_u64_to_from_le_bytes();
}

proof fn lemma_dx_u64(b: Seq<u8>, p: int, v: u64)
    requires
        0 <= p,
        p + 8 <= b.len(),
        b.subrange(p, p + 8) == ser_u64(v),
    ensures
        dx_u64(b, p) == Some((v, p + 8)),
{
    lemma_auto_spec_u64_to_from_le_bytes();
}

proof fn lemma_dx_usize(b: Seq<u8>, p: int, v: usize)
    requires
        0 <= p,
        p + 8 <= b.len(),
        b.subrange(p, p + 8) == ser_usize(v),
    ensures
        dx_usize(b, p) == Some((v, p + 8)),
{
    lemma_dx_u64(b, p, v as u64);
}

proof fn lemma_dx_u8(b: Seq<u8>, p: int, v: u8)
    requires
        0 <= p,
        p + 1 <= b.len(),
        b.subrange(p, p + 1) == ser_u8(v),
    ensures
        dx_u8(b, p) == Some((v, p + 1)),
{
    assert(b.subrange(p, p + 1)[0] == b[p]);
}

proof fn lemma_dx_bool(b: Seq<u8>, p: int, v: bool)
    requires
        0 <= p,
        p + 1 <= b.len(),
        b.subrange(p, p + 1) == ser_bool(v),
    ensures
        dx_bool(b, p) == Some((v, p + 1)),
{
    assert(b.subrange(p, p + 1)[0] == b[p]);
}

proof fn lemma_dx_chars(b: Seq<u8>, p: int, s: Seq<char>)
    requires
        0 <= p,
        wf_chars(s),
        p + ser_chars(s).len() <= b.len(),
        b.subrange(p, p + ser_chars(s).len()) == ser_chars(s),
    ensures
        dx_chars(b, p) == Some((s, p + ser_chars(s).len())),
{
    let n = encode_utf8(s).len() as u64;
    lemma_ser_u64_len(n);
    lemma_subrange_concat(b, p, ser_u64(n), encode_utf8(s));
    lemma_dx_u64(b, p, n);
    encode_utf8_valid_utf8(s);
    encode_utf8_decode_utf8(s);
}

proof fn lemma_dx_log(b: Seq<u8>, p: int, l: SensorLogV)
    requires
        0 <= p,
        wf_log_v(l),
        p + ser_log(l).len() <= b.len(),
        b.subrange(p, p + ser_log(l).len()) == ser_log(l),
    ensures
        dx_log(b, p) == Some((l, p + ser_log(l).len())),
{
    lemma_auto_spec_u64_to_from_le_bytes();
    let seg1 = ser_chars(l.id);
    let seg2 = ser_usize(l.timestamp);
    let seg3 = ser_chars(l.s1_co2);
    let seg4 = ser_chars(l.s2_co2);
    let seg5 = ser_chars(l.avg_co2);
    let seg6 = ser_chars(l.humidity);
    let seg7 = ser_chars(l.temperature);
    let seg8 = ser_bool(l.is_tank_one_overflowed);
    let seg9 = ser_bool(l.is_tank_two_overflowed);
    let p1 = p + seg1.len();
    let p2 = p1 + seg2.len();
    let p3 = p2 + seg3.len();
    let p4 = p3 + seg4.len();
    let p5 = p4 + seg5.len();
    let p6 = p5 + seg6.len();
    let p7 = p6 + seg7.len();
    let p8 = p7 + seg8.len();
    lemma_subrange_concat(b, p, seg1, seg2 + (seg3 + (seg4 + (seg5 + (seg6 + (seg7 + (seg8 + seg9)))))));
    lemma_dx_chars(b, p, l.id);
    lemma_subrange_concat(b, p1, seg2, seg3 + (seg4 + (seg5 + (seg6 + (seg7 + (seg8 + seg9))))));
    lemma_dx_usize(b, p1, l.timestamp);
    lemma_subrange_concat(b, p2, seg3, seg4 + (seg5 + (seg6 + (seg7 + (seg8 + seg9)))));
    lemma_dx_chars(b, p2, l.s1_co2);
    lemma_subrange_concat(b, p3, seg4, seg5 + (seg6 + (seg7 + (seg8 + seg9))));
    lemma_dx_chars(b, p3, l.s2_co2);
    lemma_subrange_concat(b, p4, seg5, seg6 + (seg7 + (seg8 + seg9)));
    lemma_dx_chars(b, p4, l.avg_co2);
    lemma_subrange_concat(b, p5, seg6, seg7 + (seg8 + seg9));
    lemma_dx_chars(b, p5, l.humidity);
    lemma_subrange_concat(b, p6, seg7, seg8 + seg9);
    lemma_dx_chars(b, p6, l.temperature);
    lemma_subrange_concat(b, p7, seg8, seg9);
    lemma_dx_bool(b, p7, l.is_tank_one_overflowed);
    lemma_dx_bool(b, p8, l.is_tank_two_overflowed);
}

proof fn lemma_dx_logs(b: Seq<u8>, p: int, ls: Seq<SensorLogV>)
    requires
        0 <= p,
        forall|i: int| 0 <= i < ls.len() ==> wf_log_v(#[trigger] ls[i]),
        p + ser_logs(ls).len() <= b.len(),
        b.subrange(p, p + ser_logs(ls).len()) == ser_logs(ls),
    ensures
        dx_logs(b, p, ls.len() as int) == Some((ls, p + ser_logs(ls).len())),
    decreases ls.len(),
{
    if ls.len() == 0 {
        assert(ls =~= Seq::<SensorLogV>::empty());
    } else {
        lemma_subrange_concat(b, p, ser_log(ls[0]), ser_logs(ls.skip(1)));
        lemma_dx_log(b, p, ls[0]);
        assert(forall|i: int|
            0 <= i < ls.skip(1).len() ==> wf_log_v(#[trigger] ls.skip(1)[i]));
        lemma_dx_logs(b, p + ser_log(ls[0]).len(), ls.skip(1));
        assert(seq![ls[0]] + ls.skip(1) =~= ls);
    }
}

proof fn lemma_dx_kit(b: Seq<u8>, p: int, k: SensorKitConfigV)
    requires
        0 <= p,
        wf_kit_v(k),
        p + ser_kit(k).len() <= b.len(),
        b.subrange(p, p + ser_kit(k).len()) == ser_kit(k),
    ensures
        dx_kit(b, p) == Some((k, p + ser_kit(k).len())),
{
    let seg1 = ser_u8(k.dht11_pin);
    let seg2 = ser_u8(k.tank_one_overflow);
    let seg3 = ser_u8(k.tank_two_overflow);
    let seg4 = ser_chars(k.analog_co2_pin);
    let seg5 = ser_bool(k.enable_dht11);
    let seg6 = ser_bool(k.enable_analog_co2);
    let seg7 = ser_bool(k.enable_ccs811);
    let p1 = p + seg1.len();
    let p2 = p1 + seg2.len();
    let p3 = p2 + seg3.len();
    let p4 = p3 + seg4.len();
    let p5 = p4 + seg5.len();
    let p6 = p5 + seg6.len();
    lemma_subrange_concat(b, p, seg1, seg2 + (seg3 + (seg4 + (seg5 + (seg6 + seg7)))));
    lemma_dx_u8(b, p, k.dht11_pin);
    lemma_subrange_concat(b, p1, seg2, seg3 + (seg4 + (seg5 + (seg6 + seg7))));
    lemma_dx_u8(b, p1, k.tank_one_overflow);
    lemma_subrange_concat(b, p2, seg3, seg4 + (seg5 + (seg6 + seg7)));
    lemma_dx_u8(b, p2, k.tank_two_overflow);
    lemma_subrange_concat(b, p3, seg4, seg5 + (seg6 + seg7));
    lemma_dx_chars(b, p3, k.analog_co2_pin);
    lemma_subrange_concat(b, p4, seg5, seg6 + seg7);
    lemma_dx_bool(b, p4, k.enable_dht11);
    lemma_subrange_concat(b, p5, seg6, seg7);
    lemma_dx_bool(b, p5, k.enable_analog_co2);
    lemma_dx_bool(b, p6, k.enable_ccs811);
}

proof fn lemma_dx_opt_kit(b: Seq<u8>, p: int, k: Option<SensorKitConfigV>)
    requires
        0 <= p,
        match k {
            Some(kk) => wf_kit_v(kk),
            None => true,
        },
        p + ser_opt_kit(k).len() <= b.len(),
        b.subrange(p, p + ser_opt_kit(k).len()) == ser_opt_kit(k),
    ensures
        dx_opt_kit(b, p) == Some((k, p + ser_opt_kit(k).len())),
{
    match k {
        None => {
            assert(b.subrange(p, p + 1)[0] == b[p]);
        },
        Some(kk) => {
            lemma_subrange_concat(b, p, seq![1u8], ser_kit(kk));
            assert(b.subrange(p, p + 1)[0] == b[p]);
            lemma_dx_kit(b, p + 1, kk);
        },
    }
}

#[verifier::rlimit(100)]
proof fn lemma_dx_config(b: Seq<u8>, p: int, c: ConfigV)
    requires
        0 <= p,
        wf_config_v(c),
        p + ser_config(c).len() <= b.len(),
        b.subrange(p, p + ser_config(c).len()) == ser_config(c),
    ensures
        dx_config(b, p) == Some((c, p + ser_config(c).len())),
{
    lemma_auto_spec_u64_to_from_le_bytes();
    let seg1 = ser_chars(c.id);
    let seg2 = ser_chars(c.encrypted_password);
    let seg3 = ser_chars(c.version_installed);
    let seg4 = ser_u64(c.boot_time);
    let seg5 = ser_bool(c.enable_automatic_updates);
    let seg6 = ser_bool(c.is_hvac_kit_installed);
    let seg7 = ser_bool(c.is_sensor_kit_installed);
    let seg8 = ser_u8(c.photo_cycle_start);
    let seg9 = ser_u8(c.photo_cycle_end);
    let seg10 = ser_chars(c.power_type);
    let seg11 = ser_usize(c.tank_one_to_two_pump_pin);
    let seg12 = ser_usize(c.uv_light_pin);
    let seg13 = ser_usize(c.air_circulation_pin);
    let seg14 = ser_opt_kit(c.sensor_kit_config);
    let seg15 = ser_u64(c.sensor_logs.len() as u64);
    let seg16 = ser_logs(c.sensor_logs);
    let p1 = p + seg1.len();
    let p2 = p1 + seg2.len();
    let p3 = p2 + seg3.len();
    let p4 = p3 + seg4.len();
    let p5 = p4 + seg5.len();
    let p6 = p5 + seg6.len();
    let p7 = p6 + seg7.len();
    let p8 = p7 + seg8.len();
    let p9 = p8 + seg9.len();
    let p10 = p9 + seg10.len();
    let p11 = p10 + seg11.len();
    let p12 = p11 + seg12.len();
    let p13 = p12 + seg13.len();
    let p14 = p13 + seg14.len();
    let p15 = p14 + seg15.len();
    lemma_subrange_concat(b, p, seg1, seg2 + (seg3 + (seg4 + (seg5 + (seg6 + (seg7 + (seg8 + (seg9 + (seg10 + (seg11
        + (seg12 + (seg13 + (seg14 + (seg15 + seg16))))))))))))));
    lemma_dx_chars(b, p, c.id);
    lemma_subrange_concat(b, p1, seg2, seg3 + (seg4 + (seg5 + (seg6 + (seg7 + (seg8 + (seg9 + (seg10 + (seg11 + (seg12
        + (seg13 + (seg14 + (seg15 + seg16)))))))))))));
    lemma_dx_chars(b, p1, c.encrypted_password);
    lemma_subrange_concat(b, p2, seg3, seg4 + (seg5 + (seg6 + (seg7 + (seg8 + (seg9 + (seg10 + (seg11 + (seg12 + (seg13
        + (seg14 + (seg15 + seg16))))))))))));
    lemma_dx_chars(b, p2, c.version_installed);
    lemma_subrange_concat(b, p3, seg4, seg5 + (seg6 + (seg7 + (seg8 + (seg9 + (seg10 + (seg11 + (seg12 + (seg13 + (seg14
        + (seg15 + seg16)))))))))));
    lemma_dx_u64(b, p3, c.boot_time);
    lemma_subrange_concat(b, p4, seg5, seg6 + (seg7 + (seg8 + (seg9 + (seg10 + (seg11 + (seg12 + (seg13 + (seg14 + (seg15
        + seg16))))))))));
    lemma_dx_bool(b, p4, c.enable_automatic_updates);
    lemma_subrange_concat(b, p5, seg6, seg7 + (seg8 + (seg9 + (seg10 + (seg11 + (seg12 + (seg13 + (seg14 + (seg15
        + seg16)))))))));
    lemma_dx_bool(b, p5, c.is_hvac_kit_installed);
    lemma_subrange_concat(b, p6, seg7, seg8 + (seg9 + (seg10 + (seg11 + (seg12 + (seg13 + (seg14 + (seg15
        + seg16))))))));
    lemma_dx_bool(b, p6, c.is_sensor_kit_installed);
    lemma_subrange_concat(b, p7, seg8, seg9 + (seg10 + (seg11 + (seg12 + (seg13 + (seg14 + (seg15 + seg16)))))));
    lemma_dx_u8(b, p7, c.photo_cycle_start);
    lemma_subrange_concat(b, p8, seg9, seg10 + (seg11 + (seg12 + (seg13 + (seg14 + (seg15 + seg16))))));
    lemma_dx_u8(b, p8, c.photo_cycle_end);
    lemma_subrange_concat(b, p9, seg10, seg11 + (seg12 + (seg13 + (seg14 + (seg15 + seg16)))));
    lemma_dx_chars(b, p9, c.power_type);
    lemma_subrange_concat(b, p10, seg11, seg12 + (seg13 + (seg14 + (seg15 + seg16))));
    lemma_dx_usize(b, p10, c.tank_one_to_two_pump_pin);
    lemma_subrange_concat(b, p11, seg12, seg13 + (seg14 + (seg15 + seg16)));
    lemma_dx_usize(b, p11, c.uv_light_pin);
    lemma_subrange_concat(b, p12, seg13, seg14 + (seg15 + seg16));
    lemma_dx_usize(b, p12, c.air_circulation_pin);
    lemma_subrange_concat(b, p13, seg14, seg15 + seg16);
    lemma_dx_opt_kit(b, p13, c.sensor_kit_config);
    lemma_subrange_concat(b, p14, seg15, seg16);
    lemma_dx_u64(b, p14, c.sensor_logs.len() as u64);
    lemma_dx_logs(b, p15, c.sensor_logs);
}

/// Round-trip fidelity of the configuration store: decoding an encoded
/// configuration yields exactly the configuration that was encoded, for
/// every configuration whose strings and log fit the length prefixes —
/// which every configuration held in memory does.
pub proof fn lemma_config_round_trip(c: ConfigV)
    requires
        wf_config_v(c),
    ensures
        deser_config(ser_config(c)) == Some(c),
{
    let b = ser_config(c);
    assert(b.subrange(0, b.len() as int) =~= b);
    lemma_dx_config(b, 0, c);
}

proof fn lemma_dx_session(b: Seq<u8>, p: int, s: SessionV)
    requires
        0 <= p,
        wf_chars(s.id),
        p + ser_session(s).len() <= b.len(),
        b.subrange(p, p + ser_session(s).len()) == ser_session(s),
    ensures
        dx_session(b, p) == Some((s, p + ser_session(s).len())),
{
    lemma_subrange_concat(b, p, ser_chars(s.id), ser_u8(s.delta));
    lemma_dx_chars(b, p, s.id);
    lemma_dx_u8(b, p + ser_chars(s.id).len(), s.delta);
}

proof fn lemma_dx_sessions_rec(b: Seq<u8>, p: int, ss: Seq<SessionV>)
    requires
        0 <= p,
        forall|i: int| 0 <= i < ss.len() ==> wf_chars(#[trigger] ss[i].id),
        p + ser_sessions_rec(ss).len() <= b.len(),
        b.subrange(p, p + ser_sessions_rec(ss).len()) == ser_sessions_rec(ss),
    ensures
        dx_sessions_rec(b, p, ss.len() as int) == Some((ss, p + ser_sessions_rec(ss).len())),
    decreases ss.len(),
{
    if ss.len() == 0 {
        assert(ss =~= Seq::<SessionV>::empty());
    } else {
        lemma_subrange_concat(b, p, ser_session(ss[0]), ser_sessions_rec(ss.skip(1)));
        lemma_dx_session(b, p, ss[0]);
        assert(forall|i: int|
            0 <= i < ss.skip(1).len() ==> wf_chars(#[trigger] ss.skip(1)[i].id));
        lemma_dx_sessions_rec(b, p + ser_session(ss[0]).len(), ss.skip(1));
        assert(seq![ss[0]] + ss.skip(1) =~= ss);
    }
}

// ---------------------------------------------------------------------
// Executable encoding.
// ---------------------------------------------------------------------
fn put_u64(out: &mut Vec<u8>, v: u64)
    ensures
        final(out)@ == old(out)@ + ser_u64(v),
{
    let mut bs = u64_to_le_bytes(v);
    out.append(&mut bs);
}

fn put_u8(out: &mut Vec<u8>, v: u8)
    ensures
        final(out)@ == old(out)@ + ser_u8(v),
{
    out.push(v);
    proof {
        assert(out@ =~= old(out)@ + ser_u8(v));
    }
}

fn put_bool(out: &mut Vec<u8>, v: bool)
    ensures
        final(out)@ == old(out)@ + ser_bool(v),
{
    out.push(if v { 1 } else { 0 });
    proof {
        assert(out@ =~= old(out)@ + ser_bool(v));
    }
}

fn put_chars(out: &mut Vec<u8>, s: &String)
    ensures
        final(out)@ == old(out)@ + ser_chars(s@),
{
    let mut bytes = s.as_str().as_bytes_vec();
    let n = bytes.len();
    put_u64(out, n as u64);
    out.append(&mut bytes);
    proof {
        assert(out@ =~= old(out)@ + ser_chars(s@));
    }
}

fn encode_log_into(out: &mut Vec<u8>, l: &SensorLog)
    ensures
        final(out)@ == old(out)@ + ser_log(l@),
{
    put_chars(out, &l.id);
    put_u64(out, l.timestamp as u64);
    put_chars(out, &l.s1_co2);
    put_chars(out, &l.s2_co2);
    put_chars(out, &l.avg_co2);
    put_chars(out, &l.humidity);
    put_chars(out, &l.temperature);
    put_bool(out, l.is_tank_one_overflowed);
    put_bool(out, l.is_tank_two_overflowed);
    proof {
        let s1 = ser_chars(l@.id);
        let s2 = ser_usize(l@.timestamp);
        let s3 = ser_chars(l@.s1_co2);
        let s4 = ser_chars(l@.s2_co2);
        let s5 = ser_chars(l@.avg_co2);
        let s6 = ser_chars(l@.humidity);
        let s7 = ser_chars(l@.temperature);
        let s8 = ser_bool(l@.is_tank_one_overflowed);
        let s9 = ser_bool(l@.is_tank_two_overflowed);
        let u0 = old(out)@;
        let u1 = u0 + s1;
        let u2 = u1 + s2;
        let u3 = u2 + s3;
        let u4 = u3 + s4;
        let u5 = u4 + s5;
        let u6 = u5 + s6;
        let u7 = u6 + s7;
        let u8t = u7 + s8;
        assert(out@ == u8t + s9);
        let t9 = s9;
        let t8 = s8 + t9;
        let t7 = s7 + t8;
        let t6 = s6 + t7;
        let t5 = s5 + t6;
        let t4 = s4 + t5;
        let t3 = s3 + t4;
        let t2 = s2 + t3;
        lemma_assoc(u7, s8, t9);
        lemma_assoc(u6, s7, t8);
        lemma_assoc(u5, s6, t7);
        lemma_assoc(u4, s5, t6);
        lemma_assoc(u3, s4, t5);
        lemma_assoc(u2, s3, t4);
        lemma_assoc(u1, s2, t3);
        lemma_assoc(u0, s1, t2);
        assert(out@ == old(out)@ + ser_log(l@));
    }
}

fn encode_logs_into(out: &mut Vec<u8>, logs: &Vec<SensorLog>, i: usize)
    requires
        i <= logs@.len(),
    ensures
        final(out)@ == old(out)@ + ser_logs(
            logs@.map_values(|l: SensorLog| l@).skip(i as int),
        ),
    decreases logs@.len() - i,
{
    let ghost m = logs@.map_values(|l: SensorLog| l@);
    if i < logs.len() {
        encode_log_into(out, &logs[i]);
        encode_logs_into(out, logs, i + 1);
        proof {
            assert(m.skip(i as int)[0] == m[i as int]);
            assert(m.skip(i as int).skip(1) =~= m.skip(i as int + 1));
            assert(out@ =~= old(out)@ + ser_logs(m.skip(i as int)));
        }
    } else {
        proof {
            assert(m.skip(i as int) =~= Seq::<SensorLogV>::empty());
            assert(out@ =~= old(out)@ + ser_logs(m.skip(i as int)));
        }
    }
}

fn encode_opt_kit_into(out: &mut Vec<u8>, k: &Option<SensorKitConfig>)
    ensures
        final(out)@ == old(out)@ + ser_opt_kit(
            match k {
                Some(kk) => Some(kk@),
                None => None,
            },
        ),
{
    match k {
        None => {
            put_u8(out, 0);
        },
        Some(kk) => {
            put_u8(out, 1);
            put_u8(out, kk.dht11_pin);
            put_u8(out, kk.tank_one_overflow);
            put_u8(out, kk.tank_two_overflow);
            put_chars(out, &kk.analog_co2_pin);
            put_bool(out, kk.enable_dht11);
            put_bool(out, kk.enable_analog_co2);
            put_bool(out, kk.enable_ccs811);
            proof {
                assert(out@ =~= old(out)@ + ser_opt_kit(Some(kk@)));
            }
        },
    }
}

/// Serializes a configuration for the store; the encoding is exactly
/// `ser_config` of the configuration's image, so a later decode returns
/// the configuration unchanged.
#[verifier::rlimit(100)]
pub fn encode_config(c: &Config) -> (out: Vec<u8>)
    ensures
        out@ == ser_config(c@),
{
    let mut out: Vec<u8> = Vec::new();
    put_chars(&mut out, &c.id);
    put_chars(&mut out, &c.encrypted_password);
    put_chars(&mut out, &c.version_installed);
    put_u64(&mut out, c.boot_time);
    put_bool(&mut out, c.enable_automatic_updates);
    put_bool(&mut out, c.is_hvac_kit_installed);
    put_bool(&mut out, c.is_sensor_kit_installed);
    put_u8(&mut out, c.photo_cycle_start);
    put_u8(&mut out, c.photo_cycle_end);
    put_chars(&mut out, &c.power_type);
    put_u64(&mut out, c.tank_one_to_two_pump_pin as u64);
    put_u64(&mut out, c.uv_light_pin as u64);
    put_u64(&mut out, c.air_circulation_pin as u64);
    encode_opt_kit_into(&mut out, &c.sensor_kit_config);
    put_u64(&mut out, c.sensor_logs.len() as u64);
    encode_logs_into(&mut out, &c.sensor_logs, 0);
    proof {
        let m = c.sensor_logs@.map_values(|l: SensorLog| l@);
        assert(m.skip(0) =~= m);
        let s1 = ser_chars(c@.id);
        let s2 = ser_chars(c@.encrypted_password);
        let s3 = ser_chars(c@.version_installed);
        let s4 = ser_u64(c@.boot_time);
        let s5 = ser_bool(c@.enable_automatic_updates);
        let s6 = ser_bool(c@.is_hvac_kit_installed);
        let s7 = ser_bool(c@.is_sensor_kit_installed);
        let s8 = ser_u8(c@.photo_cycle_start);
        let s9 = ser_u8(c@.photo_cycle_end);
        let s10 = ser_chars(c@.power_type);
        let s11 = ser_usize(c@.tank_one_to_two_pump_pin);
        let s12 = ser_usize(c@.uv_light_pin);
        let s13 = ser_usize(c@.air_circulation_pin);
        let s14 = ser_opt_kit(c@.sensor_kit_config);
        let s15 = ser_u64(c@.sensor_logs.len() as u64);
        let s16 = ser_logs(c@.sensor_logs);
        let u0 = Seq::<u8>::empty();
        let u1 = u0 + s1;
        let u2 = u1 + s2;
        let u3 = u2 + s3;
        let u4 = u3 + s4;
        let u5 = u4 + s5;
        let u6 = u5 + s6;
        let u7 = u6 + s7;
        let u8t = u7 + s8;
        let u9 = u8t + s9;
        let u10 = u9 + s10;
        let u11 = u10 + s11;
        let u12 = u11 + s12;
        let u13 = u12 + s13;
        let u14 = u13 + s14;
        let u15 = u14 + s15;
        assert(out@ == u15 + s16);
        let t16 = s16;
        let t15 = s15 + t16;
        let t14 = s14 + t15;
        let t13 = s13 + t14;
        let t12 = s12 + t13;
        let t11 = s11 + t12;
        let t10 = s10 + t11;
        let t9 = s9 + t10;
        let t8 = s8 + t9;
        let t7 = s7 + t8;
        let t6 = s6 + t7;
        let t5 = s5 + t6;
        let t4 = s4 + t5;
        let t3 = s3 + t4;
        let t2 = s2 + t3;
        let t1 = s1 + t2;
        lemma_assoc(u14, s15, t16);
        lemma_assoc(u13, s14, t15);
        lemma_assoc(u12, s13, t14);
        lemma_assoc(u11, s12, t13);
        lemma_assoc(u10, s11, t12);
        lemma_assoc(u9, s10, t11);
        lemma_assoc(u8t, s9, t10);
        lemma_assoc(u7, s8, t9);
        lemma_assoc(u6, s7, t8);
        lemma_assoc(u5, s6, t7);
        lemma_assoc(u4, s5, t6);
        lemma_assoc(u3, s4, t5);
        lemma_assoc(u2, s3, t4);
        lemma_assoc(u1, s2, t3);
        lemma_assoc(u0, s1, t2);
        assert(u0 + t1 =~= t1);
        assert(out@ == ser_config(c@));
    }
    out
}

/// Serializes the session table for the store.
pub fn encode_sessions(t: &Sessions) -> (out: Vec<u8>)
    ensures
        out@ == ser_sessions(t@),
{
    let mut out: Vec<u8> = Vec::new();
    put_u64(&mut out, t.sessions.len() as u64);
    let n = t.sessions.len();
    let mut i: usize = 0;
    proof {
        assert(t@.take(0) =~= Seq::<SessionV>::empty());
        assert(out@ =~= ser_u64(t@.len() as u64) + ser_sessions_rec(t@.take(0)));
    }
    while i < n
        invariant
            n == t.sessions@.len(),
            i <= n,
            out@ == ser_u64(t@.len() as u64) + ser_sessions_rec(t@.take(i as int)),
        decreases n - i,
    {
        put_chars(&mut out, &t.sessions[i].id);
        put_u8(&mut out, t.sessions[i].delta);
        proof {
            lemma_ser_sessions_rec_snoc(t@, i as int);
            assert(out@ =~= ser_u64(t@.len() as u64) + ser_sessions_rec(
                t@.take(i as int + 1),
            ));
        }
        i = i + 1;
    }
    proof {
        assert(t@.take(n as int) =~= t@);
    }
    out
}

proof fn lemma_ser_sessions_rec_snoc(ss: Seq<SessionV>, i: int)
    requires
        0 <= i < ss.len(),
    ensures
        ser_sessions_rec(ss.take(i + 1)) == ser_sessions_rec(ss.take(i)) + ser_session(ss[i]),
    decreases i,
{
    if i == 0 {
        assert(ss.take(1)[0] == ss[0]);
        assert(ss.take(1).skip(1) =~= Seq::<SessionV>::empty());
        assert(ss.take(0) =~= Seq::<SessionV>::empty());
        assert(ser_sessions_rec(ss.take(1)) =~= ser_sessions_rec(ss.take(0)) + ser_session(
            ss[0],
        ));
    } else {
        lemma_ser_sessions_rec_snoc(ss.skip(1), i - 1);
        assert(ss.take(i + 1)[0] == ss[0]);
        assert(ss.take(i + 1).skip(1) =~= ss.skip(1).take(i));
        assert(ss.take(i)[0] == ss[0]);
        assert(ss.take(i).skip(1) =~= ss.skip(1).take(i - 1));
        assert(ss.skip(1)[i - 1] == ss[i]);
        assert(ser_sessions_rec(ss.take(i + 1)) =~= ser_sessions_rec(ss.take(i)) + ser_session(
            ss[i],
        ));
    }
}

// ---------------------------------------------------------------------
// Executable decoding.
// ---------------------------------------------------------------------
/// Relies on std's `String::from_utf8`: succeeds exactly on valid UTF-8,
/// and the returned string's UTF-8 encoding is the given bytes.
#[verifier::external_body]
fn string_from_utf8(v: Vec<u8>) -> (r: Option<String>)
    ensures
        match r {
            Some(s) => valid_utf8(v@) && encode_utf8(s@) == v@,
            None => !valid_utf8(v@),
        },
{
    match String::from_utf8(v) {
        Ok(s) => Some(s),
        Err(_) => None,
    }
}

fn get_u64(b: &Vec<u8>, p: usize) -> (r: Option<(u64, usize)>)
    ensures
        match r {
            Some((v, q)) => dx_u64(b@, p as int) == Some((v, q as int)),
            None => dx_u64(b@, p as int) is None,
        },
{
    if b.len() >= 8 && p <= b.len() - 8 {
        let s = slice_subrange(b.as_slice(), p, p + 8);
        let v = u64_from_le_bytes(s);
        Some((v, p + 8))
    } else {
        None
    }
}

fn get_usize(b: &Vec<u8>, p: usize) -> (r: Option<(usize, usize)>)
    ensures
        match r {
            Some((v, q)) => dx_usize(b@, p as int) == Some((v, q as int)),
            None => dx_usize(b@, p as int) is None,
        },
{
    match get_u64(b, p) {
        Some((v, q)) => if v <= usize::MAX as u64 {
            Some((v as usize, q))
        } else {
            None
        },
        None => None,
    }
}

fn get_u8(b: &Vec<u8>, p: usize) -> (r: Option<(u8, usize)>)
    ensures
        match r {
            Some((v, q)) => dx_u8(b@, p as int) == Some((v, q as int)),
            None => dx_u8(b@, p as int) is None,
        },
{
    if p < b.len() {
        Some((b[p], p + 1))
    } else {
        None
    }
}

fn get_bool(b: &Vec<u8>, p: usize) -> (r: Option<(bool, usize)>)
    ensures
        match r {
            Some((v, q)) => dx_bool(b@, p as int) == Some((v, q as int)),
            None => dx_bool(b@, p as int) is None,
        },
{
    match get_u8(b, p) {
        Some((v, q)) => if v == 0 {
            Some((false, q))
        } else if v == 1 {
            Some((true, q))
        } else {
            None
        },
        None => None,
    }
}

fn get_chars(b: &Vec<u8>, p: usize) -> (r: Option<(String, usize)>)
    ensures
        match r {
            Some((s, q)) => dx_chars(b@, p as int) == Some((s@, q as int)),
            None => dx_chars(b@, p as int) is None,
        },
{
    match get_u64(b, p) {
        Some((n, q)) => {
            if n > (b.len() - q) as u64 {
                return None;
            }
            let len = n as usize;
            let bytes = slice_to_vec(slice_subrange(b.as_slice(), q, q + len));
            match string_from_utf8(bytes) {
                Some(s) => {
                    proof {
                        encode_utf8_decode_utf8(s@);
                    }
                    Some((s, q + len))
                },
                None => None,
            }
        },
        None => None,
    }
}

fn get_log(b: &Vec<u8>, p: usize) -> (r: Option<(SensorLog, usize)>)
    ensures
        match r {
            Some((l, q)) => dx_log(b@, p as int) == Some((l@, q as int)),
            None => dx_log(b@, p as int) is None,
        },
{
    let (id, p) = match get_chars(b, p) {
        Some(x) => x,
        None => {
            return None;
        },
    };
    let (timestamp, p) = match get_usize(b, p) {
        Some(x) => x,
        None => {
            return None;
        },
    };
    let (s1_co2, p) = match get_chars(b, p) {
        Some(x) => x,
        None => {
            return None;
        },
    };
    let (s2_co2, p) = match get_chars(b, p) {
        Some(x) => x,
        None => {
            return None;
        },
    };
    let (avg_co2, p) = match get_chars(b, p) {
        Some(x) => x,
        None => {
            return None;
        },
    };
    let (humidity, p) = match get_chars(b, p) {
        Some(x) => x,
        None => {
            return None;
        },
    };
    let (temperature, p) = match get_chars(b, p) {
        Some(x) => x,
        None => {
            return None;
        },
    };
    let (ovf1, p) = match get_bool(b, p) {
        Some(x) => x,
        None => {
            return None;
        },
    };
    let (ovf2, p) = match get_bool(b, p) {
        Some(x) => x,
        None => {
            return None;
        },
    };
    Some(
        (
            SensorLog {
                id,
                timestamp,
                s1_co2,
                s2_co2,
                avg_co2,
                humidity,
                temperature,
                is_tank_one_overflowed: ovf1,
                is_tank_two_overflowed: ovf2,
            },
            p,
        ),
    )
}

fn get_logs(b: &Vec<u8>, p: usize, n: u64) -> (r: Option<(Vec<SensorLog>, usize)>)
    ensures
        match r {
            Some((v, q)) => dx_logs(b@, p as int, n as int) == Some(
                (v@.map_values(|l: SensorLog| l@), q as int),
            ),
            None => dx_logs(b@, p as int, n as int) is None,
        },
    decreases n,
{
    if n == 0 {
        let empty: Vec<SensorLog> = Vec::new();
        proof {
            assert(empty@.map_values(|l: SensorLog| l@) =~= Seq::<SensorLogV>::empty());
        }
        Some((empty, p))
    } else {
        match get_log(b, p) {
            Some((l, q)) => match get_logs(b, q, n - 1) {
                Some((mut rest, r2)) => {
                    let ghost prev_rest = rest@;
                    rest.insert(0, l);
                    proof {
                        assert(rest@ =~= seq![l] + prev_rest);
                        assert(rest@.map_values(|x: SensorLog| x@) =~= seq![l@]
                            + prev_rest.map_values(|x: SensorLog| x@));
                    }
                    Some((rest, r2))
                },
                None => None,
            },
            None => None,
        }
    }
}

fn get_kit(b: &Vec<u8>, p: usize) -> (r: Option<(SensorKitConfig, usize)>)
    ensures
        match r {
            Some((k, q)) => dx_kit(b@, p as int) == Some((k@, q as int)),
            None => dx_kit(b@, p as int) is None,
        },
{
    let (dht11_pin, p) = match get_u8(b, p) {
        Some(x) => x,
        None => {
            return None;
        },
    };
    let (tank_one_overflow, p) = match get_u8(b, p) {
        Some(x) => x,
        None => {
            return None;
        },
    };
    let (tank_two_overflow, p) = match get_u8(b, p) {
        Some(x) => x,
        None => {
            return None;
        },
    };
    let (analog_co2_pin, p) = match get_chars(b, p) {
        Some(x) => x,
        None => {
            return None;
        },
    };
    let (enable_dht11, p) = match get_bool(b, p) {
        Some(x) => x,
        None => {
            return None;
        },
    };
    let (enable_analog_co2, p) = match get_bool(b, p) {
        Some(x) => x,
        None => {
            return None;
        },
    };
    let (enable_ccs811, p) = match get_bool(b, p) {
        Some(x) => x,
        None => {
            return None;
        },
    };
    Some(
        (
            SensorKitConfig {
                dht11_pin,
                tank_one_overflow,
                tank_two_overflow,
                analog_co2_pin,
                enable_dht11,
                enable_analog_co2,
                enable_ccs811,
            },
            p,
        ),
    )
}

fn get_opt_kit(b: &Vec<u8>, p: usize) -> (r: Option<(Option<SensorKitConfig>, usize)>)
    ensures
        match r {
            Some((k, q)) => dx_opt_kit(b@, p as int) == Some(
                (
                    match k {
                        Some(kk) => Some(kk@),
                        None => None,
                    },
                    q as int,
                ),
            ),
            None => dx_opt_kit(b@, p as int) is None,
        },
{
    match get_u8(b, p) {
        Some((tag, q)) => {
            if tag == 0 {
                Some((None, q))
            } else if tag == 1 {
                match get_kit(b, q) {
                    Some((k, q2)) => Some((Some(k), q2)),
                    None => None,
                }
            } else {
                None
            }
        },
        None => None,
    }
}

/// Parses a configuration file; returns the configuration it holds, or
/// nothing for bytes that no saved configuration produces.
pub fn decode_config(b: &Vec<u8>) -> (r: Option<Config>)
    ensures
        match r {
            Some(c) => deser_config(b@) == Some(c@),
            None => deser_config(b@) is None,
        },
{
    let (id, p) = match get_chars(b, 0) {
        Some(x) => x,
        None => {
            return None;
        },
    };
    let (encrypted_password, p) = match get_chars(b, p) {
        Some(x) => x,
        None => {
            return None;
        },
    };
    let (version_installed, p) = match get_chars(b, p) {
        Some(x) => x,
        None => {
            return None;
        },
    };
    let (boot_time, p) = match get_u64(b, p) {
        Some(x) => x,
        None => {
            return None;
        },
    };
    let (enable_automatic_updates, p) = match get_bool(b, p) {
        Some(x) => x,
        None => {
            return None;
        },
    };
    let (is_hvac_kit_installed, p) = match get_bool(b, p) {
        Some(x) => x,
        None => {
            return None;
        },
    };
    let (is_sensor_kit_installed, p) = match get_bool(b, p) {
        Some(x) => x,
        None => {
            return None;
        },
    };
    let (photo_cycle_start, p) = match get_u8(b, p) {
        Some(x) => x,
        None => {
            return None;
        },
    };
    let (photo_cycle_end, p) = match get_u8(b, p) {
        Some(x) => x,
        None => {
            return None;
        },
    };
    let (power_type, p) = match get_chars(b, p) {
        Some(x) => x,
        None => {
            return None;
        },
    };
    let (tank_one_to_two_pump_pin, p) = match get_usize(b, p) {
        Some(x) => x,
        None => {
            return None;
        },
    };
    let (uv_light_pin, p) = match get_usize(b, p) {
        Some(x) => x,
        None => {
            return None;
        },
    };
    let (air_circulation_pin, p) = match get_usize(b, p) {
        Some(x) => x,
        None => {
            return None;
        },
    };
    let (sensor_kit_config, p) = match get_opt_kit(b, p) {
        Some(x) => x,
        None => {
            return None;
        },
    };
    let (log_count, p) = match get_u64(b, p) {
        Some(x) => x,
        None => {
            return None;
        },
    };
    let (sensor_logs, p) = match get_logs(b, p, log_count) {
        Some(x) => x,
        None => {
            return None;
        },
    };
    if p != b.len() {
        return None;
    }
    Some(
        Config {
            id,
            encrypted_password,
            version_installed,
            boot_time,
            enable_automatic_updates,
            is_hvac_kit_installed,
            is_sensor_kit_installed,
            photo_cycle_start,
            photo_cycle_end,
            power_type,
            tank_one_to_two_pump_pin,
            uv_light_pin,
            air_circulation_pin,
            sensor_kit_config,
            sensor_logs,
        },
    )
}

/// Parses a session-table file; returns the sessions it holds, or
/// nothing for bytes that no saved table produces.
pub fn decode_sessions(b: &Vec<u8>) -> (r: Option<Sessions>)
    ensures
        match r {
            Some(t) => deser_sessions(b@) == Some(t@),
            None => deser_sessions(b@) is None,
        },
{
    let (count, p0) = match get_u64(b, 0) {
        Some(x) => x,
        None => {
            return None;
        },
    };
    let mut sessions: Vec<Session> = Vec::new();
    let mut p = p0;
    let mut i: u64 = 0;
    proof {
        assert(sessions@.map_values(|s: Session| s@) =~= Seq::<SessionV>::empty());
    }
    while i < count
        invariant
            i <= count,
            p <= b@.len(),
            dx_u64(b@, 0) == Some((count, p0 as int)),
            match dx_sessions_rec(b@, p as int, (count - i) as int) {
                Some((rest, q)) => dx_sessions_rec(b@, p0 as int, count as int) == Some(
                    (sessions@.map_values(|s: Session| s@) + rest, q),
                ),
                None => dx_sessions_rec(b@, p0 as int, count as int) is None,
            },
        decreases count - i,
    {
        let (id, p1) = match get_chars(b, p) {
            Some(x) => x,
            None => {
                return None;
            },
        };
        let (delta, p2) = match get_u8(b, p1) {
            Some(x) => x,
            None => {
                return None;
            },
        };
        let ghost prev = sessions@;
        sessions.push(Session { id, delta });
        proof {
            let s = Session { id, delta };
            assert(sessions@.map_values(|x: Session| x@) =~= prev.map_values(|x: Session| x@)
                + seq![s@]);
            assert(dx_session(b@, p as int) == Some((s@, p2 as int)));
            let inner = dx_sessions_rec(b@, p2 as int, (count - i - 1) as int);
            match inner {
                Some((rest2, q2)) => {
                    assert(prev.map_values(|x: Session| x@) + (seq![s@] + rest2)
                        =~= sessions@.map_values(|x: Session| x@) + rest2);
                },
                None => {
                },
            }
        }
        p = p2;
        i = i + 1;
    }
    proof {
        assert(sessions@.map_values(|s: Session| s@) + Seq::<SessionV>::empty()
            =~= sessions@.map_values(|s: Session| s@));
    }
    if p != b.len() {
        return None;
    }
    Some(Sessions { sessions })
}

// ---------------------------------------------------------------------
// The store's remaining decisions.
// ---------------------------------------------------------------------
/// One jittered backoff before retrying a contended store read: a
/// uniformly random delay in milliseconds, bounded by one unsigned byte.
pub fn retry_delay_millis() -> (d: u64)
    ensures
        d <= 255,
{
    host::random_byte() as u64
}

/// Whether the loaded configuration was installed by a different build
/// than the one running, so the upgrade procedure is due.
pub fn needs_upgrade(c: &Config) -> (b: bool)
    ensures
        b == (c.version_installed@ != spec_version_tag()),
{
    !str_eq(c.version_installed.as_str(), version_tag())
}

/// Round-trip fidelity of the session-table store.
pub proof fn lemma_sessions_round_trip(ss: Seq<SessionV>)
    requires
        wf_sessions_v(ss),
    ensures
        deser_sessions(ser_sessions(ss)) == Some(ss),
{
    let b = ser_sessions(ss);
    assert(b.subrange(0, b.len() as int) =~= b);
    lemma_ser_u64_len(ss.len() as u64);
    lemma_subrange_concat(b, 0, ser_u64(ss.len() as u64), ser_sessions_rec(ss));
    lemma_dx_u64(b, 0, ss.len() as u64);
    lemma_dx_sessions_rec(b, 8, ss);
}

} // verus!

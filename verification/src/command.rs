//! The command dispatch engine: parses one line of operator input and
//! routes it to GPIO actuation, a sensor query, pump control, display
//! control, or video control. Malformed input yields a typed error and no
//! device action; the engine never panics.

use vstd::prelude::*;
use crate::sensors::get_value;
use crate::sensors::metric_of_name;
use crate::sensors::spec_get_value;
use crate::sensors::spec_metric_of_name;
use crate::state::Config;
use crate::text::all_digits;
use crate::text::digits_val;
use crate::text::parse_usize;
use crate::text::str_eq;
use crate::text::tokenize;
use crate::text::tokens_of;

verus! {

/// The structured result of a successful dispatch: the device action the
/// owning collaborator must now perform, or the value read.
#[derive(Clone, Debug)]
pub enum Status {
    Gpio { pin: usize, level: bool },
    Value { value: String },
    Pump { pin: usize, on: bool },
    Display { on: bool },
    Video { on: bool },
}

/// Mathematical image of a `Status`.
pub enum StatusV {
    Gpio { pin: usize, level: bool },
    Value { value: Seq<char> },
    Pump { pin: usize, on: bool },
    Display { on: bool },
    Video { on: bool },
}

impl View for Status {
    type V = StatusV;

    open spec fn view(&self) -> StatusV {
        match self {
            Status::Gpio { pin, level } => StatusV::Gpio { pin: *pin, level: *level },
            Status::Value { value } => StatusV::Value { value: value@ },
            Status::Pump { pin, on } => StatusV::Pump { pin: *pin, on: *on },
            Status::Display { on } => StatusV::Display { on: *on },
            Status::Video { on } => StatusV::Video { on: *on },
        }
    }
}

/// Why a command line was rejected.
#[derive(Clone, Copy, Debug, PartialEq, Eq, Structural)]
pub enum CommandError {
    Empty,
    UnknownVerb,
    MissingArgument,
    ExtraArgument,
    BadArgument,
}

/// The two level words an actuation argument may use.
pub open spec fn spec_level_of(tok: Seq<char>) -> Option<bool> {
    if tok == "on"@ {
        Some(true)
    } else if tok == "off"@ {
        Some(false)
    } else {
        None
    }
}

fn level_of(tok: &str) -> (r: Option<bool>)
    ensures
        r == spec_level_of(tok@),
{
    if str_eq(tok, "on") {
        Some(true)
    } else if str_eq(tok, "off") {
        Some(false)
    } else {
        None
    }
}

/// What `run` returns, for every command line, raw telemetry line and
/// configured pump pin.
pub open spec fn run_spec(cmd: Seq<char>, raw: Seq<char>, pump_pin: usize) -> Result<
    StatusV,
    CommandError,
> {
    let ts = tokens_of(cmd);
    if ts.len() == 0 {
        Err(CommandError::Empty)
    } else if ts[0] == "gpio"@ {
        if ts.len() < 3 {
            Err(CommandError::MissingArgument)
        } else if ts.len() > 3 {
            Err(CommandError::ExtraArgument)
        } else {
            match spec_level_of(ts[1]) {
                Some(level) => if all_digits(ts[2]) && digits_val(ts[2]) <= usize::MAX {
                    Ok(StatusV::Gpio { pin: digits_val(ts[2]) as usize, level })
                } else {
                    Err(CommandError::BadArgument)
                },
                None => Err(CommandError::BadArgument),
            }
        }
    } else if ts[0] == "pump"@ {
        if ts.len() < 2 {
            Err(CommandError::MissingArgument)
        } else if ts.len() > 2 {
            Err(CommandError::ExtraArgument)
        } else {
            match spec_level_of(ts[1]) {
                Some(on) => Ok(StatusV::Pump { pin: pump_pin, on }),
                None => Err(CommandError::BadArgument),
            }
        }
    } else if ts[0] == "lcd"@ {
        if ts.len() < 2 {
            Err(CommandError::MissingArgument)
        } else if ts.len() > 2 {
            Err(CommandError::ExtraArgument)
        } else {
            match spec_level_of(ts[1]) {
                Some(on) => Ok(StatusV::Display { on }),
                None => Err(CommandError::BadArgument),
            }
        }
    } else if ts[0] == "video"@ {
        if ts.len() < 2 {
            Err(CommandError::MissingArgument)
        } else if ts.len() > 2 {
            Err(CommandError::ExtraArgument)
        } else {
            match spec_level_of(ts[1]) {
                Some(on) => Ok(StatusV::Video { on }),
                None => Err(CommandError::BadArgument),
            }
        }
    } else if spec_metric_of_name(ts[0]) is Some {
        if ts.len() > 1 {
            Err(CommandError::ExtraArgument)
        } else {
            Ok(StatusV::Value { value: spec_get_value(raw, ts[0]) })
        }
    } else {
        Err(CommandError::UnknownVerb)
    }
}

/// The command grammar, stated on its own: a well-formed line is a GPIO
/// actuation with a level word and a pin number that fits the machine
/// word, a pump, lcd or video switch with a level word, or a lone known
/// metric name.
pub open spec fn spec_valid_command(cmd: Seq<char>) -> bool {
    let ts = tokens_of(cmd);
    ||| (ts.len() == 3 && ts[0] == "gpio"@ && spec_level_of(ts[1]) is Some && all_digits(ts[2])
        && digits_val(ts[2]) <= usize::MAX)
    ||| (ts.len() == 2 && ts[0] == "pump"@ && spec_level_of(ts[1]) is Some)
    ||| (ts.len() == 2 && ts[0] == "lcd"@ && spec_level_of(ts[1]) is Some)
    ||| (ts.len() == 2 && ts[0] == "video"@ && spec_level_of(ts[1]) is Some)
    ||| (ts.len() == 1 && spec_metric_of_name(ts[0]) is Some)
}

/// A command line outside the grammar is dispatched to an error — and so
/// to no GPIO, pump, display or video action — and every line inside it
/// succeeds; for every raw line and pump pin.
pub proof fn lemma_malformed_command_rejected(cmd: Seq<char>, raw: Seq<char>, pump_pin: usize)
    ensures
        spec_valid_command(cmd) <==> run_spec(cmd, raw, pump_pin) is Ok,
{
    reveal_strlit("gpio");
    reveal_strlit("pump");
    reveal_strlit("lcd");
    reveal_strlit("video");
    reveal_strlit("pm25");
    reveal_strlit("pm_10");
    reveal_strlit("co2");
    reveal_strlit("tvoc");
    reveal_strlit("hum");
    reveal_strlit("temp");
    reveal_strlit("ph");
    reveal_strlit("t1_ovf");
    reveal_strlit("t2_ovf");
    assert("gpio"@.len() == 4 && "pump"@.len() == 4 && "lcd"@.len() == 3 && "video"@.len() == 5);
    assert("pm25"@.len() == 4 && "pm_10"@.len() == 5 && "co2"@.len() == 3 && "tvoc"@.len() == 4);
    assert("hum"@.len() == 3 && "temp"@.len() == 4 && "ph"@.len() == 2 && "t1_ovf"@.len() == 6);
    assert("t2_ovf"@.len() == 6);
    assert("gpio"@[0] == 'g' && "pump"@[0] == 'p' && "lcd"@[0] == 'l' && "video"@[0] == 'v');
    assert("pm25"@[0] == 'p' && "pm25"@[1] == 'm' && "pump"@[1] == 'u' && "pm_10"@[0] == 'p');
    assert("co2"@[0] == 'c' && "tvoc"@[0] == 't' && "hum"@[0] == 'h' && "temp"@[0] == 't');
    let ts = tokens_of(cmd);
    if ts.len() == 3 && ts[0] == "gpio"@ && spec_level_of(ts[1]) is Some && all_digits(ts[2])
        && digits_val(ts[2]) <= usize::MAX {
        assert(run_spec(cmd, raw, pump_pin) is Ok);
    } else if ts.len() == 2 && ts[0] == "pump"@ && spec_level_of(ts[1]) is Some {
        assert(run_spec(cmd, raw, pump_pin) is Ok);
    } else if ts.len() == 2 && ts[0] == "lcd"@ && spec_level_of(ts[1]) is Some {
        assert(run_spec(cmd, raw, pump_pin) is Ok);
    } else if ts.len() == 2 && ts[0] == "video"@ && spec_level_of(ts[1]) is Some {
        assert(run_spec(cmd, raw, pump_pin) is Ok);
    } else if ts.len() == 1 && spec_metric_of_name(ts[0]) is Some {
        assert(ts[0] != "gpio"@ && ts[0] != "pump"@ && ts[0] != "lcd"@ && ts[0] != "video"@);
        assert(run_spec(cmd, raw, pump_pin) is Ok);
    } else {
        assert(!spec_valid_command(cmd));
        assert(run_spec(cmd, raw, pump_pin) is Err);
    }
}

/// Dispatches one operator command line. `raw` is the latest cached
/// telemetry line, consulted by sensor query verbs; `config` supplies the
/// pump pin. Returns the structured result, or the parse error for input
/// outside the grammar.
pub fn run(cmd: &str, raw: &str, config: &Config) -> (r: Result<Status, CommandError>)
    ensures
        match r {
            Ok(s) => run_spec(cmd@, raw@, config.tank_one_to_two_pump_pin) == Ok::<
                StatusV,
                CommandError,
            >(s@),
            Err(e) => run_spec(cmd@, raw@, config.tank_one_to_two_pump_pin) == Err::<
                StatusV,
                CommandError,
            >(e),
        },
{
    let ghost ts = tokens_of(cmd@);
    let tokens = tokenize(cmd);
    if tokens.len() == 0 {
        return Err(CommandError::Empty);
    }
    proof {
        assert(ts[0] == tokens@[0]@);
    }
    let verb = tokens[0].as_str();
    if str_eq(verb, "gpio") {
        if tokens.len() < 3 {
            return Err(CommandError::MissingArgument);
        }
        if tokens.len() > 3 {
            return Err(CommandError::ExtraArgument);
        }
        proof {
            assert(ts[1] == tokens@[1]@);
            assert(ts[2] == tokens@[2]@);
        }
        match level_of(tokens[1].as_str()) {
            Some(level) => match parse_usize(tokens[2].as_str()) {
                Some(pin) => Ok(Status::Gpio { pin, level }),
                None => Err(CommandError::BadArgument),
            },
            None => Err(CommandError::BadArgument),
        }
    } else if str_eq(verb, "pump") {
        if tokens.len() < 2 {
            return Err(CommandError::MissingArgument);
        }
        if tokens.len() > 2 {
            return Err(CommandError::ExtraArgument);
        }
        proof {
            assert(ts[1] == tokens@[1]@);
        }
        match level_of(tokens[1].as_str()) {
            Some(on) => Ok(Status::Pump { pin: config.tank_one_to_two_pump_pin, on }),
            None => Err(CommandError::BadArgument),
        }
    } else if str_eq(verb, "lcd") {
        if tokens.len() < 2 {
            return Err(CommandError::MissingArgument);
        }
        if tokens.len() > 2 {
            return Err(CommandError::ExtraArgument);
        }
        proof {
            assert(ts[1] == tokens@[1]@);
        }
        match level_of(tokens[1].as_str()) {
            Some(on) => Ok(Status::Display { on }),
            None => Err(CommandError::BadArgument),
        }
    } else if str_eq(verb, "video") {
        if tokens.len() < 2 {
            return Err(CommandError::MissingArgument);
        }
        if tokens.len() > 2 {
            return Err(CommandError::ExtraArgument);
        }
        proof {
            assert(ts[1] == tokens@[1]@);
        }
        match level_of(tokens[1].as_str()) {
            Some(on) => Ok(Status::Video { on }),
            None => Err(CommandError::BadArgument),
        }
    } else {
        match metric_of_name(verb) {
            Some(_) => {
                if tokens.len() > 1 {
                    return Err(CommandError::ExtraArgument);
                }
                Ok(Status::Value { value: get_value(raw, verb) })
            },
            None => Err(CommandError::UnknownVerb),
        }
    }
}

} // verus!

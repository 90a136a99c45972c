//! The operational state of a printer.

use vstd::prelude::*;
use crate::text::str_eq;

verus! {

/// The operational state of a printer.
///
/// These values map to the IPP `printer-state` attribute, which CPDB
/// backends pass through as string literals on D-Bus.
#[derive(Debug, Clone, PartialEq, Eq, Hash)]
pub enum PrinterState {
    /// The printer is ready and not currently processing a job.
    Idle,
    /// The printer is actively processing a job.
    Processing,
    /// The printer queue has been stopped.
    Stopped,
    /// A state string the library does not recognize, kept as reported.
    Unknown(String),
}

/// The mathematical value of a [`PrinterState`]: the unknown state keeps
/// the characters of its string.
pub enum StateValue {
    /// Ready and not processing.
    Idle,
    /// Processing a job.
    Processing,
    /// Queue stopped.
    Stopped,
    /// Any other state string.
    Unknown(Seq<char>),
}

/// The state that a reported state string denotes.
pub open spec fn state_of_name(s: Seq<char>) -> StateValue {
    if s == "idle"@ {
        StateValue::Idle
    } else if s == "processing"@ {
        StateValue::Processing
    } else if s == "stopped"@ {
        StateValue::Stopped
    } else {
        StateValue::Unknown(s)
    }
}

/// The string by which a state is reported.
pub open spec fn name_of_state(v: StateValue) -> Seq<char> {
    match v {
        StateValue::Idle => "idle"@,
        StateValue::Processing => "processing"@,
        StateValue::Stopped => "stopped"@,
        StateValue::Unknown(s) => s,
    }
}

impl View for PrinterState {
    type V = StateValue;

    open spec fn view(&self) -> StateValue {
        match self {
            PrinterState::Idle => StateValue::Idle,
            PrinterState::Processing => StateValue::Processing,
            PrinterState::Stopped => StateValue::Stopped,
            PrinterState::Unknown(s) => StateValue::Unknown(s@),
        }
    }
}

impl PrinterState {
    /// Returns the string representation of the state.
    pub fn as_str(&self) -> (r: &str)
        ensures
            r@ == name_of_state(self@),
    {
        match self {
            PrinterState::Idle => "idle",
            PrinterState::Processing => "processing",
            PrinterState::Stopped => "stopped",
            PrinterState::Unknown(s) => s.as_str(),
        }
    }

    /// Parses a reported state string; unrecognized strings are kept.
    pub fn from_name(s: &str) -> (r: PrinterState)
        ensures
            r@ == state_of_name(s@),
    {
        if str_eq(s, "idle") {
            PrinterState::Idle
        } else if str_eq(s, "processing") {
            PrinterState::Processing
        } else if str_eq(s, "stopped") {
            PrinterState::Stopped
        } else {
            PrinterState::Unknown(String::from_str(s))
        }
    }

    /// Parses an owned state string; an unrecognized string is kept as is.
    pub fn from_owned_name(s: String) -> (r: PrinterState)
        ensures
            r == PrinterState::spec_from_owned_name(s),
    {
        if str_eq(s.as_str(), "idle") {
            PrinterState::Idle
        } else if str_eq(s.as_str(), "processing") {
            PrinterState::Processing
        } else if str_eq(s.as_str(), "stopped") {
            PrinterState::Stopped
        } else {
            PrinterState::Unknown(s)
        }
    }

    /// The state parsed from an owned string.
    pub open spec fn spec_from_owned_name(s: String) -> PrinterState {
        if s@ == "idle"@ {
            PrinterState::Idle
        } else if s@ == "processing"@ {
            PrinterState::Processing
        } else if s@ == "stopped"@ {
            PrinterState::Stopped
        } else {
            PrinterState::Unknown(s)
        }
    }

    /// Whether this is the idle state.
    pub fn is_idle(&self) -> (r: bool)
        ensures
            r == (self@ == StateValue::Idle),
    {
        match self {
            PrinterState::Idle => true,
            _ => false,
        }
    }
}

impl From<String> for PrinterState {
    fn from(s: String) -> (r: PrinterState) {
        PrinterState::from_owned_name(s)
    }
}

impl vstd::std_specs::convert::FromSpecImpl<String> for PrinterState {
    open spec fn obeys_from_spec() -> bool {
        true
    }

    open spec fn from_spec(v: String) -> PrinterState {
        PrinterState::spec_from_owned_name(v)
    }
}

impl<'a> From<&'a str> for PrinterState {
    /// Parses a reported state string; an unrecognized string is kept.
    fn from(s: &'a str) -> (r: PrinterState)
        ensures
            r@ == state_of_name(s@),
    {
        PrinterState::from_name(s)
    }
}

impl<'a> vstd::std_specs::convert::FromSpecImpl<&'a str> for PrinterState {
    /// An unrecognized string gives a state that holds a new `String`, of
    /// which only the characters are known; so `from_spec` does not pin
    /// the value down, and the `ensures` of `from` above states it by its
    /// view instead.
    open spec fn obeys_from_spec() -> bool {
        false
    }

    open spec fn from_spec(v: &'a str) -> PrinterState {
        choose|r: PrinterState| r@ == state_of_name(v@)
    }
}

/// Parsing an owned state string and parsing a borrowed one give the same
/// state.
pub proof fn law_owned_and_borrowed_parse_agree(s: String)
    ensures
        PrinterState::spec_from_owned_name(s)@ == state_of_name(s@),
{
}

/// Parsing a reported state string and printing the state back gives the
/// same string, whatever the string.
pub proof fn law_state_name_round_trip(s: Seq<char>)
    ensures
        name_of_state(state_of_name(s)) == s,
{
}

/// Printing a state and parsing the string back gives the same state,
/// unless the state is an unknown one that carries the name of a known one.
pub proof fn law_state_value_round_trip(v: StateValue)
    requires
        !(v matches StateValue::Unknown(s) && (s == "idle"@ || s == "processing"@ || s == "stopped"@)),
    ensures
        state_of_name(name_of_state(v)) == v,
{
    reveal_strlit("idle");
    reveal_strlit("processing");
    reveal_strlit("stopped");
    assert("idle"@.len() == 4);
    assert("processing"@.len() == 10);
    assert("stopped"@.len() == 7);
    assert("idle"@ != "processing"@);
    assert("idle"@ != "stopped"@);
    assert("processing"@ != "stopped"@);
    match v {
        StateValue::Idle => {},
        StateValue::Processing => {
            assert(name_of_state(v) != "idle"@);
        },
        StateValue::Stopped => {
            assert(name_of_state(v) != "idle"@);
            assert(name_of_state(v) != "processing"@);
        },
        StateValue::Unknown(s) => {},
    }
}

} // verus!

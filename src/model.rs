//! The typed domain model of the API's payloads.
use vstd::prelude::*;

use crate::model::game::Clock;

pub mod bot_event;
pub mod challenge;
pub mod game;
pub mod request;
pub mod user;

verus! {

/// A chess move in UCI notation.
pub type Move = String;

/// A space-separated list of chess moves in UCI notation.
pub type Moves = String;

pub type Url = String;

pub type Milliseconds = i64;

pub type Seconds = i32;

pub type Days = i32;

pub type Timestamp = i64;

#[derive(Clone, Copy, Debug, PartialEq, Eq, Hash)]
pub struct Compat {
    pub bot: Option<bool>,
    pub board: Option<bool>,
}

#[derive(Clone, Copy, Debug, PartialEq, Eq, Hash)]
pub enum TimeControl {
    Clock(Clock),
    Correspondence { days_per_turn: Option<Days> },
    Unlimited,
}

/// A JSON value of the API whose shape the model leaves open.
#[verifier::external_type_specification]
#[verifier::external_body]
pub struct ExJsonValue(serde_json::Value);

/// Relies on `serde_json::Value`'s `Clone`; nothing is claimed of the copy.
pub assume_specification[ <serde_json::Value as Clone>::clone ](v: &serde_json::Value) -> serde_json::Value;

/// Any JSON value, carried through as it came.
#[derive(Clone, Debug, PartialEq, Eq)]
pub struct Any(pub serde_json::Value);

/// Decodes the integer form in which the preferences send a flag: `0` is
/// `false`, `1` is `true`, and any other value is refused.
pub fn bool_from_integer(value: i64) -> (r: Option<bool>)
    ensures
        r == (if value == 0 {
            Some(false)
        } else if value == 1 {
            Some(true)
        } else {
            None::<bool>
        }),
{
    if value == 0 {
        Some(false)
    } else if value == 1 {
        Some(true)
    } else {
        None
    }
}

} // verus!

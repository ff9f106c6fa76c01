//! Games: their status, variant, clock and immutable metadata.
use vstd::prelude::*;

use crate::model::game::event::GameEventPlayer;
use crate::model::{Seconds, Timestamp};
use crate::text::same_text;

pub mod chat;
pub mod event;

verus! {

pub type GameId = String;

pub type TournamentId = String;

/// A position in Forsyth-Edwards notation.
pub type Fen = String;

#[derive(Clone, Copy, Debug, PartialEq, Eq, Hash, Structural)]
pub enum GameStatus {
    Created,
    Started,
    Aborted,
    Mate,
    Resign,
    Stalemate,
    Timeout,
    Draw,
    OutOfTime,
    Cheat,
    NoStart,
    UnknownFinish,
    VariantEnd,
}

impl GameStatus {
    /// Whether moves can still be played in a game with this status.
    pub open spec fn spec_is_running(self) -> bool {
        self is Created || self is Started
    }

    /// Indicates whether a game with this status is running, i.e. no decision
    /// has been reached and moves can still be played.
    pub fn is_running(self) -> (r: bool)
        ensures
            r == self.spec_is_running(),
    {
        match self {
            GameStatus::Created | GameStatus::Started => true,
            _ => false,
        }
    }
}

/// The status that the API's numeric status id stands for.
pub open spec fn status_of_id(id: i64) -> Option<GameStatus> {
    if id == 10 {
        Some(GameStatus::Created)
    } else if id == 20 {
        Some(GameStatus::Started)
    } else if id == 25 {
        Some(GameStatus::Aborted)
    } else if id == 30 {
        Some(GameStatus::Mate)
    } else if id == 31 {
        Some(GameStatus::Resign)
    } else if id == 32 {
        Some(GameStatus::Stalemate)
    } else if id == 33 {
        Some(GameStatus::Timeout)
    } else if id == 34 {
        Some(GameStatus::Draw)
    } else if id == 35 {
        Some(GameStatus::OutOfTime)
    } else if id == 36 {
        Some(GameStatus::Cheat)
    } else if id == 37 {
        Some(GameStatus::NoStart)
    } else if id == 38 {
        Some(GameStatus::UnknownFinish)
    } else if id == 60 {
        Some(GameStatus::VariantEnd)
    } else {
        None
    }
}

/// The status that the API's status name stands for.
pub open spec fn status_of_name(name: Seq<char>) -> Option<GameStatus> {
    if name == "created"@ {
        Some(GameStatus::Created)
    } else if name == "started"@ {
        Some(GameStatus::Started)
    } else if name == "aborted"@ {
        Some(GameStatus::Aborted)
    } else if name == "mate"@ {
        Some(GameStatus::Mate)
    } else if name == "resign"@ {
        Some(GameStatus::Resign)
    } else if name == "stalemate"@ {
        Some(GameStatus::Stalemate)
    } else if name == "timeout"@ {
        Some(GameStatus::Timeout)
    } else if name == "draw"@ {
        Some(GameStatus::Draw)
    } else if name == "outoftime"@ {
        Some(GameStatus::OutOfTime)
    } else if name == "cheat"@ {
        Some(GameStatus::Cheat)
    } else if name == "noStart"@ {
        Some(GameStatus::NoStart)
    } else if name == "unknownFinish"@ {
        Some(GameStatus::UnknownFinish)
    } else if name == "variantEnd"@ {
        Some(GameStatus::VariantEnd)
    } else {
        None
    }
}

/// Why a status object could not be decoded.
#[derive(Clone, Debug, PartialEq, Eq)]
pub enum GameStatusError {
    UnknownId(i64),
    UnknownName(String),
    IdNameMismatch(i64, String),
}

/// Looks up a numeric status id.
pub fn game_status_from_id(id: i64) -> (r: Result<GameStatus, GameStatusError>)
    ensures
        match status_of_id(id) {
            Some(s) => r == Ok::<GameStatus, GameStatusError>(s),
            None => r == Err::<GameStatus, GameStatusError>(GameStatusError::UnknownId(id)),
        },
{
    match id {
        10 => Ok(GameStatus::Created),
        20 => Ok(GameStatus::Started),
        25 => Ok(GameStatus::Aborted),
        30 => Ok(GameStatus::Mate),
        31 => Ok(GameStatus::Resign),
        32 => Ok(GameStatus::Stalemate),
        33 => Ok(GameStatus::Timeout),
        34 => Ok(GameStatus::Draw),
        35 => Ok(GameStatus::OutOfTime),
        36 => Ok(GameStatus::Cheat),
        37 => Ok(GameStatus::NoStart),
        38 => Ok(GameStatus::UnknownFinish),
        60 => Ok(GameStatus::VariantEnd),
        _ => Err(GameStatusError::UnknownId(id)),
    }
}

/// Looks up a status name.
pub fn game_status_from_name(name: &str) -> (r: Result<GameStatus, GameStatusError>)
    ensures
        match status_of_name(name@) {
            Some(s) => r == Ok::<GameStatus, GameStatusError>(s),
            None => r matches Err(GameStatusError::UnknownName(n)) && n@ == name@,
        },
{
    if same_text(name, "created") {
        Ok(GameStatus::Created)
    } else if same_text(name, "started") {
        Ok(GameStatus::Started)
    } else if same_text(name, "aborted") {
        Ok(GameStatus::Aborted)
    } else if same_text(name, "mate") {
        Ok(GameStatus::Mate)
    } else if same_text(name, "resign") {
        Ok(GameStatus::Resign)
    } else if same_text(name, "stalemate") {
        Ok(GameStatus::Stalemate)
    } else if same_text(name, "timeout") {
        Ok(GameStatus::Timeout)
    } else if same_text(name, "draw") {
        Ok(GameStatus::Draw)
    } else if same_text(name, "outoftime") {
        Ok(GameStatus::OutOfTime)
    } else if same_text(name, "cheat") {
        Ok(GameStatus::Cheat)
    } else if same_text(name, "noStart") {
        Ok(GameStatus::NoStart)
    } else if same_text(name, "unknownFinish") {
        Ok(GameStatus::UnknownFinish)
    } else if same_text(name, "variantEnd") {
        Ok(GameStatus::VariantEnd)
    } else {
        Err(GameStatusError::UnknownName(name.to_owned()))
    }
}

/// What a status object `{id, name}` decodes to, either part possibly absent:
/// an unknown id fails first, then an unknown name, then an id and a name that
/// stand for different statuses; otherwise the status that the present parts
/// agree on, or none when both are absent.
pub open spec fn decodes_status_to(
    id: Option<i64>,
    name: Option<Seq<char>>,
    r: Result<Option<GameStatus>, GameStatusError>,
) -> bool {
    if id is Some && status_of_id(id->0) is None {
        r == Err::<Option<GameStatus>, GameStatusError>(GameStatusError::UnknownId(id->0))
    } else if name is Some && status_of_name(name->0) is None {
        r matches Err(GameStatusError::UnknownName(n)) && n@ == name->0
    } else if id is Some && name is Some && status_of_id(id->0) != status_of_name(name->0) {
        r matches Err(GameStatusError::IdNameMismatch(i, n)) && i == id->0 && n@ == name->0
    } else if id is Some {
        r == Ok::<Option<GameStatus>, GameStatusError>(status_of_id(id->0))
    } else if name is Some {
        r == Ok::<Option<GameStatus>, GameStatusError>(status_of_name(name->0))
    } else {
        r == Ok::<Option<GameStatus>, GameStatusError>(None)
    }
}

/// Reconciles the two halves of a status object: each present half is looked
/// up in its own table, and when both are present they must agree.
pub fn decode_game_status(id: Option<i64>, name: Option<&str>) -> (r: Result<
    Option<GameStatus>,
    GameStatusError,
>)
    ensures
        decodes_status_to(id, match name {
            Some(n) => Some(n@),
            None => None,
        }, r),
{
    let from_id = match id {
        Some(i) => match game_status_from_id(i) {
            Ok(s) => Some(s),
            Err(e) => {
                return Err(e);
            },
        },
        None => None,
    };
    let from_name = match name {
        Some(n) => match game_status_from_name(n) {
            Ok(s) => Some(s),
            Err(e) => {
                return Err(e);
            },
        },
        None => None,
    };
    match (from_id, from_name, id, name) {
        (Some(a), Some(b), Some(i), Some(n)) => {
            if a != b {
                Err(GameStatusError::IdNameMismatch(i, n.to_owned()))
            } else {
                Ok(Some(a))
            }
        },
        (Some(a), _, _, _) => Ok(Some(a)),
        (None, b, _, _) => Ok(b),
    }
}

#[derive(Clone, Debug, PartialEq, Eq, Hash)]
pub struct GamePerf {
    /// Localized perf name (e.g. "Classical" or "Blitz").
    pub name: Option<String>,
}

/// The immutable metadata of a game.
#[derive(Clone, Debug, PartialEq, Eq, Hash)]
pub struct GameInfo {
    pub id: GameId,
    pub variant: Option<Variant>,
    pub clock: Option<Clock>,
    pub speed: Speed,
    pub perf: GamePerf,
    pub rated: bool,
    pub created_at: Timestamp,
    pub white: GameEventPlayer,
    pub black: GameEventPlayer,
    pub initial_fen: Fen,
    pub tournament_id: Option<TournamentId>,
}

#[derive(Clone, Copy, Debug, PartialEq, Eq, Hash, Structural)]
pub enum Color {
    White,
    Black,
}

#[derive(Clone, Copy, Debug, PartialEq, Eq, Hash, Structural)]
pub enum Variant {
    Standard,
    Chess960,
    Crazyhouse,
    Antichess,
    Atomic,
    Horde,
    KingOfTheHill,
    RacingKings,
    ThreeCheck,
    FromPosition,
}

/// The variant that the API's variant key stands for.
pub open spec fn variant_of_key(key: Seq<char>) -> Option<Variant> {
    if key == "standard"@ {
        Some(Variant::Standard)
    } else if key == "chess960"@ {
        Some(Variant::Chess960)
    } else if key == "crazyhouse"@ {
        Some(Variant::Crazyhouse)
    } else if key == "antichess"@ {
        Some(Variant::Antichess)
    } else if key == "atomic"@ {
        Some(Variant::Atomic)
    } else if key == "horde"@ {
        Some(Variant::Horde)
    } else if key == "kingOfTheHill"@ {
        Some(Variant::KingOfTheHill)
    } else if key == "racingKings"@ {
        Some(Variant::RacingKings)
    } else if key == "threeCheck"@ {
        Some(Variant::ThreeCheck)
    } else if key == "fromPosition"@ {
        Some(Variant::FromPosition)
    } else {
        None
    }
}

/// A variant object whose key names no variant.
#[derive(Clone, Debug, PartialEq, Eq)]
pub struct UnknownVariant {
    pub key: String,
}

/// Decodes a variant object from its `key` field. An object without a key
/// stands for no particular variant and decodes to `None`; a key that names no
/// variant is refused.
pub fn decode_variant(key: Option<&str>) -> (r: Result<Option<Variant>, UnknownVariant>)
    ensures
        match key {
            None => r == Ok::<Option<Variant>, UnknownVariant>(None),
            Some(k) => match variant_of_key(k@) {
                Some(v) => r == Ok::<Option<Variant>, UnknownVariant>(Some(v)),
                None => r matches Err(e) && e.key@ == k@,
            },
        },
{
    match key {
        None => Ok(None),
        Some(k) => {
            if same_text(k, "standard") {
                Ok(Some(Variant::Standard))
            } else if same_text(k, "chess960") {
                Ok(Some(Variant::Chess960))
            } else if same_text(k, "crazyhouse") {
                Ok(Some(Variant::Crazyhouse))
            } else if same_text(k, "antichess") {
                Ok(Some(Variant::Antichess))
            } else if same_text(k, "atomic") {
                Ok(Some(Variant::Atomic))
            } else if same_text(k, "horde") {
                Ok(Some(Variant::Horde))
            } else if same_text(k, "kingOfTheHill") {
                Ok(Some(Variant::KingOfTheHill))
            } else if same_text(k, "racingKings") {
                Ok(Some(Variant::RacingKings))
            } else if same_text(k, "threeCheck") {
                Ok(Some(Variant::ThreeCheck))
            } else if same_text(k, "fromPosition") {
                Ok(Some(Variant::FromPosition))
            } else {
                Err(UnknownVariant { key: k.to_owned() })
            }
        },
    }
}

#[derive(Clone, Copy, Debug, PartialEq, Eq, Hash, Structural)]
pub enum Speed {
    UltraBullet,
    Bullet,
    Blitz,
    Rapid,
    Classical,
    Correspondence,
}

#[derive(Clone, Copy, Debug, PartialEq, Eq, Hash)]
pub struct Clock {
    pub limit: Option<Seconds>,
    pub increment: Option<Seconds>,
}

} // verus!

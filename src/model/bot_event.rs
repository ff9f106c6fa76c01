//! The records of the bot's main event stream.
use vstd::prelude::*;

use crate::model::challenge::{Challenge, ChallengeDeclined};
use crate::model::game::event::GameEventSource;
use crate::model::game::{Color, GameId, GameStatus};
use crate::model::Compat;

verus! {

/// A game that started or finished. The stream may leave out any field.
#[derive(Clone, Debug, PartialEq, Eq, Hash)]
pub struct GameStartFinish {
    pub id: Option<GameId>,
    pub source: Option<GameEventSource>,
    pub status: Option<GameStatus>,
    pub winner: Option<Color>,
    pub compat: Option<Compat>,
}

#[derive(Clone, Debug, PartialEq, Eq, Hash)]
pub enum BotEvent {
    GameStart(GameStartFinish),
    GameFinish(GameStartFinish),
    Challenge(Challenge),
    ChallengeCanceled(Challenge),
    ChallengeDeclined(ChallengeDeclined),
}

} // verus!

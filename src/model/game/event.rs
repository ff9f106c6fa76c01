//! The records of a per-game event stream.
use vstd::prelude::*;

use crate::model::game::chat::{ChatLine, ChatRoom};
use crate::model::game::{Color, GameInfo, GameStatus};
use crate::model::user::{AiLevel, Rating, Title, UserId};
use crate::model::{Milliseconds, Seconds};

verus! {

/// One seat of a game, as the game stream describes it.
#[derive(Clone, Debug, PartialEq, Eq, Hash)]
pub struct GameEventPlayer {
    pub ai_level: Option<AiLevel>,
    pub id: Option<UserId>,
    pub name: Option<String>,
    pub title: Option<Title>,
    pub rating: Option<Rating>,
    pub provisional: Option<bool>,
}

/// The mutable part of a game, sent after every change.
#[derive(Clone, Debug, PartialEq, Eq, Hash)]
pub struct GameStateEvent {
    /// Current moves in UCI format.
    pub moves: String,
    /// Milliseconds White has left on the clock.
    pub white_time: Milliseconds,
    /// Milliseconds Black has left on the clock.
    pub black_time: Milliseconds,
    /// White's Fischer increment.
    pub white_increment: Milliseconds,
    /// Black's Fischer increment.
    pub black_increment: Milliseconds,
    pub status: GameStatus,
    /// Color of the winner, if any.
    pub winner: Option<Color>,
    /// True if and only if White is offering a draw.
    pub white_draw_offer: bool,
    /// True if and only if Black is offering a draw.
    pub black_draw_offer: bool,
    /// True if and only if White is proposing a take-back.
    pub white_take_back_proposal: bool,
    /// True if and only if Black is proposing a take-back.
    pub black_take_back_proposal: bool,
}

/// The first record of a game stream: the game's metadata with its state.
#[derive(Clone, Debug, PartialEq, Eq, Hash)]
pub struct GameFullEvent {
    pub info: GameInfo,
    pub state: GameStateEvent,
}

#[derive(Clone, Debug, PartialEq, Eq, Hash)]
pub struct ChatLineEvent {
    pub room: ChatRoom,
    pub chat_line: ChatLine,
}

#[derive(Clone, Copy, Debug, PartialEq, Eq, Hash)]
pub struct OpponentGoneEvent {
    pub gone: bool,
    pub claim_win_in_seconds: Option<Seconds>,
}

#[derive(Clone, Debug, PartialEq, Eq, Hash)]
pub enum GameEvent {
    /// Full game data. All values are immutable, except for the `state` field.
    GameFull(GameFullEvent),
    /// Current state of the game. Immutable values not included.
    GameState(GameStateEvent),
    /// Chat message sent by a user (or the bot itself) in the player or spectator room.
    ChatLine(ChatLineEvent),
    /// Whether the opponent has left the game, and how long before a win or draw can be claimed.
    OpponentGone(OpponentGoneEvent),
}

#[derive(Clone, Copy, Debug, PartialEq, Eq, Hash, Structural)]
pub enum GameEventSource {
    Lobby,
    Friend,
    Ai,
    Api,
    Tournament,
    Position,
    Import,
    ImportLive,
    Simul,
    Relay,
    Pool,
    Swiss,
}

} // verus!

//! What a callback knows besides its event: who the bot is, and in a game,
//! which side it plays.
use vstd::prelude::*;

use crate::model::game::{Color, GameInfo};
use crate::model::user::UserId;
use crate::text::same_text;

verus! {

/// The context of a handler of the main event stream. Made once per run and
/// shared, read-only, by every handler.
#[derive(Clone, Debug, PartialEq, Eq, Hash)]
pub struct BotContext {
    /// The id of this bot's user.
    pub bot_id: UserId,
}

/// The context of a handler of a game's event stream. Derived once, from the
/// first record of that stream, and never recomputed.
#[derive(Clone, Debug, PartialEq, Eq, Hash)]
pub struct GameContext {
    /// The id of this bot's user.
    pub bot_id: UserId,
    /// The color as which this bot plays, or [None] if it is not a participant.
    pub bot_color: Option<Color>,
    /// The immutable metadata of the game.
    pub info: GameInfo,
}

/// The color of the seat whose player has the id `user_id`: White first, then
/// Black, and none if neither seat is that user's.
pub open spec fn spec_color_of(user_id: Seq<char>, info: GameInfo) -> Option<Color> {
    if info.white.id matches Some(w) && w@ == user_id {
        Some(Color::White)
    } else if info.black.id matches Some(b) && b@ == user_id {
        Some(Color::Black)
    } else {
        None
    }
}

/// The color as which the user with id `user_id` plays in a game.
pub fn color_of(user_id: &UserId, game_info: &GameInfo) -> (r: Option<Color>)
    ensures
        r == spec_color_of(user_id@, *game_info),
{
    let is_white = match &game_info.white.id {
        Some(white) => same_text(white.as_str(), user_id.as_str()),
        None => false,
    };
    let is_black = match &game_info.black.id {
        Some(black) => same_text(black.as_str(), user_id.as_str()),
        None => false,
    };
    if is_white {
        Some(Color::White)
    } else if is_black {
        Some(Color::Black)
    } else {
        None
    }
}

/// The context of the bot with id `bot_id` in the game of `info`.
pub open spec fn spec_game_context(bot_id: UserId, info: GameInfo) -> GameContext {
    GameContext { bot_color: spec_color_of(bot_id@, info), bot_id, info }
}

impl GameContext {
    /// Derives the context of the bot with id `bot_id` in the game of `info`:
    /// its color is that of the seat with its id, if any.
    pub fn for_game(bot_id: UserId, info: GameInfo) -> (r: GameContext)
        ensures
            r == spec_game_context(bot_id, info),
    {
        let bot_color = color_of(&bot_id, &info);
        GameContext { bot_id, bot_color, info }
    }
}

impl core::ops::Deref for GameContext {
    type Target = GameInfo;

    fn deref(&self) -> &GameInfo {
        &self.info
    }
}

} // verus!

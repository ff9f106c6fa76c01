//! Challenges: offers of a game between two players.
use vstd::prelude::*;

use crate::text::is_word;

use crate::model::game::{Fen, GameId, Speed, Variant};
use crate::model::user::User;
use crate::model::{TimeControl, Url};

verus! {

#[derive(Clone, Copy, Debug, PartialEq, Eq, Hash, Structural)]
pub enum ChallengeStatus {
    Created,
    Offline,
    Canceled,
    Declined,
    Accepted,
}

#[derive(Clone, Copy, Debug, PartialEq, Eq, Hash, Structural)]
pub enum ChallengeColor {
    White,
    Black,
    Random,
}

#[derive(Clone, Debug, PartialEq, Eq, Hash)]
pub struct ChallengePerf {
    pub icon: Option<String>,
    pub name: Option<String>,
}

#[derive(Clone, Copy, Debug, PartialEq, Eq, Hash, Structural)]
pub enum ChallengeDirection {
    In,
    Out,
}

/// The reasons a bot can give why it declined a challenge. The challenger sees
/// it, and may then offer a challenge that suits the bot better.
#[derive(Clone, Copy, Debug, PartialEq, Eq, Hash, Structural)]
pub enum DeclineReason {
    /// The bot does not accept challenges.
    Generic,
    /// The bot does not accept challenges right now, but may later.
    Later,
    /// The time control is too fast for the bot.
    TooFast,
    /// The time control is too slow for the bot.
    TooSlow,
    /// The bot does not accept challenges with the given time control.
    TimeControl,
    /// The bot wants a rated challenge.
    Rated,
    /// The bot wants a casual challenge.
    Casual,
    /// The bot only accepts standard chess.
    Standard,
    /// The bot does not accept challenges of the given variant.
    Variant,
    /// The bot does not accept challenges from other bots.
    NoBot,
    /// The bot only accepts challenges from other bots.
    OnlyBot,
}

impl DeclineReason {
    /// The key under which the API knows this reason.
    pub open spec fn spec_wire_name(self) -> Seq<char> {
        match self {
            DeclineReason::Generic => "generic"@,
            DeclineReason::Later => "later"@,
            DeclineReason::TooFast => "tooFast"@,
            DeclineReason::TooSlow => "tooSlow"@,
            DeclineReason::TimeControl => "timeControl"@,
            DeclineReason::Rated => "rated"@,
            DeclineReason::Casual => "casual"@,
            DeclineReason::Standard => "standard"@,
            DeclineReason::Variant => "variant"@,
            DeclineReason::NoBot => "noBot"@,
            DeclineReason::OnlyBot => "onlyBot"@,
        }
    }

    /// The key under which the API knows this reason.
    pub fn wire_name(self) -> (r: &'static str)
        ensures
            r@ == self.spec_wire_name(),
            is_word(r@),
    {
        match self {
            DeclineReason::Generic => {
                proof {
                    reveal_strlit("generic");
                }
                "generic"
            },
            DeclineReason::Later => {
                proof {
                    reveal_strlit("later");
                }
                "later"
            },
            DeclineReason::TooFast => {
                proof {
                    reveal_strlit("tooFast");
                }
                "tooFast"
            },
            DeclineReason::TooSlow => {
                proof {
                    reveal_strlit("tooSlow");
                }
                "tooSlow"
            },
            DeclineReason::TimeControl => {
                proof {
                    reveal_strlit("timeControl");
                }
                "timeControl"
            },
            DeclineReason::Rated => {
                proof {
                    reveal_strlit("rated");
                }
                "rated"
            },
            DeclineReason::Casual => {
                proof {
                    reveal_strlit("casual");
                }
                "casual"
            },
            DeclineReason::Standard => {
                proof {
                    reveal_strlit("standard");
                }
                "standard"
            },
            DeclineReason::Variant => {
                proof {
                    reveal_strlit("variant");
                }
                "variant"
            },
            DeclineReason::NoBot => {
                proof {
                    reveal_strlit("noBot");
                }
                "noBot"
            },
            DeclineReason::OnlyBot => {
                proof {
                    reveal_strlit("onlyBot");
                }
                "onlyBot"
            },
        }
    }
}

/// A challenge. Its decline reason comes twice, as text for people and as a
/// key; the two are kept as sent, without a check that they agree.
#[derive(Clone, Debug, PartialEq, Eq, Hash)]
pub struct Challenge {
    pub id: GameId,
    pub url: Url,
    pub status: ChallengeStatus,
    pub challenger: User,
    pub dest_user: Option<User>,
    pub variant: Option<Variant>,
    pub rated: bool,
    pub speed: Speed,
    pub time_control: TimeControl,
    pub color: ChallengeColor,
    pub perf: ChallengePerf,
    pub direction: Option<ChallengeDirection>,
    pub initial_fen: Option<Fen>,
    pub decline_reason: Option<String>,
    pub decline_reason_key: Option<DeclineReason>,
}

#[derive(Clone, Debug, PartialEq, Eq, Hash)]
pub struct ChallengeDeclined {
    pub id: GameId,
}

/// The pending challenges, to the bot and from it.
#[derive(Clone, Debug, PartialEq, Eq, Hash)]
pub struct Challenges {
    pub incoming: Vec<Challenge>,
    pub outgoing: Vec<Challenge>,
}

} // verus!

//! Game chat.
use vstd::prelude::*;

use crate::text::is_word;

verus! {

#[derive(Clone, Copy, Debug, PartialEq, Eq, Hash, Structural)]
pub enum ChatRoom {
    Player,
    Spectator,
}

impl ChatRoom {
    /// The name under which the API knows this room.
    pub open spec fn spec_wire_name(self) -> Seq<char> {
        match self {
            ChatRoom::Player => "player"@,
            ChatRoom::Spectator => "spectator"@,
        }
    }

    /// The name under which the API knows this room.
    pub fn wire_name(self) -> (r: &'static str)
        ensures
            r@ == self.spec_wire_name(),
            is_word(r@),
    {
        match self {
            ChatRoom::Player => {
                proof {
                    reveal_strlit("player");
                }
                "player"
            },
            ChatRoom::Spectator => {
                proof {
                    reveal_strlit("spectator");
                }
                "spectator"
            },
        }
    }
}

#[derive(Clone, Debug, PartialEq, Eq, Hash)]
pub struct ChatLine {
    pub username: String,
    pub text: String,
}

pub type ChatHistory = Vec<ChatLine>;

} // verus!

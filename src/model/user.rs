//! Users and their public profiles.
use vstd::prelude::*;

use crate::model::{Any, Seconds, Timestamp, Url};

pub mod preferences;

verus! {

pub type UserId = String;

pub type Rating = i32;

pub type AiLevel = i32;

#[derive(Clone, Copy, Debug, PartialEq, Eq, Hash, Structural)]
pub enum Title {
    Gm,
    Wgm,
    Im,
    Wim,
    Fm,
    Wfm,
    Nm,
    Wnm,
    Cm,
    Wcm,
    Lm,
    Bot,
}

#[derive(Clone, Debug, PartialEq, Eq, Hash)]
pub struct User {
    pub rating: Option<Rating>,
    pub provisional: bool,
    pub online: bool,
    pub id: UserId,
    pub name: String,
    pub title: Option<Title>,
    pub patron: bool,
}

#[derive(Clone, Copy, Debug, PartialEq, Eq, Hash)]
pub struct Perf {
    pub games: u32,
    pub rating: Rating,
    pub rd: i32,
    pub prog: i32,
    pub prov: bool,
}

#[derive(Clone, Copy, Debug, PartialEq, Eq, Hash)]
pub struct PuzzleModePerf {
    pub runs: u32,
    pub score: Rating,
}

#[derive(Clone, Copy, Debug, Default, PartialEq, Eq, Hash)]
pub struct Perfs {
    pub chess960: Option<Perf>,
    pub atomic: Option<Perf>,
    pub racing_kings: Option<Perf>,
    pub ultra_bullet: Option<Perf>,
    pub blitz: Option<Perf>,
    pub king_of_the_hill: Option<Perf>,
    pub bullet: Option<Perf>,
    pub correspondence: Option<Perf>,
    pub horde: Option<Perf>,
    pub puzzle: Option<Perf>,
    pub classical: Option<Perf>,
    pub rapid: Option<Perf>,
    pub storm: Option<PuzzleModePerf>,
    pub racer: Option<PuzzleModePerf>,
    pub streak: Option<PuzzleModePerf>,
}

#[derive(Clone, Debug, Default, PartialEq, Eq, Hash)]
pub struct Profile {
    pub country: Option<String>,
    pub location: Option<String>,
    pub bio: Option<String>,
    pub first_name: Option<String>,
    pub last_name: Option<String>,
    pub fide_rating: Option<Rating>,
    pub uscf_rating: Option<Rating>,
    pub ecf_rating: Option<Rating>,
    pub links: Option<String>,
}

#[derive(Clone, Copy, Debug, PartialEq, Eq, Hash)]
pub struct PlayTime {
    pub total: Seconds,
    pub tv: Seconds,
}

#[derive(Clone, Copy, Debug, PartialEq, Eq, Hash)]
pub struct UserProfileStats {
    pub all: u32,
    pub rated: u32,
    pub ai: u32,
    pub draw: u32,
    pub draw_h: u32,
    pub loss: u32,
    pub loss_h: u32,
    pub win: u32,
    pub win_h: u32,
    pub bookmark: u32,
    pub playing: u32,
    pub import: u32,
    pub me: u32,
}

#[derive(Clone, Debug, PartialEq, Eq)]
pub struct UserProfile {
    pub id: UserId,
    pub username: String,
    pub perfs: Perfs,
    pub created_at: Timestamp,
    pub disabled: bool,
    pub tos_violation: bool,
    pub profile: Profile,
    pub seen_at: Timestamp,
    pub patron: bool,
    pub verified: bool,
    pub play_time: PlayTime,
    pub title: Option<Title>,
    pub url: Url,
    pub playing: Option<Url>,
    pub count: UserProfileStats,
    pub streaming: bool,
    pub streamer: Option<Any>,
    pub followable: bool,
    pub following: bool,
    pub blocking: bool,
    pub follows_you: bool,
}

} // verus!

//! The account's preferences.
use vstd::prelude::*;

use crate::model::Url;

verus! {

pub type Theme = String;

pub type PieceSet = String;

pub type Theme3d = String;

pub type PieceSet3d = String;

pub type SoundSet = String;

pub type Language = String;

/// Preference for piece animation.
#[derive(Clone, Copy, Debug, PartialEq, Eq, Hash, Structural)]
pub enum PieceAnimation {
    /// Pieces move without animation.
    NoAnimation,
    Fast,
    Normal,
    Slow,
}

/// Preference for automatically promoting to Queen.
#[derive(Clone, Copy, Debug, PartialEq, Eq, Hash, Structural)]
pub enum AutoQueen {
    Never,
    WhenPreMoving,
    Always,
}

/// Preference for automatically claiming draw on threefold repetition.
#[derive(Clone, Copy, Debug, PartialEq, Eq, Hash, Structural)]
pub enum AutoThreefold {
    Never,
    WhenLessThan30Seconds,
    Always,
}

/// Preference for which players to let challenge you.
#[derive(Clone, Copy, Debug, PartialEq, Eq, Hash, Structural)]
pub enum ChallengeFilter {
    Never,
    IfRatingWithin300,
    OnlyFriends,
    IfRegistered,
    Always,
}

/// Preference for displaying tenths of seconds on the clock.
#[derive(Clone, Copy, Debug, PartialEq, Eq, Hash, Structural)]
pub enum ClockTenths {
    Never,
    WhenLessThan10Seconds,
    Always,
}

/// Preference for displaying board coordinates (A-H, 1-8).
#[derive(Clone, Copy, Debug, PartialEq, Eq, Hash, Structural)]
pub enum Coordinates {
    /// Do not display coordinates.
    Hidden,
    /// Display coordinates inside the board.
    Inside,
    /// Display coordinates outside the board.
    Outside,
}

/// Preference for sharing your chess insights data.
#[derive(Clone, Copy, Debug, PartialEq, Eq, Hash, Structural)]
pub enum InsightShare {
    WithNobody,
    WithFriends,
    WithEverybody,
}

/// Preference for which players to let message you.
#[derive(Clone, Copy, Debug, PartialEq, Eq, Hash, Structural)]
pub enum MessageFilter {
    OnlyExistingConversations,
    OnlyFriends,
    Always,
}

/// Preference for giving more time.
#[derive(Clone, Copy, Debug, PartialEq, Eq, Hash, Structural)]
pub enum MoreTime {
    Never,
    CasualOnly,
    Always,
}

/// Preference for how you move pieces.
#[derive(Clone, Copy, Debug, PartialEq, Eq, Hash, Structural)]
pub enum MoveEvent {
    ClickTwoSquares,
    DragPiece,
    Either,
}

/// Preference for displaying a move list while playing.
#[derive(Clone, Copy, Debug, PartialEq, Eq, Hash, Structural)]
pub enum Replay {
    Never,
    SlowGames,
    Always,
}

/// Preference for castling method.
#[derive(Clone, Copy, Debug, PartialEq, Eq, Hash, Structural)]
pub enum CastlingMethod {
    KingTwoSquares,
    KingOntoRook,
}

/// Preference for take backs with opponent approval.
#[derive(Clone, Copy, Debug, PartialEq, Eq, Hash, Structural)]
pub enum TakeBack {
    Never,
    CasualOnly,
    Always,
}

/// Preference for activating Zen mode.
#[derive(Clone, Copy, Debug, PartialEq, Eq, Hash, Structural)]
pub enum ZenMode {
    No,
    Yes,
    InGameOnly,
}

/// Bit of the unlimited time control in a set of move confirmations.
pub const UNLIMITED_BIT: u8 = 1;

/// Bit of the correspondence time control.
pub const CORRESPONDENCE_BIT: u8 = 2;

/// Bit of the classical time control.
pub const CLASSICAL_BIT: u8 = 4;

/// Bit of the rapid time control.
pub const RAPID_BIT: u8 = 8;

/// Bit of the blitz time control.
pub const BLITZ_BIT: u8 = 16;

/// Preferences on whether moves have to be confirmed, per time control: a set
/// of time controls kept as bits.
#[derive(Clone, Copy, Debug, PartialEq, Eq, Hash)]
pub struct MoveConfirmations(pub u8);

impl MoveConfirmations {
    /// The bits of the set.
    pub open spec fn bits(self) -> u8 {
        self.0
    }

    /// The set with exactly the given bits.
    pub open spec fn spec_from_bits(bits: u8) -> MoveConfirmations {
        MoveConfirmations(bits)
    }

    /// Whether the set holds any of the bits of `mask`.
    pub open spec fn spec_contains(self, mask: u8) -> bool {
        self.bits() & mask != 0
    }

    /// The set with exactly the given bits.
    pub fn from_bits(bits: u8) -> (r: MoveConfirmations)
        ensures
            r.bits() == bits,
    {
        MoveConfirmations(bits)
    }

    /// No confirmation in any time control.
    pub fn empty() -> (r: MoveConfirmations)
        ensures
            r.bits() == 0,
    {
        MoveConfirmations(0)
    }

    /// Confirmation in unlimited games only.
    pub fn unlimited() -> (r: MoveConfirmations)
        ensures
            r.bits() == UNLIMITED_BIT,
    {
        MoveConfirmations(UNLIMITED_BIT)
    }

    /// Confirmation in correspondence games only.
    pub fn correspondence() -> (r: MoveConfirmations)
        ensures
            r.bits() == CORRESPONDENCE_BIT,
    {
        MoveConfirmations(CORRESPONDENCE_BIT)
    }

    /// Confirmation in classical games only.
    pub fn classical() -> (r: MoveConfirmations)
        ensures
            r.bits() == CLASSICAL_BIT,
    {
        MoveConfirmations(CLASSICAL_BIT)
    }

    /// Confirmation in rapid games only.
    pub fn rapid() -> (r: MoveConfirmations)
        ensures
            r.bits() == RAPID_BIT,
    {
        MoveConfirmations(RAPID_BIT)
    }

    /// Confirmation in blitz games only.
    pub fn blitz() -> (r: MoveConfirmations)
        ensures
            r.bits() == BLITZ_BIT,
    {
        MoveConfirmations(BLITZ_BIT)
    }

    /// The time controls of either set.
    pub fn union(self, other: MoveConfirmations) -> (r: MoveConfirmations)
        ensures
            r == MoveConfirmations::spec_from_bits(self.bits() | other.bits()),
            r.bits() == self.bits() | other.bits(),
            forall|mask: u8|
                #[trigger] r.spec_contains(mask) == (self.spec_contains(mask)
                    || other.spec_contains(mask)),
    {
        let x = self.0;
        let y = other.0;
        assert forall|mask: u8| ((x | y) & mask != 0) == (x & mask != 0 || y & mask != 0) by {
            assert(((x | y) & mask != 0) == (x & mask != 0 || y & mask != 0)) by (bit_vector);
        }
        MoveConfirmations(x | y)
    }

    fn contains(self, mask: MoveConfirmations) -> (r: bool)
        ensures
            r == self.spec_contains(mask.bits()),
    {
        self.0 & mask.0 != 0
    }

    /// Indicates whether move confirmation is required in Unlimited time control.
    pub fn for_unlimited(self) -> (r: bool)
        ensures
            r == self.spec_contains(UNLIMITED_BIT),
    {
        self.contains(Self::unlimited())
    }

    /// Indicates whether move confirmation is required in Correspondence time control.
    pub fn for_correspondence(self) -> (r: bool)
        ensures
            r == self.spec_contains(CORRESPONDENCE_BIT),
    {
        self.contains(Self::correspondence())
    }

    /// Indicates whether move confirmation is required in Classical time control.
    pub fn for_classical(self) -> (r: bool)
        ensures
            r == self.spec_contains(CLASSICAL_BIT),
    {
        self.contains(Self::classical())
    }

    /// Indicates whether move confirmation is required in Rapid time control.
    pub fn for_rapid(self) -> (r: bool)
        ensures
            r == self.spec_contains(RAPID_BIT),
    {
        self.contains(Self::rapid())
    }

    /// Indicates whether move confirmation is required in Blitz time control.
    pub fn for_blitz(self) -> (r: bool)
        ensures
            r == self.spec_contains(BLITZ_BIT),
    {
        self.contains(Self::blitz())
    }
}

impl core::ops::BitOr for MoveConfirmations {
    type Output = MoveConfirmations;

    fn bitor(self, rhs: MoveConfirmations) -> (r: MoveConfirmations)
        ensures
            r.bits() == self.bits() | rhs.bits(),
    {
        self.union(rhs)
    }
}

impl vstd::std_specs::ops::BitOrSpecImpl for MoveConfirmations {
    open spec fn obeys_bitor_spec() -> bool {
        true
    }

    open spec fn bitor_req(self, rhs: MoveConfirmations) -> bool {
        true
    }

    open spec fn bitor_spec(self, rhs: MoveConfirmations) -> MoveConfirmations {
        MoveConfirmations::spec_from_bits(self.bits() | rhs.bits())
    }
}

impl core::ops::BitOrAssign for MoveConfirmations {
    fn bitor_assign(&mut self, rhs: MoveConfirmations)
        ensures
            final(self).bits() == old(self).bits() | rhs.bits(),
    {
        *self = self.union(rhs);
    }
}

/// The account's preferences.
#[derive(Clone, Debug, PartialEq, Eq, Hash)]
pub struct UserPreferences {
    pub dark: bool,
    pub transparent: bool,
    pub background_image: Url,
    pub is_3d: bool,
    pub theme: Theme,
    pub piece_set: PieceSet,
    pub theme_3d: Theme3d,
    pub piece_set_3d: PieceSet3d,
    pub sound_set: SoundSet,
    pub blindfold: bool,
    pub auto_queen: AutoQueen,
    pub auto_threefold: AutoThreefold,
    pub take_back: TakeBack,
    pub more_time: MoreTime,
    pub clock_tenths: ClockTenths,
    pub clock_bar: bool,
    pub clock_sound: bool,
    pub premove: bool,
    pub animation: PieceAnimation,
    pub captured: bool,
    pub follow: bool,
    pub highlight: bool,
    pub destination: bool,
    pub coords: Coordinates,
    pub replay: Replay,
    pub challenge: ChallengeFilter,
    pub message: MessageFilter,
    pub move_confirmations: MoveConfirmations,
    pub confirm_resign: bool,
    pub insight_share: InsightShare,
    pub keyboard_move: bool,
    pub zen: ZenMode,
    pub ratings: bool,
    pub move_event: MoveEvent,
    pub castling_method: CastlingMethod,
    pub language: Language,
}

} // verus!

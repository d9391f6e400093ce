//! Layout table of the save file: sizes, counts, field offsets and the
//! enumerations that are stored as one discriminant byte.

use vstd::prelude::*;

verus! {

/// Size in bytes of the header region.
pub const HEADER_SIZE: usize = 0x6A0;

/// Size in bytes of one slot record.
pub const SAVE_SLOT_SIZE: usize = 0x980;

/// Number of slot records in a file: three save slots, then three quick slots.
pub const SLOT_COUNT: usize = 6;

/// Size in bytes of a whole save file.
pub const SAVE_FILE_SIZE: usize = 0x3FA0;

/// Largest score the game displays.
pub const MAX_SCORE: u32 = 99999950;

/// Kinds of item that a slot keeps in stock.
pub const POWERUP_COUNT: usize = 7;

/// Players that a slot keeps state for.
pub const PLAYER_COUNT: usize = 4;

/// Stages that the tables hold for each world.
pub const STAGE_COUNT: usize = 42;

/// Worlds that the tables hold.
pub const WORLD_COUNT: usize = 10;

/// Worlds that can be reached in play; the format reserves room for one more.
pub const ACTUAL_WORLD_COUNT: usize = 9;

/// Ambush enemies that walk the map of each world.
pub const AMBUSH_ENEMY_COUNT: usize = 4;

/// Room reserved for hint movies; only the first 64 exist.
pub const HINT_MOVIE_COUNT: usize = 70;

/// Hint movies that exist.
pub const ACTUAL_HINT_MOVIE_COUNT: usize = 64;

/// Most items of one kind that the game keeps in stock.
pub const POWERUP_STOCK_MAX: u8 = 99;

/// Most lives that the game gives a player.
pub const PLAYER_LIFE_MAX: u8 = 99;

/// Signature that opens every save file: the ASCII letters S, M, N.
pub const MAGIC: [u8; 3] = [0x53, 0x4D, 0x4E];

/// Value of the version byte that opens the checksummed part of each region.
pub const FORMAT_VERSION: u8 = 0x0E;

// Offsets inside the header, from the start of the file.
pub const HEADER_REGION_AT: usize = 0x3;

pub const HEADER_VERSION_AT: usize = 0x4;

pub const HEADER_LAST_SELECTED_AT: usize = 0x6;

pub const HEADER_FREE_MODE_AT: usize = 0x8;

pub const HEADER_COIN_BATTLE_AT: usize = 0x350;

pub const HEADER_UNLOCKED_WORLDS_AT: usize = 0x698;

pub const HEADER_CHECKSUM_AT: usize = 0x69C;

// Offsets inside a slot record, from the start of the record.
pub const SLOT_VERSION_AT: usize = 0x0;

pub const SLOT_COMPLETION_AT: usize = 0x2;

pub const SLOT_WORLD_AT: usize = 0x3;

pub const SLOT_SUBWORLD_AT: usize = 0x4;

pub const SLOT_PATH_NODE_AT: usize = 0x5;

pub const SLOT_VINE_RESHUFFLE_AT: usize = 0x6;

pub const SLOT_W3_SWITCH_AT: usize = 0x7;

pub const SLOT_ITEM_STOCK_AT: usize = 0x9;

pub const SLOT_HOUSE_TYPE_AT: usize = 0x10;

pub const SLOT_CONTINUES_AT: usize = 0x1A;

pub const SLOT_COINS_AT: usize = 0x1E;

pub const SLOT_LIVES_AT: usize = 0x22;

pub const SLOT_SPAWN_FLAGS_AT: usize = 0x26;

pub const SLOT_CHARACTER_AT: usize = 0x2A;

pub const SLOT_POWERUP_AT: usize = 0x2E;

pub const SLOT_WORLD_UNLOCKED_AT: usize = 0x32;

pub const SLOT_REVIVAL_COUNT_AT: usize = 0x3C;

pub const SLOT_CREDITS_SCORE_AT: usize = 0x66;

pub const SLOT_SCORE_AT: usize = 0x68;

pub const SLOT_STAGE_FLAGS_AT: usize = 0x6C;

pub const SLOT_HINT_MOVIE_AT: usize = 0x6FC;

pub const SLOT_TOAD_RESCUE_AT: usize = 0x742;

pub const SLOT_ENEMY_SUBWORLD_AT: usize = 0x74C;

pub const SLOT_ENEMY_POSITION_AT: usize = 0x774;

pub const SLOT_ENEMY_DIRECTION_AT: usize = 0x79C;

pub const SLOT_DEATH_COUNT_AT: usize = 0x7C4;

pub const SLOT_DEATH_COUNT_SWITCH_AT: usize = 0x968;

pub const SLOT_CHECKSUM_AT: usize = 0x97C;

// ASCII tags of the regions: E, P, J, K, C and W.
pub const REGION_TAG_NTSC: u8 = 0x45;

pub const REGION_TAG_PAL: u8 = 0x50;

pub const REGION_TAG_JPN: u8 = 0x4A;

pub const REGION_TAG_KOR: u8 = 0x4B;

pub const REGION_TAG_CHN: u8 = 0x43;

pub const REGION_TAG_TW: u8 = 0x57;

// Bits of a slot's completion flags.
pub const COMPLETION_SAVE_EMPTY: u8 = 0b0000_0001;

pub const COMPLETION_FINAL_BOSS_BEATEN: u8 = 0b0000_0010;

pub const COMPLETION_ALL_GOALS: u8 = 0b0000_0100;

pub const COMPLETION_ALL_STAR_COINS_REGULAR: u8 = 0b0000_1000;

pub const COMPLETION_ALL_STAR_COINS_SPECIAL: u8 = 0b0001_0000;

pub const COMPLETION_GAME_COMPLETED: u8 = 0b0010_0000;

pub const COMPLETION_SUPER_GUIDE_TRIGGERED: u8 = 0b0100_0000;

// Bits of a stage's completion flags.
pub const STAGE_STAR_COIN_1: u32 = 0x001;

pub const STAGE_STAR_COIN_2: u32 = 0x002;

pub const STAGE_STAR_COIN_3: u32 = 0x004;

pub const STAGE_GOAL_NORMAL: u32 = 0x010;

pub const STAGE_GOAL_SECRET: u32 = 0x020;

pub const STAGE_SUPER_GUIDE_NORMAL: u32 = 0x080;

pub const STAGE_SUPER_GUIDE_SECRET: u32 = 0x100;

// Bits of a player's spawn flags.
pub const SPAWN_STAR_POWER: u8 = 0b0000_0001;

pub const SPAWN_YOSHI: u8 = 0b0000_0010;

pub const SPAWN_BUBBLE: u8 = 0b0000_0100;

pub const SPAWN_RESCUE_TOAD: u8 = 0b0000_1000;

/// A value that the file stores as a single byte.
///
/// Decoding is total: a byte that names no value decodes to the type's
/// documented default. Encoding then decoding gives the value back.
pub trait ByteCoded: Copy + Sized {
    /// The byte that stands for this value in the file.
    spec fn byte(self) -> u8;

    /// The value that a byte of the file stands for.
    spec fn of_byte(b: u8) -> Self;

    /// The byte of a value reads back as that value.
    proof fn lemma_byte_reads_back(self)
        ensures
            Self::of_byte(self.byte()) == self,
    ;

    fn to_byte(self) -> (b: u8)
        ensures
            b == self.byte(),
    ;

    fn from_byte(b: u8) -> (v: Self)
        ensures
            v == Self::of_byte(b),
    ;
}

/// `b` is the byte that is written for the value it reads as. Every byte
/// is so for a plain number; for a flag only 0 and 1, and for an
/// enumeration only the bytes of its variants.
pub open spec fn is_canonical<T: ByteCoded>(b: u8) -> bool {
    T::of_byte(b).byte() == b
}

impl ByteCoded for u8 {
    open spec fn byte(self) -> u8 {
        self
    }

    open spec fn of_byte(b: u8) -> u8 {
        b
    }

    proof fn lemma_byte_reads_back(self) {
    }

    fn to_byte(self) -> (b: u8) {
        self
    }

    fn from_byte(b: u8) -> (v: u8) {
        b
    }
}

/// A flag is written as 1 or 0; any byte but 0 reads as set.
impl ByteCoded for bool {
    open spec fn byte(self) -> u8 {
        if self {
            1
        } else {
            0
        }
    }

    open spec fn of_byte(b: u8) -> bool {
        b != 0
    }

    proof fn lemma_byte_reads_back(self) {
    }

    fn to_byte(self) -> (b: u8) {
        if self {
            1
        } else {
            0
        }
    }

    fn from_byte(b: u8) -> (v: bool) {
        b != 0
    }
}

/// Power-up state of a player. An unknown byte reads as `NoPowerup`.
#[derive(Copy, Clone, Debug, PartialEq, Eq, Structural)]
pub enum PlayerPowerup {
    NoPowerup,
    Mushroom,
    FireFlower,
    MiniMushroom,
    PropellerMushroom,
    PenguinSuit,
    IceFlower,
}

impl ByteCoded for PlayerPowerup {
    open spec fn byte(self) -> u8 {
        match self {
            PlayerPowerup::NoPowerup => 0,
            PlayerPowerup::Mushroom => 1,
            PlayerPowerup::FireFlower => 2,
            PlayerPowerup::MiniMushroom => 3,
            PlayerPowerup::PropellerMushroom => 4,
            PlayerPowerup::PenguinSuit => 5,
            PlayerPowerup::IceFlower => 6,
        }
    }

    open spec fn of_byte(b: u8) -> PlayerPowerup {
        if b == 1 {
            PlayerPowerup::Mushroom
        } else if b == 2 {
            PlayerPowerup::FireFlower
        } else if b == 3 {
            PlayerPowerup::MiniMushroom
        } else if b == 4 {
            PlayerPowerup::PropellerMushroom
        } else if b == 5 {
            PlayerPowerup::PenguinSuit
        } else if b == 6 {
            PlayerPowerup::IceFlower
        } else {
            PlayerPowerup::NoPowerup
        }
    }

    proof fn lemma_byte_reads_back(self) {
    }

    fn to_byte(self) -> (b: u8) {
        match self {
            PlayerPowerup::NoPowerup => 0,
            PlayerPowerup::Mushroom => 1,
            PlayerPowerup::FireFlower => 2,
            PlayerPowerup::MiniMushroom => 3,
            PlayerPowerup::PropellerMushroom => 4,
            PlayerPowerup::PenguinSuit => 5,
            PlayerPowerup::IceFlower => 6,
        }
    }

    fn from_byte(b: u8) -> (v: PlayerPowerup) {
        match b {
            1 => PlayerPowerup::Mushroom,
            2 => PlayerPowerup::FireFlower,
            3 => PlayerPowerup::MiniMushroom,
            4 => PlayerPowerup::PropellerMushroom,
            5 => PlayerPowerup::PenguinSuit,
            6 => PlayerPowerup::IceFlower,
            _ => PlayerPowerup::NoPowerup,
        }
    }
}

/// Character that a player controls. An unknown byte reads as `Mario`.
#[derive(Copy, Clone, Debug, PartialEq, Eq, Structural)]
pub enum PlayerCharacter {
    Mario,
    Luigi,
    BlueToad,
    YellowToad,
}

impl ByteCoded for PlayerCharacter {
    open spec fn byte(self) -> u8 {
        match self {
            PlayerCharacter::Mario => 0,
            PlayerCharacter::Luigi => 1,
            PlayerCharacter::BlueToad => 2,
            PlayerCharacter::YellowToad => 3,
        }
    }

    open spec fn of_byte(b: u8) -> PlayerCharacter {
        if b == 1 {
            PlayerCharacter::Luigi
        } else if b == 2 {
            PlayerCharacter::BlueToad
        } else if b == 3 {
            PlayerCharacter::YellowToad
        } else {
            PlayerCharacter::Mario
        }
    }

    proof fn lemma_byte_reads_back(self) {
    }

    fn to_byte(self) -> (b: u8) {
        match self {
            PlayerCharacter::Mario => 0,
            PlayerCharacter::Luigi => 1,
            PlayerCharacter::BlueToad => 2,
            PlayerCharacter::YellowToad => 3,
        }
    }

    fn from_byte(b: u8) -> (v: PlayerCharacter) {
        match b {
            1 => PlayerCharacter::Luigi,
            2 => PlayerCharacter::BlueToad,
            3 => PlayerCharacter::YellowToad,
            _ => PlayerCharacter::Mario,
        }
    }
}

/// Region of the game that wrote the file, stored as an ASCII tag.
/// An unknown tag reads as `NTSC`.
#[derive(Copy, Clone, Debug, PartialEq, Eq, Structural)]
pub enum SaveFileRegion {
    NTSC,
    PAL,
    JPN,
    KOR,
    CHN,
    TW,
}

impl ByteCoded for SaveFileRegion {
    open spec fn byte(self) -> u8 {
        match self {
            SaveFileRegion::NTSC => REGION_TAG_NTSC,
            SaveFileRegion::PAL => REGION_TAG_PAL,
            SaveFileRegion::JPN => REGION_TAG_JPN,
            SaveFileRegion::KOR => REGION_TAG_KOR,
            SaveFileRegion::CHN => REGION_TAG_CHN,
            SaveFileRegion::TW => REGION_TAG_TW,
        }
    }

    open spec fn of_byte(b: u8) -> SaveFileRegion {
        if b == REGION_TAG_PAL {
            SaveFileRegion::PAL
        } else if b == REGION_TAG_JPN {
            SaveFileRegion::JPN
        } else if b == REGION_TAG_KOR {
            SaveFileRegion::KOR
        } else if b == REGION_TAG_CHN {
            SaveFileRegion::CHN
        } else if b == REGION_TAG_TW {
            SaveFileRegion::TW
        } else {
            SaveFileRegion::NTSC
        }
    }

    proof fn lemma_byte_reads_back(self) {
    }

    fn to_byte(self) -> (b: u8) {
        match self {
            SaveFileRegion::NTSC => REGION_TAG_NTSC,
            SaveFileRegion::PAL => REGION_TAG_PAL,
            SaveFileRegion::JPN => REGION_TAG_JPN,
            SaveFileRegion::KOR => REGION_TAG_KOR,
            SaveFileRegion::CHN => REGION_TAG_CHN,
            SaveFileRegion::TW => REGION_TAG_TW,
        }
    }

    fn from_byte(b: u8) -> (v: SaveFileRegion) {
        if b == REGION_TAG_PAL {
            SaveFileRegion::PAL
        } else if b == REGION_TAG_JPN {
            SaveFileRegion::JPN
        } else if b == REGION_TAG_KOR {
            SaveFileRegion::KOR
        } else if b == REGION_TAG_CHN {
            SaveFileRegion::CHN
        } else if b == REGION_TAG_TW {
            SaveFileRegion::TW
        } else {
            SaveFileRegion::NTSC
        }
    }
}

/// Kind of mushroom house that waits at the start of a world.
/// An unknown byte reads as `NoHouse`.
#[derive(Copy, Clone, Debug, PartialEq, Eq, Structural)]
pub enum StartingMushroomKind {
    NoHouse,
    Star,
    Item,
    OneUp,
    StarRescue,
    ItemRescue,
    OneUpRescue,
}

impl ByteCoded for StartingMushroomKind {
    open spec fn byte(self) -> u8 {
        match self {
            StartingMushroomKind::NoHouse => 0,
            StartingMushroomKind::Star => 1,
            StartingMushroomKind::Item => 2,
            StartingMushroomKind::OneUp => 3,
            StartingMushroomKind::StarRescue => 4,
            StartingMushroomKind::ItemRescue => 5,
            StartingMushroomKind::OneUpRescue => 6,
        }
    }

    open spec fn of_byte(b: u8) -> StartingMushroomKind {
        if b == 1 {
            StartingMushroomKind::Star
        } else if b == 2 {
            StartingMushroomKind::Item
        } else if b == 3 {
            StartingMushroomKind::OneUp
        } else if b == 4 {
            StartingMushroomKind::StarRescue
        } else if b == 5 {
            StartingMushroomKind::ItemRescue
        } else if b == 6 {
            StartingMushroomKind::OneUpRescue
        } else {
            StartingMushroomKind::NoHouse
        }
    }

    proof fn lemma_byte_reads_back(self) {
    }

    fn to_byte(self) -> (b: u8) {
        match self {
            StartingMushroomKind::NoHouse => 0,
            StartingMushroomKind::Star => 1,
            StartingMushroomKind::Item => 2,
            StartingMushroomKind::OneUp => 3,
            StartingMushroomKind::StarRescue => 4,
            StartingMushroomKind::ItemRescue => 5,
            StartingMushroomKind::OneUpRescue => 6,
        }
    }

    fn from_byte(b: u8) -> (v: StartingMushroomKind) {
        match b {
            1 => StartingMushroomKind::Star,
            2 => StartingMushroomKind::Item,
            3 => StartingMushroomKind::OneUp,
            4 => StartingMushroomKind::StarRescue,
            5 => StartingMushroomKind::ItemRescue,
            6 => StartingMushroomKind::OneUpRescue,
            _ => StartingMushroomKind::NoHouse,
        }
    }
}

/// Direction in which an ambush enemy walks on the world map.
/// An unknown byte reads as `ToNextNode`.
#[derive(Copy, Clone, Debug, PartialEq, Eq, Structural)]
pub enum EnemyDirection {
    /// Forwards, to the next node.
    ToNextNode,
    /// Backwards, to the previous node.
    ToPreviousNode,
    /// The value set before the world is entered for the first time.
    FirstTimeValue,
}

impl ByteCoded for EnemyDirection {
    open spec fn byte(self) -> u8 {
        match self {
            EnemyDirection::ToNextNode => 0,
            EnemyDirection::ToPreviousNode => 1,
            EnemyDirection::FirstTimeValue => 2,
        }
    }

    open spec fn of_byte(b: u8) -> EnemyDirection {
        if b == 1 {
            EnemyDirection::ToPreviousNode
        } else if b == 2 {
            EnemyDirection::FirstTimeValue
        } else {
            EnemyDirection::ToNextNode
        }
    }

    proof fn lemma_byte_reads_back(self) {
    }

    fn to_byte(self) -> (b: u8) {
        match self {
            EnemyDirection::ToNextNode => 0,
            EnemyDirection::ToPreviousNode => 1,
            EnemyDirection::FirstTimeValue => 2,
        }
    }

    fn from_byte(b: u8) -> (v: EnemyDirection) {
        match b {
            1 => EnemyDirection::ToPreviousNode,
            2 => EnemyDirection::FirstTimeValue,
            _ => EnemyDirection::ToNextNode,
        }
    }
}

/// A byte that names no value of an enumeration reads as the documented
/// default of that enumeration: NTSC for a region tag, Mario for a
/// character, no power-up, no mushroom house, and the walk to the next
/// node.
pub proof fn lemma_unknown_bytes_read_as_defaults(b: u8)
    ensures
        b != REGION_TAG_NTSC && b != REGION_TAG_PAL && b != REGION_TAG_JPN && b != REGION_TAG_KOR
            && b != REGION_TAG_CHN && b != REGION_TAG_TW ==> SaveFileRegion::of_byte(b)
            == SaveFileRegion::NTSC,
        b > 3 ==> PlayerCharacter::of_byte(b) == PlayerCharacter::Mario,
        b > 6 ==> PlayerPowerup::of_byte(b) == PlayerPowerup::NoPowerup,
        b > 6 ==> StartingMushroomKind::of_byte(b) == StartingMushroomKind::NoHouse,
        b > 2 ==> EnemyDirection::of_byte(b) == EnemyDirection::ToNextNode,
{
}

} // verus!

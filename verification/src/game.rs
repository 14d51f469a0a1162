//! Domain state decoded from raw memory reads: the coarse game status, the
//! current level, and the level-completion flag. Decoding is infallible by
//! design: a failed read or an unrecognized code collapses to a safe default
//! so that a poll tick never aborts.

use vstd::prelude::*;

verus! {

/// Coarse phase of the game, decoded from a 32-bit status code.
/// Any unrecognized code maps to `Unknown`.
#[derive(Copy, Clone, Debug, PartialEq, Eq, Structural)]
pub enum GameStatus {
    Intro,
    DemoMode,
    MainMenu,
    WorldMap,
    InGame,
    Unknown,
}

/// One variant per level, boss stage or secret stage, decoded from a 32-bit
/// level-id code. Unrecognized codes fall back to the first level.
#[allow(non_camel_case_types)]
#[derive(Copy, Clone, Debug, PartialEq, Eq, Structural)]
pub enum Level {
    L1_1,
    L1_2,
    L1_3,
    L1_B1,
    L1_S1,
    L1_4,
    L1_5,
    L1_6,
    L1_B2,
    L1_S2,
    L2_1,
    L2_2,
    L2_3,
    L2_B1,
    L2_S1,
    L2_4,
    L2_5,
    L2_6,
    L2_B2,
    L2_S2,
    L3_1,
    L3_2,
    L3_3,
    L3_B1,
    L3_S1,
    L3_4,
    L3_5,
    L3_6,
    L3_B2,
    L3_S2,
    L4_1,
    L4_2,
    L4_3,
    L4_B1,
    L4_S1,
    L4_4,
    L4_5,
    L4_6,
    L4_B2,
    L4_S2,
    L5_1,
    L5_2,
    L5_3,
    L5_4,
    L5_B1,
}

/// How many levels the game has.
pub const LEVEL_COUNT: usize = 45;

/// The position of a level in the fixed enumeration order, used to key the
/// per-level configuration table.
pub open spec fn level_index_spec(l: Level) -> int {
    match l {
        Level::L1_1 => 0,
        Level::L1_2 => 1,
        Level::L1_3 => 2,
        Level::L1_B1 => 3,
        Level::L1_S1 => 4,
        Level::L1_4 => 5,
        Level::L1_5 => 6,
        Level::L1_6 => 7,
        Level::L1_B2 => 8,
        Level::L1_S2 => 9,
        Level::L2_1 => 10,
        Level::L2_2 => 11,
        Level::L2_3 => 12,
        Level::L2_B1 => 13,
        Level::L2_S1 => 14,
        Level::L2_4 => 15,
        Level::L2_5 => 16,
        Level::L2_6 => 17,
        Level::L2_B2 => 18,
        Level::L2_S2 => 19,
        Level::L3_1 => 20,
        Level::L3_2 => 21,
        Level::L3_3 => 22,
        Level::L3_B1 => 23,
        Level::L3_S1 => 24,
        Level::L3_4 => 25,
        Level::L3_5 => 26,
        Level::L3_6 => 27,
        Level::L3_B2 => 28,
        Level::L3_S2 => 29,
        Level::L4_1 => 30,
        Level::L4_2 => 31,
        Level::L4_3 => 32,
        Level::L4_B1 => 33,
        Level::L4_S1 => 34,
        Level::L4_4 => 35,
        Level::L4_5 => 36,
        Level::L4_6 => 37,
        Level::L4_B2 => 38,
        Level::L4_S2 => 39,
        Level::L5_1 => 40,
        Level::L5_2 => 41,
        Level::L5_3 => 42,
        Level::L5_4 => 43,
        Level::L5_B1 => 44,
    }
}

/// Two distinct levels never share an index, so a table keyed by the index
/// keys each level separately.
pub proof fn lemma_level_index_injective(a: Level, b: Level)
    ensures
        level_index_spec(a) == level_index_spec(b) ==> a == b,
{
}

impl Level {
    /// The position of this level in the fixed enumeration order.
    pub fn index(self) -> (i: usize)
        ensures
            i == level_index_spec(self),
            i < LEVEL_COUNT,
    {
        match self {
            Level::L1_1 => 0,
            Level::L1_2 => 1,
            Level::L1_3 => 2,
            Level::L1_B1 => 3,
            Level::L1_S1 => 4,
            Level::L1_4 => 5,
            Level::L1_5 => 6,
            Level::L1_6 => 7,
            Level::L1_B2 => 8,
            Level::L1_S2 => 9,
            Level::L2_1 => 10,
            Level::L2_2 => 11,
            Level::L2_3 => 12,
            Level::L2_B1 => 13,
            Level::L2_S1 => 14,
            Level::L2_4 => 15,
            Level::L2_5 => 16,
            Level::L2_6 => 17,
            Level::L2_B2 => 18,
            Level::L2_S2 => 19,
            Level::L3_1 => 20,
            Level::L3_2 => 21,
            Level::L3_3 => 22,
            Level::L3_B1 => 23,
            Level::L3_S1 => 24,
            Level::L3_4 => 25,
            Level::L3_5 => 26,
            Level::L3_6 => 27,
            Level::L3_B2 => 28,
            Level::L3_S2 => 29,
            Level::L4_1 => 30,
            Level::L4_2 => 31,
            Level::L4_3 => 32,
            Level::L4_B1 => 33,
            Level::L4_S1 => 34,
            Level::L4_4 => 35,
            Level::L4_5 => 36,
            Level::L4_6 => 37,
            Level::L4_B2 => 38,
            Level::L4_S2 => 39,
            Level::L5_1 => 40,
            Level::L5_2 => 41,
            Level::L5_3 => 42,
            Level::L5_4 => 43,
            Level::L5_B1 => 44,
        }
    }
}

/// The meaning of a raw status code.
pub open spec fn status_of_code(code: u32) -> GameStatus {
    if code == 2 {
        GameStatus::DemoMode
    } else if code == 3 {
        GameStatus::MainMenu
    } else if code == 5 {
        GameStatus::InGame
    } else if code == 8 {
        GameStatus::WorldMap
    } else if code == 12 {
        GameStatus::Intro
    } else {
        GameStatus::Unknown
    }
}

/// Whether a raw status code names a known game phase.
pub open spec fn status_code_recognized(code: u32) -> bool {
    code == 2 || code == 3 || code == 5 || code == 8 || code == 12
}

/// What a raw status read decodes to: a failed read (`None`) collapses to
/// `Unknown` rather than surfacing an error.
pub open spec fn decoded_status_spec(raw: Option<u32>) -> GameStatus {
    match raw {
        Some(code) => status_of_code(code),
        None => GameStatus::Unknown,
    }
}

/// Decodes a raw status read.
pub fn decode_status(raw: Option<u32>) -> (r: GameStatus)
    ensures
        r == decoded_status_spec(raw),
        (match raw {
            Some(code) => !status_code_recognized(code),
            None => true,
        }) ==> r == GameStatus::Unknown,
{
    match raw {
        Some(2) => GameStatus::DemoMode,
        Some(3) => GameStatus::MainMenu,
        Some(5) => GameStatus::InGame,
        Some(8) => GameStatus::WorldMap,
        Some(12) => GameStatus::Intro,
        _ => GameStatus::Unknown,
    }
}

/// The meaning of a raw level-id code. Codes outside the known range fall
/// back to the first level; this is a deliberate resilience policy of the
/// tracker, not an error path.
pub open spec fn level_of_code(code: u32) -> Level {
    if code == 10 {
        Level::L1_1
    } else if code == 11 {
        Level::L1_2
    } else if code == 12 {
        Level::L1_3
    } else if code == 13 {
        Level::L1_B1
    } else if code == 14 {
        Level::L1_4
    } else if code == 15 {
        Level::L1_5
    } else if code == 16 {
        Level::L1_6
    } else if code == 17 {
        Level::L1_B2
    } else if code == 18 {
        Level::L1_S1
    } else if code == 19 {
        Level::L1_S2
    } else if code == 20 {
        Level::L2_1
    } else if code == 21 {
        Level::L2_2
    } else if code == 22 {
        Level::L2_3
    } else if code == 23 {
        Level::L2_B1
    } else if code == 24 {
        Level::L2_4
    } else if code == 25 {
        Level::L2_5
    } else if code == 26 {
        Level::L2_6
    } else if code == 27 {
        Level::L2_B2
    } else if code == 28 {
        Level::L2_S1
    } else if code == 29 {
        Level::L2_S2
    } else if code == 30 {
        Level::L3_1
    } else if code == 31 {
        Level::L3_2
    } else if code == 32 {
        Level::L3_3
    } else if code == 33 {
        Level::L3_B1
    } else if code == 34 {
        Level::L3_4
    } else if code == 35 {
        Level::L3_5
    } else if code == 36 {
        Level::L3_6
    } else if code == 37 {
        Level::L3_B2
    } else if code == 38 {
        Level::L3_S1
    } else if code == 39 {
        Level::L3_S2
    } else if code == 40 {
        Level::L4_1
    } else if code == 41 {
        Level::L4_2
    } else if code == 42 {
        Level::L4_3
    } else if code == 43 {
        Level::L4_B1
    } else if code == 44 {
        Level::L4_4
    } else if code == 45 {
        Level::L4_5
    } else if code == 46 {
        Level::L4_6
    } else if code == 47 {
        Level::L4_B2
    } else if code == 48 {
        Level::L4_S1
    } else if code == 49 {
        Level::L4_S2
    } else if code == 50 {
        Level::L5_1
    } else if code == 51 {
        Level::L5_2
    } else if code == 52 {
        Level::L5_3
    } else if code == 53 {
        Level::L5_4
    } else if code == 54 {
        Level::L5_B1
    } else {
        Level::L1_1
    }
}

/// Whether a raw level-id code names a known level.
pub open spec fn level_code_recognized(code: u32) -> bool {
    10 <= code <= 54
}

/// What a raw level-id read decodes to: a failed read (`None`) and an
/// unrecognized code both fall back to the first level.
pub open spec fn decoded_level_spec(raw: Option<u32>) -> Level {
    match raw {
        Some(code) => level_of_code(code),
        None => Level::L1_1,
    }
}

/// Decodes a raw level-id read.
pub fn decode_level(raw: Option<u32>) -> (r: Level)
    ensures
        r == decoded_level_spec(raw),
        (match raw {
            Some(code) => !level_code_recognized(code),
            None => true,
        }) ==> r == Level::L1_1,
{
    match raw {
        Some(10) => Level::L1_1,
        Some(11) => Level::L1_2,
        Some(12) => Level::L1_3,
        Some(13) => Level::L1_B1,
        Some(14) => Level::L1_4,
        Some(15) => Level::L1_5,
        Some(16) => Level::L1_6,
        Some(17) => Level::L1_B2,
        Some(18) => Level::L1_S1,
        Some(19) => Level::L1_S2,
        Some(20) => Level::L2_1,
        Some(21) => Level::L2_2,
        Some(22) => Level::L2_3,
        Some(23) => Level::L2_B1,
        Some(24) => Level::L2_4,
        Some(25) => Level::L2_5,
        Some(26) => Level::L2_6,
        Some(27) => Level::L2_B2,
        Some(28) => Level::L2_S1,
        Some(29) => Level::L2_S2,
        Some(30) => Level::L3_1,
        Some(31) => Level::L3_2,
        Some(32) => Level::L3_3,
        Some(33) => Level::L3_B1,
        Some(34) => Level::L3_4,
        Some(35) => Level::L3_5,
        Some(36) => Level::L3_6,
        Some(37) => Level::L3_B2,
        Some(38) => Level::L3_S1,
        Some(39) => Level::L3_S2,
        Some(40) => Level::L4_1,
        Some(41) => Level::L4_2,
        Some(42) => Level::L4_3,
        Some(43) => Level::L4_B1,
        Some(44) => Level::L4_4,
        Some(45) => Level::L4_5,
        Some(46) => Level::L4_6,
        Some(47) => Level::L4_B2,
        Some(48) => Level::L4_S1,
        Some(49) => Level::L4_S2,
        Some(50) => Level::L5_1,
        Some(51) => Level::L5_2,
        Some(52) => Level::L5_3,
        Some(53) => Level::L5_4,
        Some(54) => Level::L5_B1,
        _ => Level::L1_1,
    }
}

/// What a raw completion-flag read decodes to: nonzero means the
/// level-complete screen is up; a failed read collapses to `false`.
pub open spec fn decoded_flag_spec(raw: Option<u8>) -> bool {
    match raw {
        Some(byte) => byte != 0,
        None => false,
    }
}

/// Decodes a raw completion-flag read.
pub fn decode_flag(raw: Option<u8>) -> (r: bool)
    ensures
        r == decoded_flag_spec(raw),
{
    match raw {
        Some(byte) => byte != 0,
        None => false,
    }
}

} // verus!

//! The per-tick sampler: it takes the three raw memory reads of a poll tick
//! (each already collapsed to `Some(value)` or `None` by the host glue),
//! decodes them, and pushes the decoded values into the watchers. The update
//! is infallible: a failed read becomes the default decoded value and the
//! tick proceeds.

use vstd::prelude::*;

use crate::game::decode_flag;
use crate::game::decode_level;
use crate::game::decode_status;
use crate::game::decoded_flag_spec;
use crate::game::decoded_level_spec;
use crate::game::decoded_status_spec;
use crate::game::GameStatus;
use crate::game::Level;
use crate::watcher::Watcher;

verus! {

/// The three watchers of one attached session: current level, completion
/// flag, and game status. They are created empty at attach time and fed
/// once per poll tick.
pub struct Watchers {
    pub level: Watcher<Level>,
    pub level_complete_flag: Watcher<bool>,
    pub game_status: Watcher<GameStatus>,
}

impl Watchers {
    /// Fresh watchers for a newly attached session: none holds a sample yet.
    pub fn new() -> (w: Watchers)
        ensures
            w.level.pair is None,
            w.level_complete_flag.pair is None,
            w.game_status.pair is None,
    {
        Watchers {
            level: Watcher::new(),
            level_complete_flag: Watcher::new(),
            game_status: Watcher::new(),
        }
    }
}

/// The watcher state that one poll tick's raw reads produce from `w`: each
/// raw value is decoded and pushed into its watcher.
pub open spec fn sampled_spec(
    w: Watchers,
    status_raw: Option<u32>,
    level_raw: Option<u32>,
    flag_raw: Option<u8>,
) -> Watchers {
    Watchers {
        level: w.level.push_spec(decoded_level_spec(level_raw)),
        level_complete_flag: w.level_complete_flag.push_spec(decoded_flag_spec(flag_raw)),
        game_status: w.game_status.push_spec(decoded_status_spec(status_raw)),
    }
}

/// Runs one sampling step: decodes the three raw reads of this tick and
/// pushes each decoded value into its watcher. This always runs first in a
/// tick, before any decision is evaluated, and runs whatever the timer
/// state is.
pub fn update_watchers(
    w: &mut Watchers,
    status_raw: Option<u32>,
    level_raw: Option<u32>,
    flag_raw: Option<u8>,
)
    ensures
        final(w).level == old(w).level.push_spec(decoded_level_spec(level_raw)),
        final(w).level_complete_flag == old(w).level_complete_flag.push_spec(
            decoded_flag_spec(flag_raw),
        ),
        final(w).game_status == old(w).game_status.push_spec(decoded_status_spec(status_raw)),
        *final(w) == sampled_spec(*old(w), status_raw, level_raw, flag_raw),
{
    w.game_status.update(decode_status(status_raw));
    w.level_complete_flag.update(decode_flag(flag_raw));
    w.level.update(decode_level(level_raw));
}

} // verus!

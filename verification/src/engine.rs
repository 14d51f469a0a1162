//! The split decision engine: pure functions over the watchers and the
//! configuration that decide, once per tick, whether to start the timer,
//! whether to split, whether to reset, whether game time should pause, and
//! whether to override game time. The last three are reserved extension
//! points that currently always decline.

use vstd::prelude::*;

use crate::config::Config;
use crate::game::GameStatus;
use crate::game::Level;
use crate::locator::WatchedAddresses;
use crate::sampler::Watchers;

verus! {

/// Whether the completion flag transitioned from unset to set this tick.
pub open spec fn completion_edge_spec(w: Watchers) -> bool {
    w.level_complete_flag.changed_from_to_spec(false, true)
}

/// When the timer should start: auto-start is enabled, the game status
/// transitioned from the main menu to the world map, and the current level
/// is the first level. Watchers that hold no pair yet decide against
/// starting, never fail.
pub open spec fn start_spec(w: Watchers, c: Config) -> bool {
    &&& c.auto_start_spec()
    &&& w.game_status.changed_from_to_spec(GameStatus::MainMenu, GameStatus::WorldMap)
    &&& w.level.pair matches Some(p) && p.current == Level::L1_1
}

/// When the timer should split: the game is in play, the completion flag
/// transitioned from unset to set, and splitting is enabled for the level
/// held before this tick's update (the level being exited, not entered).
/// Watchers that hold no pair yet decide against splitting, never fail.
pub open spec fn split_spec(w: Watchers, c: Config) -> bool {
    &&& w.game_status.pair matches Some(p) && p.current == GameStatus::InGame
    &&& completion_edge_spec(w)
    &&& w.level.pair matches Some(q) && c.split_enabled_spec(q.old)
}

/// Decides whether to start the timer. Evaluated only while the external
/// timer is not running.
pub fn start(w: &Watchers, c: &Config) -> (r: bool)
    ensures
        r == start_spec(*w, *c),
{
    if !c.auto_start() {
        return false;
    }
    let status_edge = match &w.game_status.pair {
        Some(p) => p.changed_from_to(&GameStatus::MainMenu, &GameStatus::WorldMap),
        None => false,
    };
    let on_first_level = match &w.level.pair {
        Some(p) => p.current == Level::L1_1,
        None => false,
    };
    status_edge && on_first_level
}

/// Decides whether to split. Evaluated only while the external timer is
/// running or paused.
pub fn split(w: &Watchers, c: &Config) -> (r: bool)
    requires
        c.wf(),
    ensures
        r == split_spec(*w, *c),
{
    let in_game = match &w.game_status.pair {
        Some(p) => p.current == GameStatus::InGame,
        None => false,
    };
    let flag_edge = match &w.level_complete_flag.pair {
        Some(p) => p.changed_from_to(&false, &true),
        None => false,
    };
    let exited_enabled = match &w.level.pair {
        Some(p) => c.split_enabled(p.old),
        None => false,
    };
    in_game && flag_edge && exited_enabled
}

/// When the timer should reset: a reserved extension point that currently
/// never fires.
pub open spec fn reset_spec(w: Watchers, c: Config) -> bool {
    false
}

/// Whether the game is loading: a reserved extension point that currently
/// has no opinion.
pub open spec fn is_loading_spec(w: Watchers, c: Config) -> Option<bool> {
    None
}

/// A game-time override in nanoseconds: a reserved extension point that
/// currently has no opinion.
pub open spec fn game_time_spec(w: Watchers, c: Config, a: WatchedAddresses) -> Option<u64> {
    None
}

/// Decides whether to reset the timer. A reset suppresses a split in the
/// same tick.
pub fn reset(w: &Watchers, c: &Config) -> (r: bool)
    ensures
        r == reset_spec(*w, *c),
{
    let _ = w;
    let _ = c;
    false
}

/// Whether the game is loading: `Some(true)` pauses game-time accrual,
/// `Some(false)` resumes it, `None` leaves it alone.
pub fn is_loading(w: &Watchers, c: &Config) -> (r: Option<bool>)
    ensures
        r == is_loading_spec(*w, *c),
{
    let _ = w;
    let _ = c;
    None
}

/// A game-time override in nanoseconds, applied to the timer when present.
pub fn game_time(w: &Watchers, c: &Config, a: &WatchedAddresses) -> (r: Option<u64>)
    ensures
        r == game_time_spec(*w, *c, *a),
{
    let _ = w;
    let _ = c;
    let _ = a;
    None
}

/// Split gating law. A split never fires without an unset-to-set edge of
/// the completion flag, whatever the configuration says; and it fires
/// exactly when the game is in play, the flag shows that edge, and the
/// configuration enables splitting for the level held before this tick's
/// update.
pub proof fn lemma_split_gating(w: Watchers, c: Config)
    ensures
        !completion_edge_spec(w) ==> !split_spec(w, c),
        split_spec(w, c) <==> {
            &&& w.game_status.pair matches Some(p) && p.current == GameStatus::InGame
            &&& completion_edge_spec(w)
            &&& w.level.pair matches Some(q) && c.split_enabled_spec(q.old)
        },
{
}

/// Start gating law. The timer never auto-starts unless auto-start is
/// enabled, the game status transitioned from the main menu to the world
/// map, and the current level is the first level; and it starts exactly
/// when all three hold.
pub proof fn lemma_start_gating(w: Watchers, c: Config)
    ensures
        start_spec(w, c) ==> c.auto_start_spec(),
        start_spec(w, c) ==> w.game_status.changed_from_to_spec(
            GameStatus::MainMenu,
            GameStatus::WorldMap,
        ),
        start_spec(w, c) ==> (w.level.pair matches Some(p) && p.current == Level::L1_1),
        start_spec(w, c) <==> {
            &&& c.auto_start_spec()
            &&& w.game_status.changed_from_to_spec(GameStatus::MainMenu, GameStatus::WorldMap)
            &&& w.level.pair matches Some(p) && p.current == Level::L1_1
        },
{
}

} // verus!

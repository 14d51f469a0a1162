//! One poll tick of the timer-driving state machine. The host glue samples
//! the watchers first (always, whatever the timer state), then asks this
//! module which timer commands to issue, in order. The ordering rules are
//! load-bearing and are fixed by the specification functions here: while
//! the timer runs, loading and game-time adjustments come before reset or
//! split, and a reset suppresses the split of the same tick; while the
//! timer is stopped, a start is followed by pausing game time before the
//! loading check is consulted once more.

use vstd::prelude::*;

use crate::config::Config;
use crate::engine::game_time;
use crate::engine::game_time_spec;
use crate::engine::is_loading;
use crate::engine::is_loading_spec;
use crate::engine::reset;
use crate::engine::reset_spec;
use crate::engine::split;
use crate::engine::split_spec;
use crate::engine::start;
use crate::engine::start_spec;
use crate::locator::WatchedAddresses;
use crate::sampler::Watchers;

verus! {

/// The externally owned timer's lifecycle state, read once per tick and
/// never written by this crate.
#[derive(Copy, Clone, Debug, PartialEq, Eq, Structural)]
pub enum TimerState {
    NotRunning,
    Running,
    Paused,
}

/// One command issued to the external timer. `SetGameTime` carries
/// nanoseconds.
#[derive(Copy, Clone, Debug, PartialEq, Eq, Structural)]
pub enum TimerCommand {
    Start,
    Split,
    Reset,
    PauseGameTime,
    ResumeGameTime,
    SetGameTime(u64),
}

/// The game-time adjustment the loading decision calls for: pause while
/// loading, resume while not, nothing when it has no opinion.
pub open spec fn loading_commands_spec(w: Watchers, c: Config) -> Seq<TimerCommand> {
    match is_loading_spec(w, c) {
        Some(true) => seq![TimerCommand::PauseGameTime],
        Some(false) => seq![TimerCommand::ResumeGameTime],
        None => Seq::empty(),
    }
}

/// The game-time override command, when the engine has one.
pub open spec fn game_time_commands_spec(
    w: Watchers,
    c: Config,
    a: WatchedAddresses,
) -> Seq<TimerCommand> {
    match game_time_spec(w, c, a) {
        Some(t) => seq![TimerCommand::SetGameTime(t)],
        None => Seq::empty(),
    }
}

/// The commands of a tick in which the timer is running or paused: the
/// loading adjustment, then the game-time override, then a reset if the
/// engine calls for one — which suppresses the split — else a split if the
/// engine calls for that.
pub open spec fn running_commands_spec(
    w: Watchers,
    c: Config,
    a: WatchedAddresses,
) -> Seq<TimerCommand> {
    loading_commands_spec(w, c) + game_time_commands_spec(w, c, a) + (if reset_spec(w, c) {
        seq![TimerCommand::Reset]
    } else if split_spec(w, c) {
        seq![TimerCommand::Split]
    } else {
        Seq::empty()
    })
}

/// The commands of a tick in which the timer is not running: on a start
/// decision, the start itself, then pausing game time (game time is paused
/// by default at start), then one more loading check; otherwise nothing.
pub open spec fn not_running_commands_spec(w: Watchers, c: Config) -> Seq<TimerCommand> {
    if start_spec(w, c) {
        seq![TimerCommand::Start, TimerCommand::PauseGameTime] + loading_commands_spec(w, c)
    } else {
        Seq::empty()
    }
}

/// The commands one tick issues, given the timer state read at the top of
/// the tick and the watchers as this tick's sampling left them.
pub open spec fn tick_commands_spec(
    state: TimerState,
    w: Watchers,
    c: Config,
    a: WatchedAddresses,
) -> Seq<TimerCommand> {
    match state {
        TimerState::Running => running_commands_spec(w, c, a),
        TimerState::Paused => running_commands_spec(w, c, a),
        TimerState::NotRunning => not_running_commands_spec(w, c),
    }
}

/// Evaluates the decision engine for one tick and returns the timer
/// commands to issue, in issue order. The caller must already have run the
/// sampler on `w` for this tick.
pub fn tick_commands(
    state: TimerState,
    w: &Watchers,
    c: &Config,
    a: &WatchedAddresses,
) -> (cmds: Vec<TimerCommand>)
    requires
        c.wf(),
    ensures
        cmds@ == tick_commands_spec(state, *w, *c, *a),
{
    let mut cmds: Vec<TimerCommand> = Vec::new();
    match state {
        TimerState::Running | TimerState::Paused => {
            match is_loading(w, c) {
                Some(true) => cmds.push(TimerCommand::PauseGameTime),
                Some(false) => cmds.push(TimerCommand::ResumeGameTime),
                None => {},
            }
            match game_time(w, c, a) {
                Some(t) => cmds.push(TimerCommand::SetGameTime(t)),
                None => {},
            }
            if reset(w, c) {
                cmds.push(TimerCommand::Reset);
            } else if split(w, c) {
                cmds.push(TimerCommand::Split);
            }
        },
        TimerState::NotRunning => {
            if start(w, c) {
                cmds.push(TimerCommand::Start);
                cmds.push(TimerCommand::PauseGameTime);
                match is_loading(w, c) {
                    Some(true) => cmds.push(TimerCommand::PauseGameTime),
                    Some(false) => cmds.push(TimerCommand::ResumeGameTime),
                    None => {},
                }
            }
        },
    }
    proof {
        assert(cmds@ =~= tick_commands_spec(state, *w, *c, *a));
    }
    cmds
}

} // verus!

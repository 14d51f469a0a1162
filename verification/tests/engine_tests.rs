use croc_splitter::config::Config;
use croc_splitter::engine::game_time;
use croc_splitter::engine::is_loading;
use croc_splitter::engine::reset;
use croc_splitter::engine::split;
use croc_splitter::engine::start;
use croc_splitter::game::GameStatus;
use croc_splitter::game::Level;
use croc_splitter::locator::WatchedAddresses;
use croc_splitter::sampler::Watchers;
use croc_splitter::tick::tick_commands;
use croc_splitter::tick::TimerCommand;
use croc_splitter::tick::TimerState;
use croc_splitter::watcher::Pair;
use croc_splitter::watcher::Watcher;

fn watchers(
    status: Option<(GameStatus, GameStatus)>,
    flag: Option<(bool, bool)>,
    level: Option<(Level, Level)>,
) -> Watchers {
    Watchers {
        game_status: Watcher {
            pair: status.map(|(old, current)| Pair { old, current }),
        },
        level_complete_flag: Watcher {
            pair: flag.map(|(old, current)| Pair { old, current }),
        },
        level: Watcher {
            pair: level.map(|(old, current)| Pair { old, current }),
        },
    }
}

fn addresses() -> WatchedAddresses {
    WatchedAddresses { level_id: 0x1000, game_status: 0x2000, level_complete_flag: 0x3000 }
}

#[test]
fn normal_split_fires() {
    let w = watchers(
        Some((GameStatus::InGame, GameStatus::InGame)),
        Some((false, true)),
        Some((Level::L1_1, Level::L1_2)),
    );
    let c = Config::new();
    assert!(split(&w, &c));
}

#[test]
fn split_suppressed_by_configuration() {
    let w = watchers(
        Some((GameStatus::InGame, GameStatus::InGame)),
        Some((false, true)),
        Some((Level::L1_1, Level::L1_2)),
    );
    let mut c = Config::new();
    c.set_split_enabled(Level::L1_1, false);
    assert!(!split(&w, &c));
}

#[test]
fn split_keys_on_the_exited_level_not_the_entered_one() {
    let w = watchers(
        Some((GameStatus::InGame, GameStatus::InGame)),
        Some((false, true)),
        Some((Level::L1_1, Level::L1_2)),
    );
    let mut c = Config::new();
    // Disabling the entered level must not suppress the split.
    c.set_split_enabled(Level::L1_2, false);
    assert!(split(&w, &c));
}

#[test]
fn split_needs_a_rising_flag_edge() {
    let c = Config::new();
    for (old, current) in [(false, false), (true, true), (true, false)] {
        let w = watchers(
            Some((GameStatus::InGame, GameStatus::InGame)),
            Some((old, current)),
            Some((Level::L1_1, Level::L1_2)),
        );
        assert!(!split(&w, &c));
    }
}

#[test]
fn split_needs_in_game_status() {
    let c = Config::new();
    let w = watchers(
        Some((GameStatus::InGame, GameStatus::WorldMap)),
        Some((false, true)),
        Some((Level::L1_1, Level::L1_2)),
    );
    assert!(!split(&w, &c));
}

#[test]
fn split_without_any_sample_is_false() {
    let c = Config::new();
    assert!(!split(&watchers(None, None, None), &c));
    // A missing level pair alone also evaluates to false.
    let w = watchers(
        Some((GameStatus::InGame, GameStatus::InGame)),
        Some((false, true)),
        None,
    );
    assert!(!split(&w, &c));
}

#[test]
fn start_fires_on_menu_to_world_map_on_first_level() {
    let w = watchers(
        Some((GameStatus::MainMenu, GameStatus::WorldMap)),
        Some((false, false)),
        Some((Level::L1_1, Level::L1_1)),
    );
    let c = Config::new();
    assert!(start(&w, &c));
}

#[test]
fn start_requires_auto_start_enabled() {
    let w = watchers(
        Some((GameStatus::MainMenu, GameStatus::WorldMap)),
        Some((false, false)),
        Some((Level::L1_1, Level::L1_1)),
    );
    let mut c = Config::new();
    c.set_auto_start(false);
    assert!(!start(&w, &c));
}

#[test]
fn start_requires_the_exact_status_edge() {
    let c = Config::new();
    for (old, current) in [
        (GameStatus::WorldMap, GameStatus::MainMenu),
        (GameStatus::MainMenu, GameStatus::MainMenu),
        (GameStatus::Intro, GameStatus::WorldMap),
    ] {
        let w = watchers(
            Some((old, current)),
            Some((false, false)),
            Some((Level::L1_1, Level::L1_1)),
        );
        assert!(!start(&w, &c));
    }
}

#[test]
fn start_requires_the_first_level() {
    let c = Config::new();
    let w = watchers(
        Some((GameStatus::MainMenu, GameStatus::WorldMap)),
        Some((false, false)),
        Some((Level::L1_1, Level::L1_2)),
    );
    assert!(!start(&w, &c));
}

#[test]
fn reserved_extension_points_decline() {
    let w = watchers(None, None, None);
    let c = Config::new();
    assert!(!reset(&w, &c));
    assert_eq!(is_loading(&w, &c), None);
    assert_eq!(game_time(&w, &c, &addresses()), None);
}

#[test]
fn config_defaults_enable_everything() {
    let c = Config::new();
    assert!(c.auto_start());
    assert!(c.split_enabled(Level::L1_1));
    assert!(c.split_enabled(Level::L3_S2));
    assert!(c.split_enabled(Level::L5_B1));
}

#[test]
fn config_built_through_the_library_is_well_formed() {
    let mut c = Config::new();
    assert!(c.is_wf());
    c.set_split_enabled(Level::L4_B2, false);
    c.set_auto_start(false);
    assert!(c.is_wf());
}

#[test]
fn config_toggles_one_level_at_a_time() {
    let mut c = Config::new();
    c.set_split_enabled(Level::L2_B1, false);
    assert!(!c.split_enabled(Level::L2_B1));
    assert!(c.split_enabled(Level::L2_1));
    assert!(c.split_enabled(Level::L2_S1));
    c.set_split_enabled(Level::L2_B1, true);
    assert!(c.split_enabled(Level::L2_B1));
}

#[test]
fn start_sequence_issues_start_then_pause() {
    let w = watchers(
        Some((GameStatus::MainMenu, GameStatus::WorldMap)),
        Some((false, false)),
        Some((Level::L1_2, Level::L1_1)),
    );
    let c = Config::new();
    let cmds = tick_commands(TimerState::NotRunning, &w, &c, &addresses());
    assert_eq!(cmds, vec![TimerCommand::Start, TimerCommand::PauseGameTime]);
}

#[test]
fn not_running_without_start_issues_nothing() {
    let w = watchers(
        Some((GameStatus::MainMenu, GameStatus::MainMenu)),
        Some((false, false)),
        Some((Level::L1_1, Level::L1_1)),
    );
    let c = Config::new();
    let cmds = tick_commands(TimerState::NotRunning, &w, &c, &addresses());
    assert!(cmds.is_empty());
}

#[test]
fn running_tick_with_split_issues_split_only() {
    let w = watchers(
        Some((GameStatus::InGame, GameStatus::InGame)),
        Some((false, true)),
        Some((Level::L1_1, Level::L1_2)),
    );
    let c = Config::new();
    let cmds = tick_commands(TimerState::Running, &w, &c, &addresses());
    assert_eq!(cmds, vec![TimerCommand::Split]);
    let cmds = tick_commands(TimerState::Paused, &w, &c, &addresses());
    assert_eq!(cmds, vec![TimerCommand::Split]);
}

#[test]
fn running_tick_without_split_issues_nothing() {
    let w = watchers(
        Some((GameStatus::InGame, GameStatus::InGame)),
        Some((true, true)),
        Some((Level::L1_1, Level::L1_2)),
    );
    let c = Config::new();
    let cmds = tick_commands(TimerState::Running, &w, &c, &addresses());
    assert!(cmds.is_empty());
}

#[test]
fn start_decision_is_not_consulted_while_running() {
    // A start-shaped state during a running tick issues no start command.
    let w = watchers(
        Some((GameStatus::MainMenu, GameStatus::WorldMap)),
        Some((false, false)),
        Some((Level::L1_1, Level::L1_1)),
    );
    let c = Config::new();
    let cmds = tick_commands(TimerState::Running, &w, &c, &addresses());
    assert!(cmds.is_empty());
}

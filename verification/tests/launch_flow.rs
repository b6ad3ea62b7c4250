use rlbot_launcher::launch::{Action, Event, Launch, LaunchOptions, Stage};

fn opts(offline: bool, online: bool) -> LaunchOptions {
    LaunchOptions { force_update_gui: false, force_update_server: false, offline, online }
}

/// Runs a launch on the given reports and returns every action it named.
fn run(options: LaunchOptions, events: &[Event]) -> (Launch, Vec<Action>) {
    let (mut launch, first) = Launch::start(options);
    let mut actions = vec![first];
    for e in events {
        actions.push(launch.step(*e));
    }
    (launch, actions)
}

#[test]
fn default_launch_checks_connection_first() {
    let (launch, action) = Launch::start(opts(false, false));
    assert_eq!(launch.stage, Stage::AwaitConnection);
    assert_eq!(action, Action::ProbeConnection);
}

#[test]
fn offline_mode_skips_connection_check() {
    let (launch, action) = Launch::start(opts(true, false));
    assert_eq!(action, Action::PrepareBinDir);
    assert!(!launch.online);
}

#[test]
fn online_mode_assumes_connection() {
    let (launch, action) = Launch::start(opts(false, true));
    assert_eq!(action, Action::PrepareBinDir);
    assert!(launch.online);
}

#[test]
fn full_online_launch_with_fresh_server() {
    let o = LaunchOptions { force_update_gui: true, force_update_server: false, offline: false, online: false };
    let (launch, actions) = run(
        o,
        &[
            Event::ConnectionProbed { online: true },
            Event::BinDirReady,
            Event::BinariesChecked { gui_exists: true, server_exists: true },
            Event::UpdatesChecked,
            Event::ServerProbed { running: false },
            Event::ServerBinaryChecked { exists: true },
            Event::ServerStartAttempted,
            Event::GuiExited,
            Event::ServerStopAttempted,
        ],
    );
    assert_eq!(
        actions,
        vec![
            Action::ProbeConnection,
            Action::PrepareBinDir,
            Action::CheckBinaries,
            Action::CheckForUpdates { force_gui: true, force_server: false },
            Action::ProbeServer,
            Action::CheckServerBinary,
            Action::StartServer,
            Action::RunGui,
            Action::StopServer,
            Action::Finish,
        ]
    );
    assert_eq!(launch.stage, Stage::Finished);
}

#[test]
fn offline_with_binaries_present_skips_updates() {
    let (_, actions) = run(
        opts(false, false),
        &[
            Event::ConnectionProbed { online: false },
            Event::BinDirReady,
            Event::BinariesChecked { gui_exists: true, server_exists: true },
        ],
    );
    assert_eq!(actions.last(), Some(&Action::ProbeServer));
}

#[test]
fn missing_binary_triggers_updates_even_offline() {
    for (gui, server) in [(false, true), (true, false), (false, false)] {
        let (_, actions) = run(
            opts(true, false),
            &[Event::BinDirReady, Event::BinariesChecked { gui_exists: gui, server_exists: server }],
        );
        assert_eq!(actions.last(), Some(&Action::CheckForUpdates { force_gui: false, force_server: false }));
    }
}

#[test]
fn running_server_is_left_alone() {
    let (launch, actions) = run(
        opts(false, true),
        &[
            Event::BinDirReady,
            Event::BinariesChecked { gui_exists: true, server_exists: true },
            Event::UpdatesChecked,
            Event::ServerProbed { running: true },
            Event::GuiExited,
        ],
    );
    assert_eq!(actions[3..], [Action::ProbeServer, Action::RunGui, Action::Finish]);
    assert!(!actions.contains(&Action::StartServer));
    assert!(!actions.contains(&Action::StopServer));
    assert!(launch.server_was_running);
}

#[test]
fn missing_server_binary_still_runs_gui_and_stops() {
    let (_, actions) = run(
        opts(true, false),
        &[
            Event::BinDirReady,
            Event::BinariesChecked { gui_exists: true, server_exists: false },
            Event::UpdatesChecked,
            Event::ServerProbed { running: false },
            Event::ServerBinaryChecked { exists: false },
            Event::GuiExited,
            Event::ServerStopAttempted,
        ],
    );
    assert!(!actions.contains(&Action::StartServer));
    assert_eq!(actions[5..], [Action::RunGui, Action::StopServer, Action::Finish]);
}

#[test]
fn stray_report_changes_nothing() {
    let (mut launch, _) = Launch::start(opts(false, false));
    let before = launch;
    let action = launch.step(Event::GuiExited);
    assert_eq!(launch, before);
    assert_eq!(action, Action::ProbeConnection);
    let (mut done, _) = run(opts(true, false), &[]);
    done.stage = Stage::Finished;
    let before = done;
    assert_eq!(done.step(Event::BinDirReady), Action::Finish);
    assert_eq!(done, before);
}

#[test]
fn bin_dir_failure_fails_launch() {
    let (launch, actions) = run(opts(true, false), &[Event::BinDirFailed]);
    assert_eq!(actions, vec![Action::PrepareBinDir, Action::Fail]);
    assert_eq!(launch.stage, Stage::Failed);
}

#[test]
fn missing_log_dir_fails_before_starting_server() {
    let (_, actions) = run(
        opts(false, true),
        &[
            Event::BinDirReady,
            Event::BinariesChecked { gui_exists: true, server_exists: true },
            Event::UpdatesChecked,
            Event::ServerProbed { running: false },
            Event::ServerBinaryChecked { exists: true },
            Event::ServerLogDirFailed,
        ],
    );
    assert_eq!(actions.last(), Some(&Action::Fail));
}

#[test]
fn gui_failure_fails_without_stopping_server() {
    let (mut launch, actions) = run(
        opts(false, true),
        &[
            Event::BinDirReady,
            Event::BinariesChecked { gui_exists: true, server_exists: true },
            Event::UpdatesChecked,
            Event::ServerProbed { running: false },
            Event::ServerBinaryChecked { exists: true },
            Event::ServerStartAttempted,
            Event::GuiFailed,
        ],
    );
    assert_eq!(actions.last(), Some(&Action::Fail));
    assert!(!actions.contains(&Action::StopServer));
    assert_eq!(launch.step(Event::ServerStopAttempted), Action::Fail);
    assert_eq!(launch.stage, Stage::Failed);
}

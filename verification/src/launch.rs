//! The order in which a launch proceeds. The launcher alternates work outside
//! (probing the network, looking at files, downloading, running processes)
//! with decisions; the decisions are this state machine. Each step takes what
//! the last piece of outside work reported and names the next piece of work.

use vstd::prelude::*;

verus! {

/// The command-line options of the launcher.
#[derive(Debug, Clone, Copy, PartialEq, Eq, Structural)]
pub struct LaunchOptions {
    /// Force update the gui.
    pub force_update_gui: bool,
    /// Force update the server.
    pub force_update_server: bool,
    /// Run as if offline.
    pub offline: bool,
    /// Skip the internet connection check and pretend to be online.
    pub online: bool,
}

/// Where a launch stands: which report it waits for.
#[derive(Debug, Clone, Copy, PartialEq, Eq, Structural)]
pub enum Stage {
    AwaitConnection,
    AwaitBinDir,
    AwaitBinaries,
    AwaitUpdates,
    AwaitServerProbe,
    AwaitServerBinary,
    AwaitServerStart,
    AwaitGui,
    AwaitServerStop,
    Finished,
    /// The launch stopped on an error, which the launcher returns.
    Failed,
}

/// A launch in progress.
#[derive(Debug, Clone, Copy, PartialEq, Eq, Structural)]
pub struct Launch {
    pub stage: Stage,
    pub options: LaunchOptions,
    /// Whether the launcher counts as online.
    pub online: bool,
    /// Whether RLBotServer was already listening before the launcher looked.
    pub server_was_running: bool,
}

/// What a piece of outside work reported.
#[derive(Debug, Clone, Copy, PartialEq, Eq, Structural)]
pub enum Event {
    /// The internet connection check ended.
    ConnectionProbed { online: bool },
    /// The binary directory exists.
    BinDirReady,
    /// The binary directory could not be found or created.
    BinDirFailed,
    /// Whether the GUI and server binaries are in the binary directory.
    BinariesChecked { gui_exists: bool, server_exists: bool },
    /// The update pass over both binaries ended (its failures are only logged).
    UpdatesChecked,
    /// Whether something already listens on the RLBot sockets port.
    ServerProbed { running: bool },
    /// Whether the server binary is in the binary directory.
    ServerBinaryChecked { exists: bool },
    /// Starting the server was attempted (a failure is only logged).
    ServerStartAttempted,
    /// The log directory for the server's output could not be found, so the
    /// server was not started.
    ServerLogDirFailed,
    /// The GUI exited (with whatever status).
    GuiExited,
    /// The GUI could not be run at all.
    GuiFailed,
    /// Stopping the server was attempted (a failure is only logged).
    ServerStopAttempted,
}

/// The next piece of outside work.
#[derive(Debug, Clone, Copy, PartialEq, Eq, Structural)]
pub enum Action {
    ProbeConnection,
    PrepareBinDir,
    CheckBinaries,
    CheckForUpdates { force_gui: bool, force_server: bool },
    ProbeServer,
    CheckServerBinary,
    StartServer,
    RunGui,
    StopServer,
    Finish,
    /// End the launch with the error of the last piece of work.
    Fail,
}

/// What the options decide of the connection without a check: offline mode
/// counts as offline, online mode as online; otherwise the check decides.
pub open spec fn preset_connectivity(options: LaunchOptions) -> Option<bool> {
    if options.offline {
        Some(false)
    } else if options.online {
        Some(true)
    } else {
        None
    }
}

/// The launch as it begins.
pub open spec fn initial_launch(options: LaunchOptions) -> Launch {
    match preset_connectivity(options) {
        Some(online) => Launch {
            stage: Stage::AwaitBinDir,
            options,
            online,
            server_was_running: false,
        },
        None => Launch {
            stage: Stage::AwaitConnection,
            options,
            online: false,
            server_was_running: false,
        },
    }
}

/// The work that a launch waits on in each stage.
pub open spec fn pending_action(launch: Launch) -> Action {
    match launch.stage {
        Stage::AwaitConnection => Action::ProbeConnection,
        Stage::AwaitBinDir => Action::PrepareBinDir,
        Stage::AwaitBinaries => Action::CheckBinaries,
        Stage::AwaitUpdates => Action::CheckForUpdates {
            force_gui: launch.options.force_update_gui,
            force_server: launch.options.force_update_server,
        },
        Stage::AwaitServerProbe => Action::ProbeServer,
        Stage::AwaitServerBinary => Action::CheckServerBinary,
        Stage::AwaitServerStart => Action::StartServer,
        Stage::AwaitGui => Action::RunGui,
        Stage::AwaitServerStop => Action::StopServer,
        Stage::Finished => Action::Finish,
        Stage::Failed => Action::Fail,
    }
}

/// Whether `event` is the report that a launch in `stage` waits for.
pub open spec fn fits(stage: Stage, event: Event) -> bool {
    match (stage, event) {
        (Stage::AwaitConnection, Event::ConnectionProbed { .. }) => true,
        (Stage::AwaitBinDir, Event::BinDirReady) => true,
        (Stage::AwaitBinDir, Event::BinDirFailed) => true,
        (Stage::AwaitBinaries, Event::BinariesChecked { .. }) => true,
        (Stage::AwaitUpdates, Event::UpdatesChecked) => true,
        (Stage::AwaitServerProbe, Event::ServerProbed { .. }) => true,
        (Stage::AwaitServerBinary, Event::ServerBinaryChecked { .. }) => true,
        (Stage::AwaitServerStart, Event::ServerStartAttempted) => true,
        (Stage::AwaitServerStart, Event::ServerLogDirFailed) => true,
        (Stage::AwaitGui, Event::GuiExited) => true,
        (Stage::AwaitGui, Event::GuiFailed) => true,
        (Stage::AwaitServerStop, Event::ServerStopAttempted) => true,
        _ => false,
    }
}

/// The launch after `event`. A report that the stage does not wait for
/// changes nothing. Updates are checked whenever online or whenever either
/// binary is missing, so a fresh install still gets both binaries without a
/// connection; a server that was already running is neither started nor
/// stopped; a server that was not running is started if its binary is there,
/// and stopped once the GUI exits.
pub open spec fn next_launch(launch: Launch, event: Event) -> Launch {
    match (launch.stage, event) {
        (Stage::AwaitConnection, Event::ConnectionProbed { online }) => Launch {
            stage: Stage::AwaitBinDir,
            online,
            ..launch
        },
        (Stage::AwaitBinDir, Event::BinDirReady) => Launch { stage: Stage::AwaitBinaries, ..launch },
        (Stage::AwaitBinDir, Event::BinDirFailed) => Launch { stage: Stage::Failed, ..launch },
        (Stage::AwaitBinaries, Event::BinariesChecked { gui_exists, server_exists }) => Launch {
            stage: if launch.online || !gui_exists || !server_exists {
                Stage::AwaitUpdates
            } else {
                Stage::AwaitServerProbe
            },
            ..launch
        },
        (Stage::AwaitUpdates, Event::UpdatesChecked) => Launch {
            stage: Stage::AwaitServerProbe,
            ..launch
        },
        (Stage::AwaitServerProbe, Event::ServerProbed { running }) => Launch {
            stage: if running {
                Stage::AwaitGui
            } else {
                Stage::AwaitServerBinary
            },
            server_was_running: running,
            ..launch
        },
        (Stage::AwaitServerBinary, Event::ServerBinaryChecked { exists }) => Launch {
            stage: if exists {
                Stage::AwaitServerStart
            } else {
                Stage::AwaitGui
            },
            ..launch
        },
        (Stage::AwaitServerStart, Event::ServerStartAttempted) => Launch {
            stage: Stage::AwaitGui,
            ..launch
        },
        (Stage::AwaitServerStart, Event::ServerLogDirFailed) => Launch {
            stage: Stage::Failed,
            ..launch
        },
        (Stage::AwaitGui, Event::GuiFailed) => Launch { stage: Stage::Failed, ..launch },
        (Stage::AwaitGui, Event::GuiExited) => Launch {
            stage: if launch.server_was_running {
                Stage::Finished
            } else {
                Stage::AwaitServerStop
            },
            ..launch
        },
        (Stage::AwaitServerStop, Event::ServerStopAttempted) => Launch {
            stage: Stage::Finished,
            ..launch
        },
        _ => launch,
    }
}

impl Launch {
    /// Begin a launch with the given options, and name the first piece of work.
    pub fn start(options: LaunchOptions) -> (res: (Launch, Action))
        ensures
            res.0 == initial_launch(options),
            res.1 == pending_action(res.0),
    {
        let launch = if options.offline {
            Launch { stage: Stage::AwaitBinDir, options, online: false, server_was_running: false }
        } else if options.online {
            Launch { stage: Stage::AwaitBinDir, options, online: true, server_was_running: false }
        } else {
            Launch {
                stage: Stage::AwaitConnection,
                options,
                online: false,
                server_was_running: false,
            }
        };
        (launch, launch.pending())
    }

    /// The work that this launch waits on.
    pub fn pending(&self) -> (res: Action)
        ensures
            res == pending_action(*self),
    {
        match self.stage {
            Stage::AwaitConnection => Action::ProbeConnection,
            Stage::AwaitBinDir => Action::PrepareBinDir,
            Stage::AwaitBinaries => Action::CheckBinaries,
            Stage::AwaitUpdates => Action::CheckForUpdates {
                force_gui: self.options.force_update_gui,
                force_server: self.options.force_update_server,
            },
            Stage::AwaitServerProbe => Action::ProbeServer,
            Stage::AwaitServerBinary => Action::CheckServerBinary,
            Stage::AwaitServerStart => Action::StartServer,
            Stage::AwaitGui => Action::RunGui,
            Stage::AwaitServerStop => Action::StopServer,
            Stage::Finished => Action::Finish,
            Stage::Failed => Action::Fail,
        }
    }

    /// Take the report `event` of the last piece of work, and name the next one.
    pub fn step(&mut self, event: Event) -> (res: Action)
        ensures
            *final(self) == next_launch(*old(self), event),
            res == pending_action(*final(self)),
    {
        let next = match (self.stage, event) {
            (Stage::AwaitConnection, Event::ConnectionProbed { online }) => Launch {
                stage: Stage::AwaitBinDir,
                online,
                ..*self
            },
            (Stage::AwaitBinDir, Event::BinDirReady) => Launch {
                stage: Stage::AwaitBinaries,
                ..*self
            },
            (Stage::AwaitBinDir, Event::BinDirFailed) => Launch { stage: Stage::Failed, ..*self },
            (Stage::AwaitBinaries, Event::BinariesChecked { gui_exists, server_exists }) => {
                let stage = if self.online || !gui_exists || !server_exists {
                    Stage::AwaitUpdates
                } else {
                    Stage::AwaitServerProbe
                };
                Launch { stage, ..*self }
            },
            (Stage::AwaitUpdates, Event::UpdatesChecked) => Launch {
                stage: Stage::AwaitServerProbe,
                ..*self
            },
            (Stage::AwaitServerProbe, Event::ServerProbed { running }) => {
                let stage = if running {
                    Stage::AwaitGui
                } else {
                    Stage::AwaitServerBinary
                };
                Launch { stage, server_was_running: running, ..*self }
            },
            (Stage::AwaitServerBinary, Event::ServerBinaryChecked { exists }) => {
                let stage = if exists {
                    Stage::AwaitServerStart
                } else {
                    Stage::AwaitGui
                };
                Launch { stage, ..*self }
            },
            (Stage::AwaitServerStart, Event::ServerStartAttempted) => Launch {
                stage: Stage::AwaitGui,
                ..*self
            },
            (Stage::AwaitServerStart, Event::ServerLogDirFailed) => Launch {
                stage: Stage::Failed,
                ..*self
            },
            (Stage::AwaitGui, Event::GuiFailed) => Launch { stage: Stage::Failed, ..*self },
            (Stage::AwaitGui, Event::GuiExited) => {
                let stage = if self.server_was_running {
                    Stage::Finished
                } else {
                    Stage::AwaitServerStop
                };
                Launch { stage, ..*self }
            },
            (Stage::AwaitServerStop, Event::ServerStopAttempted) => Launch {
                stage: Stage::Finished,
                ..*self
            },
            _ => *self,
        };
        *self = next;
        self.pending()
    }
}

/// How many reports a launch in `stage` waits for at most before it finishes.
pub open spec fn stage_rank(stage: Stage) -> nat {
    match stage {
        Stage::AwaitConnection => 9,
        Stage::AwaitBinDir => 8,
        Stage::AwaitBinaries => 7,
        Stage::AwaitUpdates => 6,
        Stage::AwaitServerProbe => 5,
        Stage::AwaitServerBinary => 4,
        Stage::AwaitServerStart => 3,
        Stage::AwaitGui => 2,
        Stage::AwaitServerStop => 1,
        Stage::Finished => 0,
        Stage::Failed => 0,
    }
}

/// What holds of every launch that `start` and `step` produce: the server
/// counts as already running only once the probe said so, and a launch that
/// goes on to start or stop the server found it not running.
pub open spec fn consistent(launch: Launch) -> bool {
    &&& stage_rank(launch.stage) > stage_rank(Stage::AwaitServerProbe) ==> !launch.server_was_running
    &&& (launch.stage == Stage::AwaitServerBinary || launch.stage == Stage::AwaitServerStart
        || launch.stage == Stage::AwaitServerStop) ==> !launch.server_was_running
}

/// The launch after the reports `events`, in order.
pub open spec fn run_events(launch: Launch, events: Seq<Event>) -> Launch
    decreases events.len(),
{
    if events.len() == 0 {
        launch
    } else {
        run_events(next_launch(launch, events[0]), events.drop_first())
    }
}

/// The work named after each of the reports `events`, in order.
pub open spec fn issued_actions(launch: Launch, events: Seq<Event>) -> Seq<Action>
    decreases events.len(),
{
    if events.len() == 0 {
        seq![]
    } else {
        let next = next_launch(launch, events[0]);
        seq![pending_action(next)] + issued_actions(next, events.drop_first())
    }
}

/// Offline mode never checks the connection and counts as offline;
/// online mode never checks it and counts as online; otherwise the launch
/// begins with the check.
pub proof fn lemma_connection_check_options(options: LaunchOptions)
    ensures
        options.offline ==> initial_launch(options).stage == Stage::AwaitBinDir
            && !initial_launch(options).online,
        !options.offline && options.online ==> initial_launch(options).stage == Stage::AwaitBinDir
            && initial_launch(options).online,
        !options.offline && !options.online ==> pending_action(initial_launch(options))
            == Action::ProbeConnection,
{
}

/// A report that the launch does not wait for changes nothing.
pub proof fn lemma_stray_report_ignored(launch: Launch, event: Event)
    requires
        !fits(launch.stage, event),
    ensures
        next_launch(launch, event) == launch,
{
}

/// Every report that the launch waits for moves it strictly closer to
/// the end, and every launch that has neither finished nor failed waits for
/// some report; so a launch ends after at most nine reports, whatever they say.
pub proof fn lemma_launch_progresses(launch: Launch, event: Event)
    ensures
        fits(launch.stage, event) ==> stage_rank(next_launch(launch, event).stage) < stage_rank(
            launch.stage,
        ),
        stage_rank(next_launch(launch, event).stage) <= stage_rank(launch.stage),
        launch.stage != Stage::Finished && launch.stage != Stage::Failed ==> exists|e: Event|
            fits(launch.stage, e),
        stage_rank(launch.stage) == 0 <==> (launch.stage == Stage::Finished || launch.stage
            == Stage::Failed),
{
    if launch.stage != Stage::Finished && launch.stage != Stage::Failed {
        let e = match launch.stage {
            Stage::AwaitConnection => Event::ConnectionProbed { online: false },
            Stage::AwaitBinDir => Event::BinDirReady,
            Stage::AwaitBinaries => Event::BinariesChecked { gui_exists: false, server_exists: false },
            Stage::AwaitUpdates => Event::UpdatesChecked,
            Stage::AwaitServerProbe => Event::ServerProbed { running: false },
            Stage::AwaitServerBinary => Event::ServerBinaryChecked { exists: false },
            Stage::AwaitServerStart => Event::ServerStartAttempted,
            Stage::AwaitGui => Event::GuiExited,
            _ => Event::ServerStopAttempted,
        };
        assert(fits(launch.stage, e));
    }
}

/// A launch fails only when the binary directory cannot be had, when the
/// server's log directory cannot be found before starting it, or when the GUI
/// cannot be run; and a failed launch names no more work, so a server that
/// was started is left running when the GUI cannot be run.
pub proof fn lemma_launch_fails_only_on_errors(launch: Launch, event: Event)
    ensures
        next_launch(launch, event).stage == Stage::Failed && launch.stage != Stage::Failed ==> (
        (launch.stage == Stage::AwaitBinDir && event == Event::BinDirFailed) || (launch.stage
            == Stage::AwaitServerStart && event == Event::ServerLogDirFailed) || (launch.stage
            == Stage::AwaitGui && event == Event::GuiFailed)),
        launch.stage == Stage::Failed ==> next_launch(launch, event) == launch,
        launch.stage == Stage::Failed ==> pending_action(launch) == Action::Fail,
{
}

/// The options, and with them the force flags handed to the update
/// pass, stay as the launch began.
pub proof fn lemma_options_kept(launch: Launch, event: Event)
    ensures
        next_launch(launch, event).options == launch.options,
{
}

/// Updates are checked whenever online, or whenever either binary is
/// missing, so a fresh install still gets both binaries without a connection;
/// and only then.
pub proof fn lemma_updates_checked_when_needed(launch: Launch, gui_exists: bool, server_exists: bool)
    requires
        launch.stage == Stage::AwaitBinaries,
    ensures
        pending_action(
            next_launch(launch, Event::BinariesChecked { gui_exists, server_exists }),
        ) == (Action::CheckForUpdates {
            force_gui: launch.options.force_update_gui,
            force_server: launch.options.force_update_server,
        }) <==> (launch.online || !gui_exists || !server_exists),
{
}

/// Every launch that `start` and `step` produce is consistent.
pub proof fn lemma_consistent_reachable(options: LaunchOptions, launch: Launch, event: Event)
    ensures
        consistent(initial_launch(options)),
        consistent(launch) ==> consistent(next_launch(launch, event)),
{
}

/// The launcher starts the server only when the probe found none running
/// and the server binary is there.
pub proof fn lemma_server_started_only_when_absent(launch: Launch, event: Event)
    requires
        consistent(launch),
        launch.stage != Stage::AwaitServerStart,
        pending_action(next_launch(launch, event)) == Action::StartServer,
    ensures
        launch.stage == Stage::AwaitServerBinary,
        event == (Event::ServerBinaryChecked { exists: true }),
        !next_launch(launch, event).server_was_running,
{
}

/// Once the GUI exits, the launcher stops the server exactly when it was
/// not already running before the launch, and a server found running is left
/// alone.
pub proof fn lemma_server_stopped_only_if_not_found_running(launch: Launch, event: Event)
    requires
        consistent(launch),
    ensures
        pending_action(next_launch(launch, event)) == Action::StopServer ==> !launch.server_was_running,
        launch.stage == Stage::AwaitGui ==> (pending_action(next_launch(launch, Event::GuiExited))
            == Action::StopServer <==> !launch.server_was_running),
        next_launch(launch, event).server_was_running != launch.server_was_running ==> (
        launch.stage == Stage::AwaitServerProbe && event is ServerProbed),
{
}

/// The order of a launch, report by report: the connection check's answer
/// is what counts; a ready binary directory leads to checking the binaries;
/// after the updates (or without them) the server is probed; a server found
/// running leads straight to the GUI, one not running to checking its binary;
/// a server binary that is there is started, whatever the connection, and one
/// that is not leads to the GUI; a start attempt leads to the GUI; the stop
/// attempt ends the launch. What the probe found is kept for the end.
pub proof fn lemma_launch_order(launch: Launch, online: bool, running: bool, exists: bool)
    ensures
        launch.stage == Stage::AwaitConnection ==> {
            let next = next_launch(launch, Event::ConnectionProbed { online });
            &&& next.online == online
            &&& pending_action(next) == Action::PrepareBinDir
        },
        launch.stage == Stage::AwaitBinDir ==> pending_action(
            next_launch(launch, Event::BinDirReady),
        ) == Action::CheckBinaries,
        launch.stage == Stage::AwaitUpdates ==> pending_action(
            next_launch(launch, Event::UpdatesChecked),
        ) == Action::ProbeServer,
        launch.stage == Stage::AwaitServerProbe ==> {
            let next = next_launch(launch, Event::ServerProbed { running });
            &&& next.server_was_running == running
            &&& pending_action(next) == (if running {
                Action::RunGui
            } else {
                Action::CheckServerBinary
            })
        },
        launch.stage == Stage::AwaitServerBinary ==> pending_action(
            next_launch(launch, Event::ServerBinaryChecked { exists }),
        ) == (if exists {
            Action::StartServer
        } else {
            Action::RunGui
        }),
        launch.stage == Stage::AwaitServerStart ==> pending_action(
            next_launch(launch, Event::ServerStartAttempted),
        ) == Action::RunGui,
        launch.stage == Stage::AwaitServerStop ==> pending_action(
            next_launch(launch, Event::ServerStopAttempted),
        ) == Action::Finish,
        launch.stage == Stage::AwaitGui ==> pending_action(next_launch(launch, Event::GuiExited))
            == (if launch.server_was_running {
            Action::Finish
        } else {
            Action::StopServer
        }),
        next_launch(launch, Event::ConnectionProbed { online }).server_was_running
            == launch.server_was_running,
        launch.stage != Stage::AwaitConnection ==> next_launch(launch, Event::ServerProbed { running }).online
            == launch.online,
{
}

/// Whenever the probe found no server running and the server binary is
/// there, the server is started, online or offline.
pub proof fn lemma_server_started_when_absent(launch: Launch)
    requires
        launch.stage == Stage::AwaitServerBinary,
    ensures
        pending_action(next_launch(launch, Event::ServerBinaryChecked { exists: true }))
            == Action::StartServer,
        next_launch(launch, Event::ServerBinaryChecked { exists: true }).server_was_running
            == launch.server_was_running,
{
}

/// A launch begun offline, whose server is not running and whose binaries are
/// all there, still starts the server.
pub proof fn lemma_offline_launch_starts_server(options: LaunchOptions)
    requires
        options.offline,
    ensures
        issued_actions(
            initial_launch(options),
            seq![
                Event::BinDirReady,
                Event::BinariesChecked { gui_exists: true, server_exists: true },
                Event::ServerProbed { running: false },
                Event::ServerBinaryChecked { exists: true },
            ],
        )[3] == Action::StartServer,
{
    let events = seq![
        Event::BinDirReady,
        Event::BinariesChecked { gui_exists: true, server_exists: true },
        Event::ServerProbed { running: false },
        Event::ServerBinaryChecked { exists: true },
    ];
    let l0 = initial_launch(options);
    let l1 = next_launch(l0, events[0]);
    let l2 = next_launch(l1, events[1]);
    let l3 = next_launch(l2, events[2]);
    let l4 = next_launch(l3, events[3]);
    assert(l4.stage == Stage::AwaitServerStart);
    let e1 = events.drop_first();
    let e2 = e1.drop_first();
    let e3 = e2.drop_first();
    let e4 = e3.drop_first();
    assert(e3 =~= seq![events[3]]);
    assert(e2 =~= seq![events[2], events[3]]);
    assert(e1 =~= seq![events[1], events[2], events[3]]);
    assert(e4 =~= Seq::<Event>::empty());
    assert(issued_actions(l4, e4) =~= Seq::<Action>::empty());
    assert(issued_actions(l3, e3) =~= seq![pending_action(l4)]);
    assert(issued_actions(l2, e2) =~= seq![pending_action(l3), pending_action(l4)]);
    assert(issued_actions(l1, e1) =~= seq![pending_action(l2), pending_action(l3), pending_action(l4)]);
    assert(issued_actions(l0, events)[3] == pending_action(l4));
}

proof fn lemma_gui_not_skipped(launch: Launch, event: Event)
    requires
        stage_rank(launch.stage) > stage_rank(Stage::AwaitGui),
        stage_rank(next_launch(launch, event).stage) <= stage_rank(Stage::AwaitGui),
        next_launch(launch, event).stage != Stage::Failed,
    ensures
        next_launch(launch, event).stage == Stage::AwaitGui,
{
}

/// The GUI runs on every launch: whatever the reports, a launch that
/// finishes has named `RunGui` on the way.
pub proof fn lemma_gui_always_runs(options: LaunchOptions, events: Seq<Event>)
    requires
        run_events(initial_launch(options), events).stage == Stage::Finished,
    ensures
        issued_actions(initial_launch(options), events).contains(Action::RunGui),
{
    lemma_gui_reached(initial_launch(options), events);
}

proof fn lemma_gui_reached(launch: Launch, events: Seq<Event>)
    requires
        stage_rank(launch.stage) > stage_rank(Stage::AwaitGui),
        run_events(launch, events).stage == Stage::Finished,
    ensures
        issued_actions(launch, events).contains(Action::RunGui),
    decreases events.len(),
{
    if events.len() == 0 {
        assert(run_events(launch, events) == launch);
    } else {
        let next = next_launch(launch, events[0]);
        let rest = issued_actions(next, events.drop_first());
        assert(issued_actions(launch, events) == seq![pending_action(next)] + rest);
        if next.stage == Stage::Failed {
            lemma_failed_stays(next, events.drop_first());
        } else if stage_rank(next.stage) > stage_rank(Stage::AwaitGui) {
            lemma_gui_reached(next, events.drop_first());
            let i = choose|i: int| 0 <= i < rest.len() && rest[i] == Action::RunGui;
            assert(issued_actions(launch, events)[i + 1] == Action::RunGui);
        } else {
            lemma_gui_not_skipped(launch, events[0]);
            assert(issued_actions(launch, events)[0] == Action::RunGui);
        }
    }
}

proof fn lemma_failed_stays(launch: Launch, events: Seq<Event>)
    requires
        launch.stage == Stage::Failed,
    ensures
        run_events(launch, events) == launch,
    decreases events.len(),
{
    if events.len() > 0 {
        lemma_failed_stays(next_launch(launch, events[0]), events.drop_first());
    }
}

} // verus!

//! A monitoring session: what the agent does while it is connected to the
//! backend.
//!
//! The loop that owns the connection hands each event to [`Monitor::on_event`]
//! and performs the actions that come back, in order. A send that fails is
//! reported, drops the actions behind it and ends the session. However a session
//! ends, [`Monitor::teardown`] says what is left to stop.

use vstd::prelude::*;

use crate::backend::{heartbeat_json, heartbeat_members, session_json, session_members};
use crate::command::{command_of, read_command, BackendCommand, NotJson};
use crate::json::{json_members, object_text};
use crate::platform::Platform;
use crate::session::bridge::{Fix, SessionBridge};
use crate::telemetry::{Reading, Share};
use crate::text::text_view;
use crate::video::packet::{PacketView, StreamPacket, STREAM_KIND_CONFIG};

verus! {

/// Seconds between heartbeats.
pub const HEARTBEAT_SECONDS: u64 = 5;

/// Seconds between telemetry messages.
pub const TELEMETRY_SECONDS: u64 = 5;

/// Seconds between looks at the console.
pub const CONSOLE_SECONDS: u64 = 5;

/// Seconds between location messages.
pub const LOCATION_SECONDS: u64 = 10;

// ---------------------------------------------------------------------------
// Events and actions
// ---------------------------------------------------------------------------

/// What can happen during a session.
pub enum MonitorEvent {
    /// The service manager's shutdown flag changed.
    ServiceShutdown { requested: bool },
    /// The operating system or the terminal asks the agent to stop.
    StopSignal,
    /// It is time for a heartbeat.
    HeartbeatDue,
    /// It is time for telemetry, and this was read.
    TelemetryDue { reading: Reading },
    /// It is time for a location, and the source in play has this fix.
    LocationDue { fix: Option<Fix> },
    /// The screen stream has a packet.
    Packet { packet: StreamPacket },
    /// The console was looked at, and this user is logged in.
    ConsoleChecked { user: Option<String> },
    /// The backend sent a text message.
    Backend { message: String },
    /// The backend closed the connection.
    BackendClosed,
    /// The connection failed.
    BackendFailed,
    /// The connection ended.
    BackendEnded,
}

/// Which text message is sent.
#[derive(Debug, Clone, Copy, PartialEq, Eq)]
pub enum Label {
    Heartbeat,
    Login,
    Logout,
}

/// What is reported in the log.
#[derive(Debug, Clone, Copy, PartialEq, Eq)]
pub enum Notice {
    ServiceShutdownRequested,
    StopSignalReceived,
    NoConsoleUser,
    NoFixYet,
    ScreenUnsupported,
    ScreenDelegated,
    ScreenEnabled,
    ScreenDisabled,
    LocationUnsupported,
    LocationDelegated,
    LocationEnabled,
    LocationDisabled,
    BackendClosed,
    BackendFailed,
    BackendEnded,
}

/// One thing for the loop to do.
pub enum MonitorAction {
    /// Send a text message. `username` says whom it is about.
    Send { label: Label, username: Option<String>, text: String },
    /// Send a close frame, so that the backend marks the device offline at once.
    SendClose,
    /// Send telemetry. The network moved this many bytes since the last reading.
    SendTelemetry { memory: Share, storage: Option<Share>, bytes_transferred: u64 },
    /// Send a location.
    SendLocation { fix: Fix },
    /// Send a packet of the screen stream.
    SendPacket { bytes: Vec<u8>, config: bool },
    /// Report something.
    Report { notice: Notice },
    /// Report a change on the console.
    ReportConsoleChange { from: Option<String>, to: Option<String> },
    /// Report a backend message that is not JSON.
    ReportNotJson { error: NotJson },
    /// Start the screen stream of this process, and say whether it started.
    StartStream,
    /// Stop the screen stream of this process.
    StopStream,
    /// Start measuring the location in this process.
    StartLocation,
    /// Stop measuring the location in this process.
    StopLocation,
    /// Tell the session helper whether to stream the screen.
    HelperScreen { enabled: bool },
    /// Tell the session helper whether to collect the location.
    HelperLocation { enabled: bool },
    /// Shut the session helper down.
    StopHelper,
    /// End the session.
    End,
}

/// An event, with texts as their characters.
pub enum EventView {
    ServiceShutdown { requested: bool },
    StopSignal,
    HeartbeatDue,
    TelemetryDue { reading: Reading },
    LocationDue { fix: Option<Fix> },
    Packet { packet: PacketView },
    ConsoleChecked { user: Option<Seq<char>> },
    Backend { message: Seq<char> },
    BackendClosed,
    BackendFailed,
    BackendEnded,
}

/// An action, with texts as their characters.
pub enum ActionView {
    Send { label: Label, username: Option<Seq<char>>, text: Seq<char> },
    SendClose,
    SendTelemetry { memory: Share, storage: Option<Share>, bytes_transferred: u64 },
    SendLocation { fix: Fix },
    SendPacket { bytes: Seq<u8>, config: bool },
    Report { notice: Notice },
    ReportConsoleChange { from: Option<Seq<char>>, to: Option<Seq<char>> },
    ReportNotJson { reason: Seq<char> },
    StartStream,
    StopStream,
    StartLocation,
    StopLocation,
    HelperScreen { enabled: bool },
    HelperLocation { enabled: bool },
    StopHelper,
    End,
}

impl View for MonitorEvent {
    type V = EventView;

    open spec fn view(&self) -> EventView {
        match *self {
            MonitorEvent::ServiceShutdown { requested } => EventView::ServiceShutdown { requested },
            MonitorEvent::StopSignal => EventView::StopSignal,
            MonitorEvent::HeartbeatDue => EventView::HeartbeatDue,
            MonitorEvent::TelemetryDue { reading } => EventView::TelemetryDue { reading },
            MonitorEvent::LocationDue { fix } => EventView::LocationDue { fix },
            MonitorEvent::Packet { packet } => EventView::Packet { packet: packet@ },
            MonitorEvent::ConsoleChecked { user } => EventView::ConsoleChecked {
                user: text_view(user),
            },
            MonitorEvent::Backend { message } => EventView::Backend { message: message@ },
            MonitorEvent::BackendClosed => EventView::BackendClosed,
            MonitorEvent::BackendFailed => EventView::BackendFailed,
            MonitorEvent::BackendEnded => EventView::BackendEnded,
        }
    }
}

impl View for MonitorAction {
    type V = ActionView;

    open spec fn view(&self) -> ActionView {
        match *self {
            MonitorAction::Send { label, username, text } => ActionView::Send {
                label,
                username: text_view(username),
                text: text@,
            },
            MonitorAction::SendClose => ActionView::SendClose,
            MonitorAction::SendTelemetry { memory, storage, bytes_transferred } => {
                ActionView::SendTelemetry { memory, storage, bytes_transferred }
            },
            MonitorAction::SendLocation { fix } => ActionView::SendLocation { fix },
            MonitorAction::SendPacket { bytes, config } => ActionView::SendPacket {
                bytes: bytes@,
                config,
            },
            MonitorAction::Report { notice } => ActionView::Report { notice },
            MonitorAction::ReportConsoleChange { from, to } => ActionView::ReportConsoleChange {
                from: text_view(from),
                to: text_view(to),
            },
            MonitorAction::ReportNotJson { error } => ActionView::ReportNotJson {
                reason: error.reason@,
            },
            MonitorAction::StartStream => ActionView::StartStream,
            MonitorAction::StopStream => ActionView::StopStream,
            MonitorAction::StartLocation => ActionView::StartLocation,
            MonitorAction::StopLocation => ActionView::StopLocation,
            MonitorAction::HelperScreen { enabled } => ActionView::HelperScreen { enabled },
            MonitorAction::HelperLocation { enabled } => ActionView::HelperLocation { enabled },
            MonitorAction::StopHelper => ActionView::StopHelper,
            MonitorAction::End => ActionView::End,
        }
    }
}

/// The session goes on once an action was tried. A message that cannot be sent ends
/// it, and drops the actions behind it. A close frame that cannot be sent is only
/// reported.
pub open spec fn goes_on_after(action: ActionView, sent: bool) -> bool {
    match action {
        ActionView::Send { .. } => sent,
        ActionView::SendTelemetry { .. } => sent,
        ActionView::SendLocation { .. } => sent,
        ActionView::SendPacket { .. } => sent,
        ActionView::End => false,
        _ => true,
    }
}

impl MonitorAction {
    /// Whether the session goes on once the action was tried, and its message sent
    /// or not.
    pub fn goes_on(&self, sent: bool) -> (on: bool)
        ensures
            on == goes_on_after(self@, sent),
    {
        match self {
            MonitorAction::Send { .. } => sent,
            MonitorAction::SendTelemetry { .. } => sent,
            MonitorAction::SendLocation { .. } => sent,
            MonitorAction::SendPacket { .. } => sent,
            MonitorAction::End => false,
            _ => true,
        }
    }
}

/// What each of a list of actions says.
pub open spec fn action_views(actions: Seq<MonitorAction>) -> Seq<ActionView> {
    actions.map_values(|action: MonitorAction| action@)
}

/// Append an action to a list.
fn push_action(actions: &mut Vec<MonitorAction>, action: MonitorAction)
    ensures
        action_views(final(actions)@) == action_views(old(actions)@).push(action@),
{
    actions.push(action);
    assert(action_views(actions@) =~= action_views(old(actions)@).push(action@));
}

// ---------------------------------------------------------------------------
// State
// ---------------------------------------------------------------------------

/// Where a location comes from.
#[derive(Debug, Clone, Copy, PartialEq, Eq)]
pub enum FixSource {
    /// The session helper.
    Helper,
    /// This process.
    Own,
}

/// What the agent remembers during a session.
pub struct Monitor {
    pub platform: Platform,
    /// Screen and location are the session helper's.
    pub helper_owns_capture: bool,
    /// The backend had the screen streamed, here or by the helper, at some time.
    pub screen_requested: bool,
    /// The backend has the location collected.
    pub gps_enabled: bool,
    /// The screen stream of this process runs.
    pub streaming: bool,
    /// The user that was logged in at the last look.
    pub console_user: Option<String>,
    /// Network bytes at the last reading.
    pub network_bytes: u64,
}

/// What the agent remembers, with the user's name as its characters.
pub struct MonitorView {
    pub platform: Platform,
    pub helper_owns_capture: bool,
    pub screen_requested: bool,
    pub gps_enabled: bool,
    pub streaming: bool,
    pub console_user: Option<Seq<char>>,
    pub network_bytes: u64,
}

impl View for Monitor {
    type V = MonitorView;

    open spec fn view(&self) -> MonitorView {
        MonitorView {
            platform: self.platform,
            helper_owns_capture: self.helper_owns_capture,
            screen_requested: self.screen_requested,
            gps_enabled: self.gps_enabled,
            streaming: self.streaming,
            console_user: text_view(self.console_user),
            network_bytes: self.network_bytes,
        }
    }
}

impl MonitorView {
    /// Nothing runs that the platform does not support, and this process captures
    /// nothing that is the helper's.
    pub open spec fn well_formed(self) -> bool {
        &&& self.gps_enabled ==> self.platform.reads_location()
        &&& self.streaming ==> self.platform.streams_screen() && !self.helper_owns_capture
        &&& self.screen_requested ==> self.platform.streams_screen()
    }

    /// This process measures the location itself where one can be read at all.
    pub open spec fn measures_location(self) -> bool {
        self.platform.reads_location() && !self.helper_owns_capture
    }
}

// ---------------------------------------------------------------------------
// What follows from an event
// ---------------------------------------------------------------------------

/// The message that a user logged in or out.
pub open spec fn session_send(login: bool, username: Seq<char>) -> ActionView {
    ActionView::Send {
        label: if login {
            Label::Login
        } else {
            Label::Logout
        },
        username: Some(username),
        text: object_text(session_members(login, username)),
    }
}

/// What goes out once the connection stands: who is logged in.
pub open spec fn greeting(user: Option<Seq<char>>) -> Seq<ActionView> {
    match user {
        Some(name) => seq![session_send(true, name)],
        None => seq![ActionView::Report { notice: Notice::NoConsoleUser }],
    }
}

/// What goes out when another user, or nobody, is logged in: a logout for the
/// user before, then a login for the user now.
pub open spec fn console_actions(from: Option<Seq<char>>, to: Option<Seq<char>>) -> Seq<
    ActionView,
> {
    if from == to {
        seq![]
    } else {
        seq![ActionView::ReportConsoleChange { from, to }] + (match from {
            Some(name) => seq![session_send(false, name)],
            None => seq![],
        }) + (match to {
            Some(name) => seq![session_send(true, name)],
            None => seq![],
        })
    }
}

/// What a command has the agent do.
pub open spec fn command_actions(monitor: MonitorView, command: BackendCommand) -> Seq<ActionView> {
    match command {
        BackendCommand::StartScreen => if !monitor.platform.streams_screen() {
            seq![ActionView::Report { notice: Notice::ScreenUnsupported }]
        } else if monitor.helper_owns_capture {
            seq![
                ActionView::Report { notice: Notice::ScreenDelegated },
                ActionView::HelperScreen { enabled: true },
            ]
        } else if !monitor.streaming {
            seq![ActionView::Report { notice: Notice::ScreenEnabled }, ActionView::StartStream]
        } else {
            seq![]
        },
        BackendCommand::StopScreen => if monitor.helper_owns_capture {
            seq![
                ActionView::HelperScreen { enabled: false },
                ActionView::Report { notice: Notice::ScreenDisabled },
            ]
        } else if monitor.streaming {
            seq![ActionView::StopStream, ActionView::Report { notice: Notice::ScreenDisabled }]
        } else {
            seq![]
        },
        BackendCommand::Gps { enabled } => if !monitor.platform.reads_location() {
            if enabled {
                seq![ActionView::Report { notice: Notice::LocationUnsupported }]
            } else {
                seq![]
            }
        } else if monitor.helper_owns_capture {
            seq![
                ActionView::HelperLocation { enabled },
                ActionView::Report {
                    notice: if enabled {
                        Notice::LocationDelegated
                    } else {
                        Notice::LocationDisabled
                    },
                },
            ]
        } else if enabled && !monitor.gps_enabled {
            seq![
                ActionView::StartLocation,
                ActionView::Report { notice: Notice::LocationEnabled },
            ]
        } else if !enabled && monitor.gps_enabled {
            seq![
                ActionView::StopLocation,
                ActionView::Report { notice: Notice::LocationDisabled },
            ]
        } else {
            seq![]
        },
        BackendCommand::Other => seq![],
    }
}

/// The agent after a command. A stream that is to be started does not run yet.
pub open spec fn command_state(monitor: MonitorView, command: BackendCommand) -> MonitorView {
    match command {
        BackendCommand::StartScreen => MonitorView {
            screen_requested: monitor.screen_requested || monitor.platform.streams_screen(),
            ..monitor
        },
        BackendCommand::StopScreen => MonitorView { streaming: false, ..monitor },
        BackendCommand::Gps { enabled } => if monitor.platform.reads_location() {
            MonitorView { gps_enabled: enabled, ..monitor }
        } else {
            monitor
        },
        BackendCommand::Other => monitor,
    }
}

/// Where the next fix comes from: the helper's last, or the agent's own.
pub open spec fn source_for(monitor: MonitorView) -> Option<FixSource> {
    if !monitor.gps_enabled {
        None
    } else if monitor.helper_owns_capture {
        Some(FixSource::Helper)
    } else {
        Some(FixSource::Own)
    }
}

/// Report, say goodbye to the backend, end.
pub open spec fn goodbye(notice: Notice) -> Seq<ActionView> {
    seq![ActionView::Report { notice }, ActionView::SendClose, ActionView::End]
}

/// What an event has the agent do.
pub open spec fn emitted(monitor: MonitorView, event: EventView) -> Seq<ActionView> {
    match event {
        EventView::ServiceShutdown { requested } => if requested {
            goodbye(Notice::ServiceShutdownRequested)
        } else {
            seq![]
        },
        EventView::StopSignal => goodbye(Notice::StopSignalReceived),
        EventView::HeartbeatDue => seq![
            ActionView::Send {
                label: Label::Heartbeat,
                username: None,
                text: object_text(heartbeat_members()),
            },
        ],
        EventView::TelemetryDue { reading } => seq![
            ActionView::SendTelemetry {
                memory: reading.memory,
                storage: reading.storage,
                bytes_transferred: if reading.network_bytes > monitor.network_bytes {
                    (reading.network_bytes - monitor.network_bytes) as u64
                } else {
                    0
                },
            },
        ],
        EventView::LocationDue { fix } => if !monitor.gps_enabled {
            seq![]
        } else {
            match fix {
                Some(fix) => seq![ActionView::SendLocation { fix }],
                None => seq![ActionView::Report { notice: Notice::NoFixYet }],
            }
        },
        EventView::Packet { packet } => if !monitor.screen_requested {
            seq![]
        } else {
            seq![
                ActionView::SendPacket {
                    bytes: packet.wire(),
                    config: packet.kind == STREAM_KIND_CONFIG,
                },
            ]
        },
        EventView::ConsoleChecked { user } => console_actions(monitor.console_user, user),
        EventView::Backend { message } => match json_members(message, "type"@, "enabled"@) {
            Ok((kind, flag)) => command_actions(monitor, command_of(kind, flag)),
            Err(reason) => seq![ActionView::ReportNotJson { reason }],
        },
        EventView::BackendClosed => seq![
            ActionView::Report { notice: Notice::BackendClosed },
            ActionView::End,
        ],
        EventView::BackendFailed => seq![
            ActionView::Report { notice: Notice::BackendFailed },
            ActionView::End,
        ],
        EventView::BackendEnded => seq![
            ActionView::Report { notice: Notice::BackendEnded },
            ActionView::End,
        ],
    }
}

/// The agent after an event.
pub open spec fn next(monitor: MonitorView, event: EventView) -> MonitorView {
    match event {
        EventView::TelemetryDue { reading } => MonitorView {
            network_bytes: reading.network_bytes,
            ..monitor
        },
        EventView::ConsoleChecked { user } => MonitorView { console_user: user, ..monitor },
        EventView::Backend { message } => match json_members(message, "type"@, "enabled"@) {
            Ok((kind, flag)) => command_state(monitor, command_of(kind, flag)),
            Err(_) => monitor,
        },
        _ => monitor,
    }
}

/// Something that happens during a session: an event, or a stream that was to be
/// started did or did not start.
pub enum Happening {
    Event { event: EventView },
    StreamStarted { started: bool },
}

/// The agent after one happening.
pub open spec fn after_one(monitor: MonitorView, happening: Happening) -> MonitorView {
    match happening {
        Happening::Event { event } => next(monitor, event),
        Happening::StreamStarted { started } => MonitorView { streaming: started, ..monitor },
    }
}

// ---------------------------------------------------------------------------
// The machine
// ---------------------------------------------------------------------------

/// A copy of an optional name.
fn copied_name(name: &Option<String>) -> (copy: Option<String>)
    ensures
        text_view(copy) == text_view(*name),
{
    match name {
        Some(name) => Some(name.clone()),
        None => None,
    }
}

/// Whether two optional names are equal.
fn same_name(a: &Option<String>, b: &Option<String>) -> (same: bool)
    ensures
        same == (text_view(*a) == text_view(*b)),
{
    match (a, b) {
        (Some(a), Some(b)) => crate::text::same_text(a.as_str(), b.as_str()),
        (None, None) => true,
        _ => false,
    }
}

/// The action that sends a login or a logout.
fn session_action(login: bool, username: &String) -> (action: MonitorAction)
    ensures
        action@ == session_send(login, username@),
{
    MonitorAction::Send {
        label: if login {
            Label::Login
        } else {
            Label::Logout
        },
        username: Some(username.clone()),
        text: session_json(login, username.as_str()),
    }
}

impl Monitor {
    /// The agent at the start of a session.
    ///
    /// Screen streaming and GPS collection are disabled by default. The backend
    /// explicitly enables them.
    pub fn new(
        platform: Platform,
        bridge: &SessionBridge,
        console_user: Option<String>,
        network_bytes: u64,
    ) -> (monitor: Monitor)
        ensures
            monitor@.well_formed(),
            monitor@ == (MonitorView {
                platform,
                helper_owns_capture: bridge.delegating,
                screen_requested: false,
                gps_enabled: false,
                streaming: false,
                console_user: text_view(console_user),
                network_bytes,
            }),
    {
        Monitor {
            platform,
            helper_owns_capture: bridge.delegates(),
            screen_requested: false,
            gps_enabled: false,
            streaming: false,
            console_user,
            network_bytes,
        }
    }

    /// Whether this process measures the location itself.
    ///
    /// Where it does not, a location manager could never produce a fix.
    pub fn measures_location(&self) -> (measures: bool)
        ensures
            measures == self@.measures_location(),
    {
        self.platform.gps_supported() && !self.helper_owns_capture
    }

    /// Where the next location comes from, while the backend has it collected.
    pub fn fix_source(&self) -> (source: Option<FixSource>)
        ensures
            source == source_for(self@),
    {
        if !self.gps_enabled {
            None
        } else if self.helper_owns_capture {
            Some(FixSource::Helper)
        } else {
            Some(FixSource::Own)
        }
    }

    /// What goes out once the connection stands.
    pub fn on_connected(&self) -> (actions: Vec<MonitorAction>)
        ensures
            action_views(actions@) == greeting(self@.console_user),
    {
        let mut actions: Vec<MonitorAction> = Vec::new();
        match &self.console_user {
            Some(username) => push_action(&mut actions, session_action(true, username)),
            None => push_action(
                &mut actions,
                MonitorAction::Report { notice: Notice::NoConsoleUser },
            ),
        }
        assert(action_views(actions@) =~= greeting(self@.console_user));
        actions
    }

    /// Follow a command of the backend's.
    pub fn on_command(&mut self, command: BackendCommand) -> (actions: Vec<MonitorAction>)
        requires
            old(self)@.well_formed(),
        ensures
            final(self)@.well_formed(),
            final(self)@ == command_state(old(self)@, command),
            action_views(actions@) == command_actions(old(self)@, command),
    {
        let mut actions: Vec<MonitorAction> = Vec::new();
        match command {
            BackendCommand::StartScreen => {
                if !self.platform.screen_stream_supported() {
                    // Refusing loudly beats silently ignoring the backend, which
                    // would look like a hung monitoring session.
                    push_action(
                        &mut actions,
                        MonitorAction::Report { notice: Notice::ScreenUnsupported },
                    );
                } else {
                    self.screen_requested = true;
                    if self.helper_owns_capture {
                        push_action(
                            &mut actions,
                            MonitorAction::Report { notice: Notice::ScreenDelegated },
                        );
                        push_action(&mut actions, MonitorAction::HelperScreen { enabled: true });
                    } else if !self.streaming {
                        push_action(
                            &mut actions,
                            MonitorAction::Report { notice: Notice::ScreenEnabled },
                        );
                        push_action(&mut actions, MonitorAction::StartStream);
                    }
                }
            },
            BackendCommand::StopScreen => {
                if self.helper_owns_capture {
                    push_action(&mut actions, MonitorAction::HelperScreen { enabled: false });
                    push_action(
                        &mut actions,
                        MonitorAction::Report { notice: Notice::ScreenDisabled },
                    );
                } else if self.streaming {
                    self.streaming = false;
                    push_action(&mut actions, MonitorAction::StopStream);
                    push_action(
                        &mut actions,
                        MonitorAction::Report { notice: Notice::ScreenDisabled },
                    );
                }
            },
            BackendCommand::Gps { enabled } => {
                if !self.platform.gps_supported() {
                    // Only worth reporting when the backend asked to turn it on.
                    if enabled {
                        push_action(
                            &mut actions,
                            MonitorAction::Report { notice: Notice::LocationUnsupported },
                        );
                    }
                } else if self.helper_owns_capture {
                    // Also told when collection is turned off, so a helper that
                    // connects later is not left measuring.
                    self.gps_enabled = enabled;
                    push_action(&mut actions, MonitorAction::HelperLocation { enabled });
                    push_action(
                        &mut actions,
                        MonitorAction::Report {
                            notice: if enabled {
                                Notice::LocationDelegated
                            } else {
                                Notice::LocationDisabled
                            },
                        },
                    );
                } else if enabled && !self.gps_enabled {
                    self.gps_enabled = true;
                    push_action(&mut actions, MonitorAction::StartLocation);
                    push_action(
                        &mut actions,
                        MonitorAction::Report { notice: Notice::LocationEnabled },
                    );
                } else if !enabled && self.gps_enabled {
                    self.gps_enabled = false;
                    push_action(&mut actions, MonitorAction::StopLocation);
                    push_action(
                        &mut actions,
                        MonitorAction::Report { notice: Notice::LocationDisabled },
                    );
                }
            },
            BackendCommand::Other => {},
        }
        assert(action_views(actions@) =~= command_actions(old(self)@, command));
        actions
    }

    /// Account for a stream that was to be started.
    pub fn on_stream_started(&mut self, started: bool)
        requires
            old(self)@.well_formed(),
            old(self)@.platform.streams_screen(),
            !old(self)@.helper_owns_capture,
        ensures
            final(self)@.well_formed(),
            final(self)@ == after_one(old(self)@, Happening::StreamStarted { started }),
    {
        self.streaming = started;
    }

    /// Note who is logged in, and tell the backend if that changed.
    fn on_console(&mut self, user: Option<String>) -> (actions: Vec<MonitorAction>)
        ensures
            final(self)@ == (MonitorView { console_user: text_view(user), ..old(self)@ }),
            action_views(actions@) == console_actions(old(self)@.console_user, text_view(user)),
    {
        let ghost from = self@.console_user;
        let ghost to = text_view(user);
        let mut actions: Vec<MonitorAction> = Vec::new();
        if same_name(&self.console_user, &user) {
            assert(action_views(actions@) =~= console_actions(from, to));
            return actions;
        }
        push_action(
            &mut actions,
            MonitorAction::ReportConsoleChange {
                from: copied_name(&self.console_user),
                to: copied_name(&user),
            },
        );
        if let Some(previous) = &self.console_user {
            push_action(&mut actions, session_action(false, previous));
        }
        if let Some(username) = &user {
            push_action(&mut actions, session_action(true, username));
        }
        self.console_user = user;
        assert(action_views(actions@) =~= console_actions(from, to));
        actions
    }

    /// Follow a text message of the backend's.
    fn on_backend(&mut self, message: &str) -> (actions: Vec<MonitorAction>)
        requires
            old(self)@.well_formed(),
        ensures
            final(self)@.well_formed(),
            final(self)@ == next(old(self)@, EventView::Backend { message: message@ }),
            action_views(actions@) == emitted(
                old(self)@,
                EventView::Backend { message: message@ },
            ),
    {
        match read_command(message) {
            Ok(command) => self.on_command(command),
            Err(error) => {
                let mut actions: Vec<MonitorAction> = Vec::new();
                let ghost reason = error.reason@;
                push_action(&mut actions, MonitorAction::ReportNotJson { error });
                assert(action_views(actions@) =~= seq![ActionView::ReportNotJson { reason }]);
                actions
            },
        }
    }

    /// What an event has the agent do.
    pub fn on_event(&mut self, event: MonitorEvent) -> (actions: Vec<MonitorAction>)
        requires
            old(self)@.well_formed(),
        ensures
            final(self)@.well_formed(),
            final(self)@ == next(old(self)@, event@),
            action_views(actions@) == emitted(old(self)@, event@),
    {
        let ghost view = event@;
        let mut actions: Vec<MonitorAction> = Vec::new();
        match event {
            MonitorEvent::ServiceShutdown { requested } => {
                if requested {
                    push_goodbye(&mut actions, Notice::ServiceShutdownRequested);
                }
            },
            MonitorEvent::StopSignal => push_goodbye(&mut actions, Notice::StopSignalReceived),
            MonitorEvent::HeartbeatDue => push_action(
                &mut actions,
                MonitorAction::Send {
                    label: Label::Heartbeat,
                    username: None,
                    text: heartbeat_json(),
                },
            ),
            MonitorEvent::TelemetryDue { reading } => {
                let bytes_transferred: u64 = reading.network_bytes.saturating_sub(
                    self.network_bytes,
                );
                self.network_bytes = reading.network_bytes;
                push_action(
                    &mut actions,
                    MonitorAction::SendTelemetry {
                        memory: reading.memory,
                        storage: reading.storage,
                        bytes_transferred,
                    },
                );
            },
            MonitorEvent::LocationDue { fix } => {
                if self.gps_enabled {
                    match fix {
                        Some(fix) => push_action(
                            &mut actions,
                            MonitorAction::SendLocation { fix },
                        ),
                        None => push_action(
                            &mut actions,
                            MonitorAction::Report { notice: Notice::NoFixYet },
                        ),
                    }
                }
            },
            MonitorEvent::Packet { packet } => {
                // Nothing of the screen goes out before the backend asked for it.
                if self.screen_requested {
                    let config = packet.kind == STREAM_KIND_CONFIG;
                    push_action(
                        &mut actions,
                        MonitorAction::SendPacket { bytes: packet.into_binary(), config },
                    );
                }
            },
            MonitorEvent::ConsoleChecked { user } => {
                return self.on_console(user);
            },
            MonitorEvent::Backend { message } => {
                return self.on_backend(message.as_str());
            },
            MonitorEvent::BackendClosed => push_end(&mut actions, Notice::BackendClosed),
            MonitorEvent::BackendFailed => push_end(&mut actions, Notice::BackendFailed),
            MonitorEvent::BackendEnded => push_end(&mut actions, Notice::BackendEnded),
        }
        assert(action_views(actions@) =~= emitted(old(self)@, view));
        actions
    }

    /// What is left to stop when the session has ended: the stream, so that no
    /// encode thread outlives the connection, the location, and the helper.
    pub fn teardown(&mut self) -> (actions: Vec<MonitorAction>)
        requires
            old(self)@.well_formed(),
        ensures
            final(self)@.well_formed(),
            final(self)@ == (MonitorView { streaming: false, ..old(self)@ }),
            action_views(actions@) == teardown_actions(old(self)@),
    {
        let mut actions: Vec<MonitorAction> = Vec::new();
        if self.streaming {
            self.streaming = false;
            push_action(&mut actions, MonitorAction::StopStream);
        }
        if self.measures_location() {
            push_action(&mut actions, MonitorAction::StopLocation);
        }
        push_action(&mut actions, MonitorAction::StopHelper);
        assert(action_views(actions@) =~= teardown_actions(old(self)@));
        actions
    }
}

/// What is left to stop when the session has ended.
pub open spec fn teardown_actions(monitor: MonitorView) -> Seq<ActionView> {
    (if monitor.streaming {
        seq![ActionView::StopStream]
    } else {
        seq![]
    }) + (if monitor.measures_location() {
        seq![ActionView::StopLocation]
    } else {
        seq![]
    }) + seq![ActionView::StopHelper]
}

/// Append a report and the end of the session.
fn push_end(actions: &mut Vec<MonitorAction>, notice: Notice)
    ensures
        action_views(final(actions)@) == action_views(old(actions)@) + seq![
            ActionView::Report { notice },
            ActionView::End,
        ],
{
    push_action(actions, MonitorAction::Report { notice });
    push_action(actions, MonitorAction::End);
    assert(action_views(actions@) =~= action_views(old(actions)@) + seq![
        ActionView::Report { notice },
        ActionView::End,
    ]);
}

/// Append a report, a close frame and the end of the session.
fn push_goodbye(actions: &mut Vec<MonitorAction>, notice: Notice)
    ensures
        action_views(final(actions)@) == action_views(old(actions)@) + goodbye(notice),
{
    push_action(actions, MonitorAction::Report { notice });
    push_action(actions, MonitorAction::SendClose);
    push_action(actions, MonitorAction::End);
    assert(action_views(actions@) =~= action_views(old(actions)@) + goodbye(notice));
}

// ---------------------------------------------------------------------------
// Laws
// ---------------------------------------------------------------------------

/// Who is logged in as far as the backend knows, after these actions.
pub open spec fn believed(before: Option<Seq<char>>, actions: Seq<ActionView>) -> Option<Seq<char>>
    decreases actions.len(),
{
    if actions.len() == 0 {
        before
    } else {
        match actions.last() {
            ActionView::Send { label: Label::Login, username, .. } => username,
            ActionView::Send { label: Label::Logout, .. } => None,
            _ => believed(before, actions.drop_last()),
        }
    }
}

/// The backend knows who is logged in: after the greeting, and after every event.
pub proof fn the_backend_knows_who_is_logged_in(monitor: MonitorView, event: EventView)
    ensures
        believed(None, greeting(monitor.console_user)) == monitor.console_user,
        believed(monitor.console_user, emitted(monitor, event)) == next(
            monitor,
            event,
        ).console_user,
{
    reveal_with_fuel(believed, 5);
    let actions = emitted(monitor, event);
    assert(actions.len() <= 3);
    if actions.len() > 0 {
        let a = actions.drop_last();
        if a.len() > 0 {
            let b = a.drop_last();
            if b.len() > 0 {
                assert(b.drop_last().len() == 0);
            }
        }
    }
}

/// Nobody is logged out but the user the backend takes for logged in, and every
/// message about a user says what it is labelled as.
pub proof fn session_messages_say_what_they_mean(monitor: MonitorView, event: EventView, i: int)
    requires
        0 <= i < emitted(monitor, event).len(),
    ensures
        emitted(monitor, event)[i] matches ActionView::Send { label, username, text } ==> {
            &&& label is Login ==> username is Some && text == object_text(
                session_members(true, username->0),
            )
            &&& label is Logout ==> username is Some && username == monitor.console_user && text
                == object_text(session_members(false, username->0))
            &&& label is Heartbeat ==> username is None && text == object_text(heartbeat_members())
        },
{
}

/// Nothing is started twice, nothing is started where the platform does not
/// support it, and nothing is started here that is the helper's to do.
pub proof fn only_what_can_work_is_started(monitor: MonitorView, event: EventView, i: int)
    requires
        monitor.well_formed(),
        0 <= i < emitted(monitor, event).len(),
    ensures
        emitted(monitor, event)[i] is StartStream ==> monitor.platform.streams_screen()
            && !monitor.helper_owns_capture && !monitor.streaming,
        emitted(monitor, event)[i] is StartLocation ==> monitor.measures_location()
            && !monitor.gps_enabled,
        emitted(monitor, event)[i] == (ActionView::HelperScreen { enabled: true })
            ==> monitor.platform.streams_screen() && monitor.helper_owns_capture,
        emitted(monitor, event)[i] == (ActionView::HelperLocation { enabled: true })
            ==> monitor.platform.reads_location() && monitor.helper_owns_capture,
        emitted(monitor, event)[i] is SendLocation ==> monitor.gps_enabled,
{
}

/// A request that the platform cannot honour is reported, and changes nothing.
pub proof fn unsupported_requests_are_refused_aloud(monitor: MonitorView)
    ensures
        !monitor.platform.streams_screen() ==> {
            &&& command_actions(monitor, BackendCommand::StartScreen) == seq![
                ActionView::Report { notice: Notice::ScreenUnsupported },
            ]
            &&& command_state(monitor, BackendCommand::StartScreen) == monitor
        },
        !monitor.platform.reads_location() ==> {
            &&& command_actions(monitor, BackendCommand::Gps { enabled: true }) == seq![
                ActionView::Report { notice: Notice::LocationUnsupported },
            ]
            &&& command_state(monitor, BackendCommand::Gps { enabled: true }) == monitor
        },
{
}

/// A command that this process followed has nothing more to do when it comes
/// again.
pub proof fn repeated_commands_do_nothing(monitor: MonitorView, command: BackendCommand)
    requires
        monitor.well_formed(),
        !monitor.helper_owns_capture,
        command is StartScreen ==> monitor.streaming,
        command matches BackendCommand::Gps { enabled } ==> monitor.platform.reads_location(),
    ensures
        command_actions(command_state(monitor, command), command).len() == 0,
        command_state(command_state(monitor, command), command) == command_state(
            monitor,
            command,
        ),
{
}

/// A session ends on a shutdown, a stop signal or the end of the connection, and
/// on nothing else. An agent that stops by itself says goodbye first.
pub proof fn sessions_end_in_order(monitor: MonitorView, event: EventView)
    ensures
        ({
            let actions = emitted(monitor, event);
            let stops = event is StopSignal || event == (EventView::ServiceShutdown {
                requested: true,
            });
            let lost = event is BackendClosed || event is BackendFailed || event is BackendEnded;
            &&& actions.contains(ActionView::End) <==> stops || lost
            &&& actions.contains(ActionView::End) ==> actions.last() == ActionView::End
            &&& stops ==> actions.len() >= 2 && actions[actions.len() - 2] == ActionView::SendClose
            &&& actions.contains(ActionView::SendClose) ==> stops
        }),
{
    let actions = emitted(monitor, event);
    let stops = event is StopSignal || event == (EventView::ServiceShutdown { requested: true });
    let lost = event is BackendClosed || event is BackendFailed || event is BackendEnded;
    if stops || lost {
        assert(actions[actions.len() - 1] == ActionView::End);
    }
}

/// A session goes on behind an event only if everything the event called for was
/// done, and every message sent. So what the agent remembers of the backend is what
/// the backend was told.
pub proof fn a_lost_message_ends_the_session(
    monitor: MonitorView,
    event: EventView,
    sent: Seq<bool>,
    i: int,
)
    requires
        sent.len() == emitted(monitor, event).len(),
        0 <= i < sent.len(),
        forall|k: int|
            0 <= k < sent.len() ==> goes_on_after(emitted(monitor, event)[k], #[trigger] sent[k]),
    ensures
        emitted(monitor, event)[i] is Send || emitted(monitor, event)[i] is SendTelemetry
            || emitted(monitor, event)[i] is SendLocation || emitted(monitor, event)[i]
            is SendPacket ==> sent[i],
        !(emitted(monitor, event)[i] is End),
        believed(monitor.console_user, emitted(monitor, event)) == next(
            monitor,
            event,
        ).console_user,
{
    assert(goes_on_after(emitted(monitor, event)[i], sent[i]));
    the_backend_knows_who_is_logged_in(monitor, event);
}

/// The agent after all that happened, in order.
pub open spec fn after_all(monitor: MonitorView, happenings: Seq<Happening>) -> MonitorView
    decreases happenings.len(),
{
    if happenings.len() == 0 {
        monitor
    } else {
        after_one(after_all(monitor, happenings.drop_last()), happenings.last())
    }
}

/// The command that a happening brings, where it is a message of the backend's.
pub open spec fn command_in(happening: Happening) -> Option<BackendCommand> {
    match happening {
        Happening::Event { event: EventView::Backend { message } } => {
            match json_members(message, "type"@, "enabled"@) {
                Ok((kind, flag)) => Some(command_of(kind, flag)),
                Err(_) => None,
            }
        },
        _ => None,
    }
}

/// The flag of the latest location command: off where there was none.
pub open spec fn latest_gps(happenings: Seq<Happening>) -> bool
    decreases happenings.len(),
{
    if happenings.len() == 0 {
        false
    } else {
        match command_in(happenings.last()) {
            Some(BackendCommand::Gps { enabled }) => enabled,
            _ => latest_gps(happenings.drop_last()),
        }
    }
}

/// The screen counts as asked for only once a start command came.
proof fn screens_are_asked_for(monitor: MonitorView, happenings: Seq<Happening>)
    requires
        !monitor.screen_requested,
        after_all(monitor, happenings).screen_requested,
    ensures
        exists|j: int|
            0 <= j < happenings.len() && #[trigger] command_in(happenings[j]) == Some(
                BackendCommand::StartScreen,
            ),
    decreases happenings.len(),
{
    if happenings.len() > 0 {
        let ahead = happenings.drop_last();
        if after_all(monitor, ahead).screen_requested {
            screens_are_asked_for(monitor, ahead);
            let j = choose|j: int|
                0 <= j < ahead.len() && #[trigger] command_in(ahead[j]) == Some(
                    BackendCommand::StartScreen,
                );
            assert(command_in(happenings[j]) == Some(BackendCommand::StartScreen));
        } else {
            let last = happenings.len() - 1;
            assert(command_in(happenings[last]) == Some(BackendCommand::StartScreen));
        }
    }
}

/// No binary message goes out during a session before a start command was received.
pub proof fn nothing_is_shown_before_it_is_asked_for(
    monitor: MonitorView,
    happenings: Seq<Happening>,
    event: EventView,
    i: int,
)
    requires
        !monitor.screen_requested,
        0 <= i < emitted(after_all(monitor, happenings), event).len(),
        emitted(after_all(monitor, happenings), event)[i] is SendPacket,
    ensures
        exists|j: int|
            0 <= j < happenings.len() && #[trigger] command_in(happenings[j]) == Some(
                BackendCommand::StartScreen,
            ),
{
    screens_are_asked_for(monitor, happenings);
}

/// During a session the location is collected, and sent, only where the platform has
/// one and the latest location command turned it on.
pub proof fn the_latest_location_command_counts(
    monitor: MonitorView,
    happenings: Seq<Happening>,
    event: EventView,
    i: int,
)
    requires
        !monitor.gps_enabled,
    ensures
        after_all(monitor, happenings).gps_enabled == (monitor.platform.reads_location()
            && latest_gps(happenings)),
        0 <= i < emitted(after_all(monitor, happenings), event).len() && emitted(
            after_all(monitor, happenings),
            event,
        )[i] is SendLocation ==> monitor.platform.reads_location() && latest_gps(happenings),
{
    location_follows_the_commands(monitor, happenings);
}

proof fn location_follows_the_commands(monitor: MonitorView, happenings: Seq<Happening>)
    requires
        !monitor.gps_enabled,
    ensures
        after_all(monitor, happenings).platform == monitor.platform,
        after_all(monitor, happenings).gps_enabled == (monitor.platform.reads_location()
            && latest_gps(happenings)),
    decreases happenings.len(),
{
    if happenings.len() > 0 {
        location_follows_the_commands(monitor, happenings.drop_last());
    }
}

/// Text that is not JSON, or is of another type, changes nothing, and nothing is
/// sent on its account.
pub proof fn other_messages_change_nothing(monitor: MonitorView, message: Seq<char>)
    requires
        ({
            let command = command_in(Happening::Event { event: EventView::Backend { message } });
            command is None || command == Some(BackendCommand::Other)
        }),
    ensures
        next(monitor, EventView::Backend { message }) == monitor,
        emitted(monitor, EventView::Backend { message }).len() <= 1,
        forall|i: int|
            0 <= i < emitted(monitor, EventView::Backend { message }).len() ==> (#[trigger] emitted(
                monitor,
                EventView::Backend { message },
            )[i]) is ReportNotJson,
{
}

/// Whatever runs is stopped when the session has ended: the stream and the
/// location of this process, and in any case the helper.
pub proof fn nothing_outlives_a_session(monitor: MonitorView)
    requires
        monitor.well_formed(),
    ensures
        monitor.streaming ==> teardown_actions(monitor).contains(ActionView::StopStream),
        monitor.gps_enabled && !monitor.helper_owns_capture ==> teardown_actions(monitor).contains(
            ActionView::StopLocation,
        ),
        teardown_actions(monitor).contains(ActionView::StopHelper),
{
    let actions = teardown_actions(monitor);
    assert(actions[actions.len() - 1] == ActionView::StopHelper);
    if monitor.streaming {
        assert(actions[0] == ActionView::StopStream);
    }
    if monitor.measures_location() {
        assert(actions[actions.len() - 2] == ActionView::StopLocation);
    }
}

/// While the location is collected, every fix that is there when a location is due is
/// sent, once and as it is, whoever measured it; where there is none that is said, and
/// while it is not collected nothing is sent.
pub proof fn every_fix_is_sent_while_it_is_wanted(monitor: MonitorView, fix: Fix)
    ensures
        monitor.gps_enabled ==> emitted(monitor, EventView::LocationDue { fix: Some(fix) }) == seq![
            ActionView::SendLocation { fix },
        ],
        monitor.gps_enabled ==> emitted(monitor, EventView::LocationDue { fix: None }) == seq![
            ActionView::Report { notice: Notice::NoFixYet },
        ],
        !monitor.gps_enabled ==> emitted(
            monitor,
            EventView::LocationDue { fix: Some(fix) },
        ).len() == 0 && emitted(monitor, EventView::LocationDue { fix: None }).len() == 0,
{
}

/// During a session, where the platform has a location and the latest location command
/// turned it on, a fix is sent whenever one is due.
pub proof fn a_wanted_location_is_sent(
    monitor: MonitorView,
    happenings: Seq<Happening>,
    fix: Fix,
)
    requires
        !monitor.gps_enabled,
        monitor.platform is Windows,
        latest_gps(happenings),
    ensures
        emitted(after_all(monitor, happenings), EventView::LocationDue { fix: Some(fix) }) == seq![
            ActionView::SendLocation { fix },
        ],
{
    location_follows_the_commands(monitor, happenings);
}

/// A heartbeat that is due is sent, once.
pub proof fn every_heartbeat_is_sent(monitor: MonitorView)
    ensures
        emitted(monitor, EventView::HeartbeatDue).len() == 1,
        emitted(monitor, EventView::HeartbeatDue)[0] matches ActionView::Send {
            label,
            username,
            text,
        } && label is Heartbeat && username is None && text == object_text(
            seq![("type"@, crate::json::Scalar::Text("heartbeat"@))],
        ),
{
}

/// Telemetry that is due is sent, once: the memory and the storage as they were read,
/// and the bytes by which the network counters went up since the last reading, or none
/// where they went down.
pub proof fn every_reading_is_sent(monitor: MonitorView, reading: Reading)
    ensures
        emitted(monitor, EventView::TelemetryDue { reading }).len() == 1,
        emitted(monitor, EventView::TelemetryDue { reading })[0] matches ActionView::SendTelemetry {
            memory,
            storage,
            bytes_transferred,
        } && memory == reading.memory && storage == reading.storage && (if reading.network_bytes
            >= monitor.network_bytes {
            monitor.network_bytes + bytes_transferred == reading.network_bytes
        } else {
            bytes_transferred == 0
        }),
        next(monitor, EventView::TelemetryDue { reading }).network_bytes == reading.network_bytes,
{
}

/// Of two readings in a row whose counters go up, the bytes that are sent add up to
/// those from the start to the end.
pub proof fn transferred_bytes_add_up(monitor: MonitorView, first: Reading, second: Reading)
    requires
        monitor.network_bytes <= first.network_bytes <= second.network_bytes,
    ensures
        ({
            let after = next(monitor, EventView::TelemetryDue { reading: first });
            let a = emitted(monitor, EventView::TelemetryDue { reading: first })[0];
            let b = emitted(after, EventView::TelemetryDue { reading: second })[0];
            a->bytes_transferred + b->bytes_transferred == second.network_bytes
                - monitor.network_bytes
        }),
{
}

/// Once the screen was asked for, every packet is sent, once and byte for byte as it
/// is, and said to be a config message if and only if it is one.
pub proof fn every_packet_is_sent(monitor: MonitorView, packet: PacketView)
    requires
        monitor.screen_requested,
    ensures
        emitted(monitor, EventView::Packet { packet }) == seq![
            ActionView::SendPacket { bytes: packet.wire(), config: packet.kind == 1 },
        ],
{
}

/// A start command has the screen streamed wherever it can be: by the helper where it
/// is the helper's, else by this process, unless it streams already. A stop command
/// ends it.
pub proof fn screen_commands_are_followed(monitor: MonitorView)
    requires
        monitor.well_formed(),
    ensures
        ({
            let start = command_actions(monitor, BackendCommand::StartScreen);
            let stop = command_actions(monitor, BackendCommand::StopScreen);
            let can = !(monitor.platform is Macos);
            let own = !monitor.helper_owns_capture;
            &&& start.contains(ActionView::StartStream) <==> can && own && !monitor.streaming
            &&& start.contains(ActionView::HelperScreen { enabled: true }) <==> can && !own
            &&& !start.contains(ActionView::StopStream)
            &&& !start.contains(ActionView::HelperScreen { enabled: false })
            &&& stop.contains(ActionView::StopStream) <==> own && monitor.streaming
            &&& stop.contains(ActionView::HelperScreen { enabled: false }) <==> !own
            &&& !stop.contains(ActionView::StartStream)
            &&& !stop.contains(ActionView::HelperScreen { enabled: true })
            &&& can ==> command_state(monitor, BackendCommand::StartScreen).screen_requested
            &&& command_state(monitor, BackendCommand::StartScreen).streaming == monitor.streaming
            &&& !command_state(monitor, BackendCommand::StopScreen).streaming
        }),
{
    let start = command_actions(monitor, BackendCommand::StartScreen);
    let stop = command_actions(monitor, BackendCommand::StopScreen);
    if !(monitor.platform is Macos) {
        if monitor.helper_owns_capture {
            assert(start[1] == (ActionView::HelperScreen { enabled: true }));
        } else if !monitor.streaming {
            assert(start[1] == ActionView::StartStream);
        }
    }
    if monitor.helper_owns_capture {
        assert(stop[0] == (ActionView::HelperScreen { enabled: false }));
    } else if monitor.streaming {
        assert(stop[0] == ActionView::StopStream);
    }
}

/// A location command has the location collected or not, wherever there is one: the
/// helper is told every time, and this process starts and stops when it changes.
pub proof fn location_commands_are_followed(monitor: MonitorView, enabled: bool)
    requires
        monitor.well_formed(),
    ensures
        ({
            let command = BackendCommand::Gps { enabled };
            let actions = command_actions(monitor, command);
            let can = monitor.platform is Windows;
            let own = !monitor.helper_owns_capture;
            &&& command_state(monitor, command).gps_enabled == (can && enabled)
            &&& actions.contains(ActionView::HelperLocation { enabled }) <==> can && !own
            &&& !actions.contains(ActionView::HelperLocation { enabled: !enabled })
            &&& actions.contains(ActionView::StartLocation) <==> can && own && enabled
                && !monitor.gps_enabled
            &&& actions.contains(ActionView::StopLocation) <==> can && own && !enabled
                && monitor.gps_enabled
        }),
{
    let actions = command_actions(monitor, BackendCommand::Gps { enabled });
    if monitor.platform is Windows {
        if monitor.helper_owns_capture {
            assert(actions[0] == (ActionView::HelperLocation { enabled }));
        } else if enabled && !monitor.gps_enabled {
            assert(actions[0] == ActionView::StartLocation);
        } else if !enabled && monitor.gps_enabled {
            assert(actions[0] == ActionView::StopLocation);
        }
    }
}

/// Commands start and stop what they are about, and nothing else: they send nothing,
/// they do not end the session, and they change nothing else that is remembered.
pub proof fn commands_do_nothing_else(monitor: MonitorView, command: BackendCommand, i: int)
    requires
        monitor.well_formed(),
    ensures
        0 <= i < command_actions(monitor, command).len() ==> {
            let action = command_actions(monitor, command)[i];
            &&& action is Report || action is StartStream || action is StopStream || action
                is StartLocation || action is StopLocation || action is HelperScreen || action
                is HelperLocation
            &&& action is StartStream || action is StopStream || action is HelperScreen ==> command
                is StartScreen || command is StopScreen
            &&& action is StartLocation || action is StopLocation || action is HelperLocation
                ==> command is Gps
        },
        ({
            let after = command_state(monitor, command);
            &&& after.platform == monitor.platform
            &&& after.helper_owns_capture == monitor.helper_owns_capture
            &&& after.console_user == monitor.console_user
            &&& after.network_bytes == monitor.network_bytes
            &&& !(command is Gps) ==> after.gps_enabled == monitor.gps_enabled
            &&& !(command is StopScreen) ==> after.streaming == monitor.streaming
            &&& !(command is StartScreen) ==> after.screen_requested == monitor.screen_requested
            &&& monitor.screen_requested ==> after.screen_requested
        }),
{
}

/// What happened is remembered, and nothing else changes.
pub proof fn events_change_what_they_are_about(monitor: MonitorView, event: EventView)
    ensures
        ({
            let after = next(monitor, event);
            &&& after.platform == monitor.platform
            &&& after.helper_owns_capture == monitor.helper_owns_capture
            &&& after.console_user == (if event is ConsoleChecked {
                event->ConsoleChecked_user
            } else {
                monitor.console_user
            })
            &&& after.network_bytes == (if event is TelemetryDue {
                event->reading.network_bytes
            } else {
                monitor.network_bytes
            })
            &&& !(event is Backend) ==> {
                &&& after.gps_enabled == monitor.gps_enabled
                &&& after.streaming == monitor.streaming
                &&& after.screen_requested == monitor.screen_requested
            }
        }),
{
}

/// A message of the backend's is followed as the command that it holds, and one that is
/// not JSON is reported with the reason.
pub proof fn messages_are_followed_as_commands(monitor: MonitorView, message: Seq<char>)
    ensures
        match json_members(message, "type"@, "enabled"@) {
            Ok((kind, flag)) => {
                &&& emitted(monitor, EventView::Backend { message }) == command_actions(
                    monitor,
                    command_of(kind, flag),
                )
                &&& next(monitor, EventView::Backend { message }) == command_state(
                    monitor,
                    command_of(kind, flag),
                )
            },
            Err(reason) => emitted(monitor, EventView::Backend { message }) == seq![
                ActionView::ReportNotJson { reason },
            ],
        },
{
}

/// A change on the console is reported and told, logout ahead of login; no change is
/// told as nothing.
pub proof fn console_changes_are_told(monitor: MonitorView, user: Option<Seq<char>>)
    ensures
        ({
            let from = monitor.console_user;
            let actions = emitted(monitor, EventView::ConsoleChecked { user });
            let logins = if user is Some { 1int } else { 0int };
            let logouts = if from is Some { 1int } else { 0int };
            &&& from == user ==> actions.len() == 0
            &&& from != user ==> {
                &&& actions.len() == 1 + logouts + logins
                &&& actions[0] == (ActionView::ReportConsoleChange { from, to: user })
                &&& from is Some ==> (actions[1] matches ActionView::Send { label, username, .. }
                    && label is Logout && username == from)
                &&& user is Some ==> (actions.last() matches ActionView::Send {
                    label,
                    username,
                    ..
                } && label is Login && username == user)
            }
        }),
        greeting(user).len() == 1,
        user is Some ==> (greeting(user)[0] matches ActionView::Send { label, username, .. }
            && label is Login && username == user),
        user is None ==> greeting(user)[0] == (ActionView::Report { notice: Notice::NoConsoleUser }),
{
}

/// A message that cannot be sent ends the session, whatever it says; nothing else does
/// but the end itself.
pub proof fn only_lost_messages_and_the_end_stop_a_session(action: ActionView)
    ensures
        goes_on_after(action, true) <==> !(action is End),
        goes_on_after(action, false) <==> !(action is End || action is Send || action
            is SendTelemetry || action is SendLocation || action is SendPacket),
{
}

/// The end of a session is reported by its cause.
pub proof fn the_end_of_a_session_is_reported(monitor: MonitorView)
    ensures
        emitted(monitor, EventView::BackendClosed)[0] == (ActionView::Report {
            notice: Notice::BackendClosed,
        }),
        emitted(monitor, EventView::BackendFailed)[0] == (ActionView::Report {
            notice: Notice::BackendFailed,
        }),
        emitted(monitor, EventView::BackendEnded)[0] == (ActionView::Report {
            notice: Notice::BackendEnded,
        }),
        emitted(monitor, EventView::StopSignal)[0] == (ActionView::Report {
            notice: Notice::StopSignalReceived,
        }),
        emitted(monitor, EventView::ServiceShutdown { requested: true })[0] == (ActionView::Report {
            notice: Notice::ServiceShutdownRequested,
        }),
        emitted(monitor, EventView::ServiceShutdown { requested: false }).len() == 0,
{
}

/// Nothing that does not run is stopped when the session has ended.
pub proof fn only_what_runs_is_stopped(monitor: MonitorView)
    ensures
        teardown_actions(monitor).contains(ActionView::StopStream) ==> monitor.streaming,
        teardown_actions(monitor).contains(ActionView::StopLocation) <==> monitor.platform
            is Windows && !monitor.helper_owns_capture,
        teardown_actions(monitor).len() <= 3,
{
    let actions = teardown_actions(monitor);
    if monitor.platform is Windows && !monitor.helper_owns_capture {
        assert(actions[actions.len() - 2] == ActionView::StopLocation);
    }
}

/// A fix is asked for while the location is wanted, of the helper where it captures and of
/// the agent itself elsewhere.
pub proof fn fixes_come_from_who_captures(monitor: MonitorView)
    ensures
        source_for(monitor) is Some <==> monitor.gps_enabled,
        source_for(monitor) matches Some(source) ==> (source is Helper
            <==> monitor.helper_owns_capture),
{
}

/// A stream runs if and only if it started, and its start changes nothing else.
pub proof fn a_stream_runs_once_it_started(monitor: MonitorView, started: bool)
    ensures
        ({
            let after = after_one(monitor, Happening::StreamStarted { started });
            &&& after.streaming == started
            &&& after == (MonitorView { streaming: after.streaming, ..monitor })
        }),
{
}

} // verus!

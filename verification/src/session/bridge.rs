//! The service's view of the per-session helper.

use vstd::prelude::*;

use crate::command::{command_text, wire_text, BackendCommand};
use crate::json::{json_numbers, print_error, read_numbers};
use crate::platform::Platform;
use crate::session::protocol::{line, line_bytes, Frame, FRAME_GPS, FRAME_LOG, FRAME_VIDEO};
use crate::text::{chars_of, lossy_text, text_of, trim_end, trimmed_end, utf8_lossy};
use crate::video::packet::{PacketView, StreamPacket};

verus! {

/// What the session query returns when no session is attached (for example, at
/// boot before anyone logs in, or on a locked headless host).
pub const NO_ACTIVE_SESSION: u32 = 0xFFFF_FFFF;

// ---------------------------------------------------------------------------
// State
// ---------------------------------------------------------------------------

/// Whether the service manager started this process.
///
/// The same binary also runs in the foreground when launched from a console.
/// There it sits in the user's own session and captures directly, so it must not
/// delegate.
#[derive(Debug, Clone, Copy, PartialEq, Eq)]
pub struct ServiceRole {
    pub running_as_service: bool,
}

impl ServiceRole {
    /// The role of a process that was not started by the service manager.
    pub fn new() -> (role: ServiceRole)
        ensures
            !role.running_as_service,
    {
        ServiceRole { running_as_service: false }
    }
}

/// Record that the service manager started this process.
pub fn note_running_as_service(role: &mut ServiceRole)
    ensures
        final(role).running_as_service,
{
    role.running_as_service = true;
}

/// What the backend currently wants the helper to be doing.
///
/// Held separately from the connection because a command can arrive before the
/// helper has attached, or while no user is logged in.
#[derive(Debug, Clone, Copy, PartialEq, Eq)]
pub struct Wanted {
    pub screen: bool,
    pub gps: bool,
}

/// The commands that bring a freshly connected helper in line.
pub open spec fn briefing(wanted: Wanted) -> Seq<BackendCommand> {
    seq![
        if wanted.screen {
            BackendCommand::StartScreen
        } else {
            BackendCommand::StopScreen
        },
        BackendCommand::Gps { enabled: wanted.gps },
    ]
}

impl Wanted {
    /// The control messages that bring a freshly connected helper in line.
    pub fn control_lines(&self) -> (commands: Vec<BackendCommand>)
        ensures
            commands@ == briefing(*self),
    {
        let mut commands: Vec<BackendCommand> = Vec::new();
        commands.push(
            if self.screen {
                BackendCommand::StartScreen
            } else {
                BackendCommand::StopScreen
            },
        );
        commands.push(BackendCommand::Gps { enabled: self.gps });
        assert(commands@ =~= briefing(*self));
        commands
    }
}

/// A running helper and the pipe it is connected to.
#[derive(Debug, Clone, Copy, PartialEq, Eq)]
pub struct Link {
    /// Which launch this is.
    pub id: u64,
    /// The session that the helper was launched into.
    pub session_id: u32,
    /// The helper has connected. Control messages are only written when this is
    /// true: writing to a pipe nobody has opened would block.
    pub connected: bool,
    /// The pipe has not broken.
    pub alive: bool,
}

/// A location: the bits of its latitude and its longitude in double precision.
#[derive(Debug, Clone, Copy, PartialEq, Eq)]
pub struct Fix {
    pub latitude: u64,
    pub longitude: u64,
}

/// The service's view of the per-session helper.
#[derive(Debug, Clone, Copy, PartialEq, Eq)]
pub struct SessionBridge {
    /// Whether this process must delegate at all.
    pub delegating: bool,
    /// The session a helper was launched into, if any.
    pub session_id: Option<u32>,
    /// What the backend wants, kept so a new helper can be told.
    pub wanted: Wanted,
    /// The helper, if one is running.
    pub link: Option<Link>,
    /// The most recent fix reported by the helper, waiting to be sent.
    pub fix: Option<Fix>,
}

/// Why a helper is stopped.
#[derive(Debug, Clone, Copy, PartialEq, Eq)]
pub enum StopReason {
    NoSession,
    SessionChanged,
    ShuttingDown,
}

impl StopReason {
    /// The reason in words.
    pub fn text(self) -> (text: &'static str)
        ensures
            text@ == match self {
                StopReason::NoSession => "no console session is active"@,
                StopReason::SessionChanged => "the console session changed"@,
                StopReason::ShuttingDown => "the agent is shutting down"@,
            },
    {
        match self {
            StopReason::NoSession => "no console session is active",
            StopReason::SessionChanged => "the console session changed",
            StopReason::ShuttingDown => "the agent is shutting down",
        }
    }
}

/// One thing for the service to do about its helper.
#[derive(Debug, Clone, Copy, PartialEq, Eq)]
pub enum BridgeAction {
    /// Report that the helper ended by itself.
    ReportGone,
    /// Report why the helper is stopped, and terminate it.
    StopHelper { link_id: u64, reason: StopReason },
    /// Launch a helper into a session.
    StartHelper { session_id: u32 },
    /// Write a control message to the helper.
    Tell { link_id: u64, command: BackendCommand },
}

// ---------------------------------------------------------------------------
// Following the console session
// ---------------------------------------------------------------------------

/// The link, unless its helper is gone.
pub open spec fn live_link(link: Option<Link>, process_running: bool) -> Option<Link> {
    if link matches Some(l) && l.alive && process_running {
        link
    } else {
        None
    }
}

/// The action that stops a helper, if there is one.
pub open spec fn stop_actions(link: Option<Link>, reason: StopReason) -> Seq<BridgeAction> {
    match link {
        Some(l) => seq![BridgeAction::StopHelper { link_id: l.id, reason }],
        None => seq![],
    }
}

/// The session on the console, if one is attached.
pub open spec fn console_session(current: u32) -> Option<u32> {
    if current == NO_ACTIVE_SESSION {
        None
    } else {
        Some(current)
    }
}

/// What a tick does. A helper that is gone is reported. One that belongs to
/// another session than the one on the console is stopped. Where a session is on
/// the console and no helper runs in it, one is started.
pub open spec fn tick_actions(
    bridge: SessionBridge,
    current: u32,
    process_running: bool,
) -> Seq<BridgeAction> {
    let link = live_link(bridge.link, process_running);
    let gone = if bridge.link is Some && link is None {
        seq![BridgeAction::ReportGone]
    } else {
        seq![]
    };
    if !bridge.delegating {
        seq![]
    } else {
        match (console_session(current), bridge.session_id) {
            (None, None) => gone,
            (None, Some(_)) => gone + stop_actions(link, StopReason::NoSession),
            (Some(now), None) => gone + seq![BridgeAction::StartHelper { session_id: now }],
            (Some(now), Some(previous)) => if previous != now {
                gone + stop_actions(link, StopReason::SessionChanged) + seq![
                    BridgeAction::StartHelper { session_id: now },
                ]
            } else if link is None {
                gone + seq![BridgeAction::StartHelper { session_id: now }]
            } else {
                gone
            },
        }
    }
}

/// The bridge after a tick.
pub open spec fn tick_state(
    bridge: SessionBridge,
    current: u32,
    process_running: bool,
) -> SessionBridge {
    if !bridge.delegating {
        bridge
    } else {
        let session_id = console_session(current);
        SessionBridge {
            session_id,
            link: if session_id is Some && session_id == bridge.session_id {
                live_link(bridge.link, process_running)
            } else {
                None
            },
            ..bridge
        }
    }
}

impl SessionBridge {
    /// A helper runs only for a process that delegates, and only in the session
    /// that the bridge follows.
    pub open spec fn well_formed(self) -> bool {
        &&& self.session_id is Some ==> self.delegating && self.session_id != Some(
            NO_ACTIVE_SESSION,
        )
        &&& self.link matches Some(l) ==> self.session_id == Some(l.session_id)
    }

    /// Build a bridge for this process.
    ///
    /// Nothing is launched until [`SessionBridge::tick`]. Only a Windows service
    /// delegates.
    pub fn new(platform: Platform, role: ServiceRole) -> (bridge: SessionBridge)
        ensures
            bridge.well_formed(),
            bridge == (SessionBridge {
                delegating: platform is Windows && role.running_as_service,
                session_id: None,
                wanted: Wanted { screen: false, gps: false },
                link: None,
                fix: None,
            }),
    {
        SessionBridge {
            delegating: matches!(platform, Platform::Windows) && role.running_as_service,
            session_id: None,
            wanted: Wanted { screen: false, gps: false },
            link: None,
            fix: None,
        }
    }

    /// Whether screen and location have to be captured by a helper rather than
    /// by this process.
    ///
    /// It is deliberately about this process's situation, not about whether a
    /// helper is currently connected.
    pub fn delegates(&self) -> (delegates: bool)
        ensures
            delegates == self.delegating,
    {
        self.delegating
    }

    /// Drop the current link, and say how to end its helper.
    fn stop_helper(&mut self, reason: StopReason, actions: &mut Vec<BridgeAction>)
        ensures
            *final(self) == (SessionBridge { link: None, ..*old(self) }),
            final(actions)@ == old(actions)@ + stop_actions(old(self).link, reason),
    {
        if let Some(link) = self.link {
            actions.push(BridgeAction::StopHelper { link_id: link.id, reason });
        }
        assert(actions@ =~= old(actions)@ + stop_actions(old(self).link, reason));
        self.link = None;
    }

    /// Start, stop, or restart the helper to match the active console session.
    ///
    /// Called on the loop's session tick, which is the same cadence that notices
    /// logins. `process_running` says whether the process of the current link
    /// still runs.
    pub fn tick(&mut self, current: u32, process_running: bool) -> (actions: Vec<BridgeAction>)
        requires
            old(self).well_formed(),
        ensures
            final(self).well_formed(),
            *final(self) == tick_state(*old(self), current, process_running),
            actions@ == tick_actions(*old(self), current, process_running),
    {
        let mut actions: Vec<BridgeAction> = Vec::new();
        if !self.delegating {
            assert(actions@ =~= tick_actions(*old(self), current, process_running));
            return actions;
        }
        let ghost link = live_link(self.link, process_running);
        if let Some(current_link) = self.link {
            if !(current_link.alive && process_running) {
                actions.push(BridgeAction::ReportGone);
                self.link = None;
            }
        }
        assert(self.link == link);
        let no_session = current == NO_ACTIVE_SESSION;
        match self.session_id {
            None => {
                if !no_session {
                    self.session_id = Some(current);
                    actions.push(BridgeAction::StartHelper { session_id: current });
                }
            },
            Some(previous) => {
                if no_session {
                    self.stop_helper(StopReason::NoSession, &mut actions);
                    self.session_id = None;
                } else if previous != current {
                    self.stop_helper(StopReason::SessionChanged, &mut actions);
                    self.session_id = Some(current);
                    actions.push(BridgeAction::StartHelper { session_id: current });
                } else if self.link.is_none() {
                    // It can be killed by a crash, by Task Manager, or by the
                    // session's own teardown, and the service is the only thing
                    // that will notice.
                    actions.push(BridgeAction::StartHelper { session_id: current });
                }
            },
        }
        assert(actions@ =~= tick_actions(*old(self), current, process_running));
        actions
    }

    /// Account for a helper that was launched into `session_id`.
    pub fn on_helper_started(&mut self, link_id: u64, session_id: u32)
        requires
            old(self).well_formed(),
            old(self).session_id == Some(session_id),
        ensures
            final(self).well_formed(),
            *final(self) == (SessionBridge {
                link: Some(Link { id: link_id, session_id, connected: false, alive: true }),
                ..*old(self)
            }),
    {
        self.link = Some(Link { id: link_id, session_id, connected: false, alive: true });
    }

    /// Account for the end of a helper's pipe, or for a client that was refused.
    /// What is said of an earlier launch is not about the current helper.
    pub fn on_pipe_ended(&mut self, link_id: u64)
        requires
            old(self).well_formed(),
        ensures
            final(self).well_formed(),
            *final(self) == (SessionBridge {
                link: match old(self).link {
                    Some(l) => Some(
                        if l.id == link_id {
                            Link { connected: false, alive: false, ..l }
                        } else {
                            l
                        },
                    ),
                    None => None,
                },
                ..*old(self)
            }),
    {
        if let Some(link) = self.link {
            if link.id == link_id {
                self.link = Some(
                    Link {
                        id: link.id,
                        session_id: link.session_id,
                        connected: false,
                        alive: false,
                    },
                );
            }
        }
    }

    /// Account for the helper's connection, and say what to tell it: commands
    /// issued before it attached were stored rather than sent.
    pub fn on_connected(&mut self, link_id: u64) -> (commands: Vec<BackendCommand>)
        requires
            old(self).well_formed(),
        ensures
            final(self).well_formed(),
            *final(self) == (SessionBridge {
                link: match old(self).link {
                    Some(l) => Some(
                        if l.id == link_id {
                            Link { connected: true, ..l }
                        } else {
                            l
                        },
                    ),
                    None => None,
                },
                ..*old(self)
            }),
            commands@ == briefing(old(self).wanted),
    {
        if let Some(link) = self.link {
            if link.id == link_id {
                self.link = Some(
                    Link {
                        id: link.id,
                        session_id: link.session_id,
                        connected: true,
                        alive: link.alive,
                    },
                );
            }
        }
        self.wanted.control_lines()
    }

    /// The action that tells the connected helper something, if there is one.
    fn tell(&self, command: BackendCommand) -> (actions: Vec<BridgeAction>)
        ensures
            actions@ == tell_actions(self.link, command),
    {
        let mut actions: Vec<BridgeAction> = Vec::new();
        if let Some(link) = self.link {
            if link.connected {
                actions.push(BridgeAction::Tell { link_id: link.id, command });
            }
        }
        assert(actions@ =~= tell_actions(self.link, command));
        actions
    }

    /// Tell the helper whether to stream the screen.
    pub fn set_screen(&mut self, enabled: bool) -> (actions: Vec<BridgeAction>)
        requires
            old(self).well_formed(),
        ensures
            final(self).well_formed(),
            *final(self) == with_screen(*old(self), enabled),
            *final(self) == (SessionBridge {
                wanted: Wanted { screen: enabled, gps: old(self).wanted.gps },
                ..*old(self)
            }),
            actions@ == screen_actions(*old(self), enabled),
            actions@ == tell_actions(
                old(self).link,
                if enabled {
                    BackendCommand::StartScreen
                } else {
                    BackendCommand::StopScreen
                },
            ),
    {
        self.wanted.screen = enabled;
        self.tell(
            if enabled {
                BackendCommand::StartScreen
            } else {
                BackendCommand::StopScreen
            },
        )
    }

    /// Tell the helper whether to collect location.
    pub fn set_gps(&mut self, enabled: bool) -> (actions: Vec<BridgeAction>)
        requires
            old(self).well_formed(),
        ensures
            final(self).well_formed(),
            *final(self) == with_gps(*old(self), enabled),
            *final(self) == (SessionBridge {
                wanted: Wanted { screen: old(self).wanted.screen, gps: enabled },
                ..*old(self)
            }),
            actions@ == gps_actions(*old(self), enabled),
            actions@ == tell_actions(old(self).link, BackendCommand::Gps { enabled }),
    {
        self.wanted.gps = enabled;
        self.tell(BackendCommand::Gps { enabled })
    }

    /// Hold a fix that the helper reported, in place of an earlier one.
    pub fn on_fix(&mut self, fix: Fix)
        requires
            old(self).well_formed(),
        ensures
            final(self).well_formed(),
            *final(self) == (SessionBridge { fix: Some(fix), ..*old(self) }),
    {
        self.fix = Some(fix);
    }

    /// Take the most recent fix the helper reported, if there is a new one.
    pub fn take_fix(&mut self) -> (fix: Option<Fix>)
        requires
            old(self).well_formed(),
        ensures
            final(self).well_formed(),
            fix == old(self).fix,
            *final(self) == (SessionBridge { fix: None, ..*old(self) }),
    {
        let fix = self.fix;
        self.fix = None;
        fix
    }

    /// Shut the helper down. Called on the way out so no helper outlives the
    /// service's connection to the backend.
    pub fn stop(&mut self) -> (actions: Vec<BridgeAction>)
        requires
            old(self).well_formed(),
        ensures
            final(self).well_formed(),
            *final(self) == (SessionBridge { link: None, ..*old(self) }),
            actions@ == stop_actions(old(self).link, StopReason::ShuttingDown),
    {
        let mut actions: Vec<BridgeAction> = Vec::new();
        self.stop_helper(StopReason::ShuttingDown, &mut actions);
        assert(actions@ =~= stop_actions(old(self).link, StopReason::ShuttingDown));
        actions
    }
}

/// The bridge once the backend wants the screen or not.
pub open spec fn with_screen(bridge: SessionBridge, enabled: bool) -> SessionBridge {
    SessionBridge { wanted: Wanted { screen: enabled, ..bridge.wanted }, ..bridge }
}

/// What a helper is told once the backend wants the screen or not.
pub open spec fn screen_actions(bridge: SessionBridge, enabled: bool) -> Seq<BridgeAction> {
    tell_actions(
        bridge.link,
        if enabled {
            BackendCommand::StartScreen
        } else {
            BackendCommand::StopScreen
        },
    )
}

/// The bridge once the backend wants the location or not.
pub open spec fn with_gps(bridge: SessionBridge, enabled: bool) -> SessionBridge {
    SessionBridge { wanted: Wanted { gps: enabled, ..bridge.wanted }, ..bridge }
}

/// What a helper is told once the backend wants the location or not.
pub open spec fn gps_actions(bridge: SessionBridge, enabled: bool) -> Seq<BridgeAction> {
    tell_actions(bridge.link, BackendCommand::Gps { enabled })
}

/// The action that tells a connected helper something.
pub open spec fn tell_actions(link: Option<Link>, command: BackendCommand) -> Seq<BridgeAction> {
    match link {
        Some(l) => if l.connected {
            seq![BridgeAction::Tell { link_id: l.id, command }]
        } else {
            seq![]
        },
        None => seq![],
    }
}

/// The control message for a command, on a line of its own.
pub fn control_line(command: BackendCommand) -> (bytes: Vec<u8>)
    ensures
        bytes@ == line(wire_text(command)),
{
    line_bytes(command_text(command).as_str())
}

/// A client whose session the pipe told, or not, is the helper of this session.
pub open spec fn admits(session_id: u32, client_session: Option<u32>) -> bool {
    client_session == Some(session_id)
}

/// Whether the process on the other end of the pipe is in `session_id`, given the
/// session that the pipe reports for its client, if it reports one.
///
/// The pipe admits everyone, so this check is what keeps other sessions out.
pub fn client_is_in_session(client_session: Option<u32>, session_id: u32) -> (inside: bool)
    ensures
        inside == admits(session_id, client_session),
        inside == (client_session == Some(session_id)),
{
    match client_session {
        Some(client) => client == session_id,
        None => false,
    }
}

// ---------------------------------------------------------------------------
// What the helper sends
// ---------------------------------------------------------------------------

/// What a frame from the helper comes to.
pub enum FrameEvent {
    /// A packet, to be forwarded as it is.
    Packet { packet: StreamPacket },
    /// A screen frame that is no packet, by its length.
    BadPacket { length: usize },
    /// A location.
    Located { fix: Fix },
    /// A reading that lacks a coordinate.
    NoCoordinates,
    /// A reading that is not JSON.
    BadReading { reason: String },
    /// A line of the helper's log.
    Log { text: String },
    /// A frame of a kind that does not exist.
    Unknown { kind: u8 },
}

/// The location in a reading, or why there is none.
pub fn location_of(numbers: Result<(Option<u64>, Option<u64>), String>) -> (event: FrameEvent)
    ensures
        event == (match numbers {
            Ok((Some(latitude), Some(longitude))) => FrameEvent::Located {
                fix: Fix { latitude, longitude },
            },
            Ok(_) => FrameEvent::NoCoordinates,
            Err(reason) => FrameEvent::BadReading { reason },
        }),
{
    match numbers {
        Ok((Some(latitude), Some(longitude))) => FrameEvent::Located {
            fix: Fix { latitude, longitude },
        },
        Ok(_) => FrameEvent::NoCoordinates,
        Err(reason) => FrameEvent::BadReading { reason },
    }
}

/// The event that the numbers in a reading come to, or the words that say why there
/// are none.
pub open spec fn is_location_event(
    event: FrameEvent,
    numbers: Result<(Option<u64>, Option<u64>), Seq<char>>,
) -> bool {
    match numbers {
        Ok((Some(latitude), Some(longitude))) => event == (FrameEvent::Located {
            fix: Fix { latitude, longitude },
        }),
        Ok(_) => event is NoCoordinates,
        Err(words) => event matches FrameEvent::BadReading { reason } && reason@ == words,
    }
}

/// What a frame from the helper comes to.
pub fn handle_frame(frame: Frame) -> (event: FrameEvent)
    ensures
        frame.kind == FRAME_VIDEO ==> {
            &&& event is Packet || event == (FrameEvent::BadPacket { length: frame.payload.len() })
            &&& event is Packet <==> exists|p: PacketView| #[trigger] p.wire() == frame.payload@
            &&& event matches FrameEvent::Packet { packet } ==> packet@.wire() == frame.payload@
        },
        frame.kind == FRAME_GPS ==> is_location_event(
            event,
            json_numbers(frame.payload@, "latitude"@, "longitude"@),
        ),
        frame.kind == FRAME_LOG ==> (event matches FrameEvent::Log { text } && text@ == trimmed_end(
            lossy_text(frame.payload@),
        )),
        frame.kind != FRAME_VIDEO && frame.kind != FRAME_GPS && frame.kind != FRAME_LOG ==> event
            == (FrameEvent::Unknown { kind: frame.kind }),
{
    if frame.kind == FRAME_VIDEO {
        match StreamPacket::from_binary(frame.payload.as_slice()) {
            Some(packet) => FrameEvent::Packet { packet },
            None => FrameEvent::BadPacket { length: frame.payload.len() },
        }
    } else if frame.kind == FRAME_GPS {
        let numbers = read_numbers(frame.payload.as_slice(), "latitude", "longitude");
        location_of(
            match numbers {
                Ok(found) => Ok(found),
                Err(error) => Err(print_error(error)),
            },
        )
    } else if frame.kind == FRAME_LOG {
        let text = utf8_lossy(frame.payload.as_slice());
        let chars = chars_of(text.as_str());
        FrameEvent::Log { text: text_of(trim_end(chars.as_slice())) }
    } else {
        FrameEvent::Unknown { kind: frame.kind }
    }
}

/// Who is logged in in a session, from what a query of its user filled a buffer with.
pub open spec fn session_user(session_id: u32, answer: Option<Seq<u16>>) -> Option<Seq<char>> {
    match answer {
        Some(units) => if session_id == NO_ACTIVE_SESSION {
            None
        } else {
            crate::wide::name_in(units)
        },
        None => None,
    }
}

/// The name of the logged-in user on the active console session, given what the
/// session was asked for it answered, if it answered.
///
/// A Windows service runs in Session 0 and its own `USERNAME` is `SYSTEM`, so the
/// environment cannot answer this.
pub fn active_console_user(session_id: u32, answer: Option<Vec<u16>>) -> (name: Option<String>)
    ensures
        crate::text::text_view(name) == session_user(
            session_id,
            match answer {
                Some(units) => Some(units@),
                None => None,
            },
        ),
        crate::text::text_view(name) == (match answer {
            Some(units) => {
                let text = crate::text::trimmed(
                    crate::wide::wide_text(crate::wide::before_nul(units@), 0),
                );
                if session_id == NO_ACTIVE_SESSION || text.len() == 0 {
                    None
                } else {
                    Some(text)
                }
            },
            None => None,
        }),
{
    if session_id == NO_ACTIVE_SESSION {
        return None;
    }
    match answer {
        Some(units) => crate::wide::user_name(units.as_slice()),
        None => None,
    }
}

// ---------------------------------------------------------------------------
// Laws
// ---------------------------------------------------------------------------

/// A bridge that does not delegate is inert: it starts nothing, follows no
/// session, and has nobody to tell anything.
pub proof fn only_a_service_has_a_helper(
    bridge: SessionBridge,
    current: u32,
    process_running: bool,
    command: BackendCommand,
)
    requires
        bridge.well_formed(),
        !bridge.delegating,
    ensures
        bridge.link is None,
        tick_state(bridge, current, process_running) == bridge,
        tick_actions(bridge, current, process_running).len() == 0,
        tell_actions(bridge.link, command).len() == 0,
        stop_actions(bridge.link, StopReason::ShuttingDown).len() == 0,
{
}

/// After a tick, a helper that goes on running is in the session on the console;
/// and where a session is on the console, either a helper runs in it or one is
/// being started in it.
pub proof fn the_helper_follows_the_console(
    bridge: SessionBridge,
    current: u32,
    process_running: bool,
)
    requires
        bridge.well_formed(),
        bridge.delegating,
    ensures
        ({
            let after = tick_state(bridge, current, process_running);
            let actions = tick_actions(bridge, current, process_running);
            let start = BridgeAction::StartHelper { session_id: current };
            &&& after.link matches Some(l) ==> console_session(current) == Some(l.session_id)
            &&& console_session(current) is None ==> after.link is None && !actions.contains(start)
            &&& console_session(current) is Some ==> (after.link is None <==> actions.contains(
                start,
            ))
        }),
{
    let after = tick_state(bridge, current, process_running);
    let actions = tick_actions(bridge, current, process_running);
    let start = BridgeAction::StartHelper { session_id: current };
    if console_session(current) is Some && after.link is None {
        assert(actions[actions.len() - 1] == start);
    }
}

/// A second tick in the same situation does nothing, once the helper that the
/// first one asked for is running.
pub proof fn a_settled_bridge_stays_as_it_is(bridge: SessionBridge, current: u32)
    requires
        bridge.well_formed(),
        bridge.delegating,
        bridge.session_id == console_session(current),
        bridge.link matches Some(l) && l.alive,
    ensures
        tick_state(bridge, current, true) == bridge,
        tick_actions(bridge, current, true).len() == 0,
{
}

/// A connected helper is told every command, once, and it alone; one that has not
/// connected is told nothing.
pub proof fn a_connected_helper_is_told_everything(link: Link, command: BackendCommand)
    ensures
        link.connected ==> tell_actions(Some(link), command) == seq![
            BridgeAction::Tell { link_id: link.id, command },
        ],
        !link.connected ==> tell_actions(Some(link), command).len() == 0,
        tell_actions(None, command).len() == 0,
{
}

/// A tick stops the helper that runs if and only if its session is no longer the one on
/// the console, and reports one that is gone if and only if there was one. Nothing else
/// is done about it, and a helper is stopped ahead of the start of the next one.
pub proof fn a_tick_deals_with_the_old_helper(
    bridge: SessionBridge,
    current: u32,
    process_running: bool,
)
    requires
        bridge.well_formed(),
        bridge.delegating,
    ensures
        ({
            let actions = tick_actions(bridge, current, process_running);
            let lives = bridge.link is Some && bridge.link->0.alive && process_running;
            let moved = current == 0xFFFF_FFFF || bridge.session_id != Some(current);
            let stops = |action: BridgeAction| action is StopHelper && action->StopHelper_link_id
                == bridge.link->0.id;
            &&& actions.contains(BridgeAction::ReportGone) <==> bridge.link is Some && !lives
            &&& (exists|i: int| 0 <= i < actions.len() && stops(#[trigger] actions[i])) <==> lives
                && moved
            &&& forall|i: int| 0 <= i < actions.len() ==> !((#[trigger] actions[i]) is Tell)
            &&& forall|i: int|
                0 <= i < actions.len() && (#[trigger] actions[i]) is StartHelper ==> i
                    == actions.len() - 1 && actions[i] == (BridgeAction::StartHelper {
                    session_id: current,
                })
            &&& forall|i: int|
                0 <= i < actions.len() && (#[trigger] actions[i]) is StopHelper ==> lives && moved
                    && stops(actions[i]) && (actions[i]->reason is NoSession <==> current
                    == 0xFFFF_FFFF) && (actions[i]->reason is SessionChanged <==> current
                    != 0xFFFF_FFFF)
        }),
{
    let actions = tick_actions(bridge, current, process_running);
    let lives = bridge.link is Some && bridge.link->0.alive && process_running;
    let moved = current == 0xFFFF_FFFF || bridge.session_id != Some(current);
    if bridge.link is Some && !lives {
        assert(actions[0] == BridgeAction::ReportGone);
    }
    if lives && moved {
        assert(actions[0] is StopHelper);
    }
}

/// A helper that is gone is launched again into the session on the console, at the next
/// tick: its pipe ended, or its process no longer runs.
pub proof fn a_lost_helper_is_launched_again(
    bridge: SessionBridge,
    current: u32,
    process_running: bool,
)
    requires
        bridge.well_formed(),
        bridge.delegating,
        current != 0xFFFF_FFFF,
        bridge.link matches Some(l) ==> !l.alive || !process_running,
    ensures
        tick_actions(bridge, current, process_running).last() == (BridgeAction::StartHelper {
            session_id: current,
        }),
        tick_actions(bridge, current, process_running).len() > 0,
        tick_state(bridge, current, process_running).session_id == Some(current),
        tick_state(bridge, current, process_running).link is None,
{
}

/// A tick leaves what the backend wants and the fix that waits as they are.
pub proof fn a_tick_changes_nothing_else(
    bridge: SessionBridge,
    current: u32,
    process_running: bool,
)
    ensures
        ({
            let after = tick_state(bridge, current, process_running);
            &&& after.delegating == bridge.delegating
            &&& after.wanted == bridge.wanted
            &&& after.fix == bridge.fix
            &&& bridge.delegating ==> after.session_id == (if current == 0xFFFF_FFFF {
                None
            } else {
                Some(current)
            })
        }),
{
}

/// Stopping ends the helper that there is, whatever the reason.
pub proof fn stopping_ends_the_helper(link: Link, reason: StopReason)
    ensures
        stop_actions(Some(link), reason) == seq![
            BridgeAction::StopHelper { link_id: link.id, reason },
        ],
{
}

/// A reading is a location if and only if it has both coordinates, and then those.
pub proof fn readings_are_taken_as_they_are(
    event: FrameEvent,
    latitude: Option<u64>,
    longitude: Option<u64>,
    words: Seq<char>,
)
    ensures
        is_location_event(event, Ok((latitude, longitude))) ==> {
            &&& event is Located <==> latitude is Some && longitude is Some
            &&& event matches FrameEvent::Located { fix } ==> Some(fix.latitude) == latitude && Some(
                fix.longitude,
            ) == longitude
            &&& event is Located || event is NoCoordinates
        },
        is_location_event(event, Err(words)) ==> (event matches FrameEvent::BadReading { reason }
            && reason@ == words),
{
}

/// The user of a session is the name in its buffer, ahead of the NUL and without the white
/// space around it. Without a session, an answer or a name there is nobody.
pub proof fn sessions_have_the_user_in_their_buffer(
    session_id: u32,
    name: Seq<char>,
    rest: Seq<u16>,
)
    requires
        forall|i: int| 0 <= i < name.len() ==> #[trigger] name[i] != '\0',
    ensures
        ({
            let units = crate::wide::utf16(name) + seq![0u16] + rest;
            let user = session_user(session_id, Some(units));
            &&& user is None <==> session_id == 0xFFFF_FFFF || crate::text::trimmed(name).len() == 0
            &&& user matches Some(found) ==> found == crate::text::trimmed(name)
            &&& session_user(session_id, None) is None
        }),
{
    crate::wide::names_read_back(name, rest);
}

/// A pipe takes its client from its own session: of two sessions, a client is in one at
/// most, and one of an unknown session is in none.
pub proof fn clients_come_from_their_own_session(session_id: u32, other: u32)
    ensures
        admits(session_id, Some(other)) <==> other == session_id,
        !admits(session_id, None),
{
}

} // verus!

//! The service's end of the pipe: from a client's connection to its last frame.

use vstd::prelude::*;

use crate::command::BackendCommand;
use crate::json::json_numbers;
use crate::session::bridge::{
    admits, briefing, client_is_in_session, handle_frame, tick_state, Fix, FrameEvent, Link,
    SessionBridge, Wanted,
};
use crate::session::helper::{settled, Helper};
use crate::session::protocol::{Frame, FRAME_GPS, FRAME_LOG, FRAME_VIDEO};
use crate::text::{lossy_text, trimmed_end};
use crate::video::packet::{PacketView, StreamPacket};

verus! {

/// How far a reader has come.
#[derive(Debug, Clone, Copy, PartialEq, Eq)]
pub enum ReaderPhase {
    /// It waits for a client.
    Listening,
    /// A client has connected, and it is not known whose it is.
    Checking,
    /// The client is the helper.
    Serving,
    /// It is over.
    Ended,
}

/// Reads the pipe of one helper.
#[derive(Debug, Clone, Copy, PartialEq, Eq)]
pub struct PipeReader {
    /// Which launch this is.
    pub link_id: u64,
    /// The session that the helper was launched into.
    pub session_id: u32,
    pub phase: ReaderPhase,
}

/// One thing for the thread that reads the pipe to do.
pub enum ReaderAction {
    /// Ask the pipe for its client's session.
    AskClientSession,
    /// Report that no client connected.
    ReportNeverConnected,
    /// Report a client from elsewhere, by its session where the pipe told.
    ReportRefused { client_session: Option<u32> },
    /// Report the helper's connection.
    ReportConnected,
    /// Write a command to the helper.
    Tell { command: BackendCommand },
    /// Read the next frame.
    ReadFrame,
    /// Hand a packet to the loop that sends it.
    Forward { packet: StreamPacket },
    /// Report a screen frame that is no packet.
    ReportBadPacket { length: usize },
    /// Report a location reading that is not JSON.
    ReportBadReading { reason: String },
    /// Log a line for the helper.
    LogForHelper { text: String },
    /// Report a frame of a kind that does not exist.
    ReportUnknown { kind: u8 },
    /// Report the end of the pipe.
    ReportDisconnected,
}

/// What follows once an action was tried.
#[derive(Debug, Clone, Copy, PartialEq, Eq)]
pub enum FollowUp {
    /// The next action.
    Next,
    /// The next action that is not a command: a command that could not be written
    /// drops the commands behind it.
    SkipCommands,
    /// The end of the link: nobody takes the helper's packets any more.
    EndLink,
}

/// What follows an action that was done or could not be.
pub open spec fn follow_up_of(action: ReaderAction, done: bool) -> FollowUp {
    if done {
        FollowUp::Next
    } else {
        match action {
            ReaderAction::Tell { .. } => FollowUp::SkipCommands,
            ReaderAction::Forward { .. } => FollowUp::EndLink,
            _ => FollowUp::Next,
        }
    }
}

impl ReaderAction {
    /// What follows once the action was tried, and done or not.
    pub fn follow_up(&self, done: bool) -> (next: FollowUp)
        ensures
            next == follow_up_of(*self, done),
    {
        if done {
            return FollowUp::Next;
        }
        match self {
            ReaderAction::Tell { .. } => FollowUp::SkipCommands,
            ReaderAction::Forward { .. } => FollowUp::EndLink,
            _ => FollowUp::Next,
        }
    }
}

/// How far a list of actions has been followed.
#[derive(Debug, Clone, Copy, PartialEq, Eq)]
pub struct ActionRun {
    /// No command of the list failed to be written.
    pub telling: bool,
    /// The link has ended.
    pub ended: bool,
}

/// The action is tried: the link has not ended, and a command only where none ahead of
/// it failed.
pub open spec fn is_tried(run: ActionRun, action: ReaderAction) -> bool {
    !run.ended && (action is Tell ==> run.telling)
}

/// How far the list has been followed once an action was tried that this follows.
pub open spec fn run_after(run: ActionRun, next: FollowUp) -> ActionRun {
    match next {
        FollowUp::Next => run,
        FollowUp::SkipCommands => ActionRun { telling: false, ..run },
        FollowUp::EndLink => ActionRun { ended: true, ..run },
    }
}

/// How far a list of actions has been followed whose first `k` actions were tried, and
/// done or not, or were passed over.
pub open spec fn run_at(actions: Seq<ReaderAction>, done: Seq<bool>, k: int) -> ActionRun
    decreases k,
{
    if k <= 0 {
        ActionRun { telling: true, ended: false }
    } else {
        let before = run_at(actions, done, k - 1);
        if is_tried(before, actions[k - 1]) {
            run_after(before, follow_up_of(actions[k - 1], done[k - 1]))
        } else {
            before
        }
    }
}

impl ActionRun {
    /// A list of which nothing was followed yet.
    pub fn new() -> (run: ActionRun)
        ensures
            run == (ActionRun { telling: true, ended: false }),
    {
        ActionRun { telling: true, ended: false }
    }

    /// Whether the next action is tried.
    pub fn tries(&self, action: &ReaderAction) -> (tried: bool)
        ensures
            tried == is_tried(*self, *action),
    {
        let allowed = match action {
            ReaderAction::Tell { .. } => self.telling,
            _ => true,
        };
        !self.ended && allowed
    }

    /// Account for what followed an action that was tried.
    pub fn on_tried(&mut self, next: FollowUp)
        ensures
            *final(self) == run_after(*old(self), next),
    {
        match next {
            FollowUp::Next => {},
            FollowUp::SkipCommands => {
                self.telling = false;
            },
            FollowUp::EndLink => {
                self.ended = true;
            },
        }
    }
}

/// What is done about a client that is the helper: it is told what the backend wants.
pub open spec fn welcome(wanted: Wanted) -> Seq<ReaderAction> {
    seq![
        ReaderAction::ReportConnected,
        ReaderAction::Tell { command: briefing(wanted)[0] },
        ReaderAction::Tell { command: briefing(wanted)[1] },
        ReaderAction::ReadFrame,
    ]
}

/// What is done about something that came from the helper.
pub open spec fn event_actions(event: FrameEvent) -> Seq<ReaderAction> {
    match event {
        FrameEvent::Packet { packet } => seq![
            ReaderAction::Forward { packet },
            ReaderAction::ReadFrame,
        ],
        FrameEvent::BadPacket { length } => seq![
            ReaderAction::ReportBadPacket { length },
            ReaderAction::ReadFrame,
        ],
        FrameEvent::Located { .. } => seq![ReaderAction::ReadFrame],
        FrameEvent::NoCoordinates => seq![ReaderAction::ReadFrame],
        FrameEvent::BadReading { reason } => seq![
            ReaderAction::ReportBadReading { reason },
            ReaderAction::ReadFrame,
        ],
        FrameEvent::Log { text } => seq![
            ReaderAction::LogForHelper { text },
            ReaderAction::ReadFrame,
        ],
        FrameEvent::Unknown { kind } => seq![
            ReaderAction::ReportUnknown { kind },
            ReaderAction::ReadFrame,
        ],
    }
}

/// The bridge after something came from the helper: a location is kept.
pub open spec fn bridge_after(bridge: SessionBridge, event: FrameEvent) -> SessionBridge {
    match event {
        FrameEvent::Located { fix } => SessionBridge { fix: Some(fix), ..bridge },
        _ => bridge,
    }
}

/// The bridge after the pipe of launch `link_id` has ended.
pub open spec fn pipe_ended(bridge: SessionBridge, link_id: u64) -> SessionBridge {
    SessionBridge {
        link: match bridge.link {
            Some(l) => Some(
                if l.id == link_id {
                    Link { connected: false, alive: false, ..l }
                } else {
                    l
                },
            ),
            None => None,
        },
        ..bridge
    }
}

/// The bridge after the helper of launch `link_id` has connected.
pub open spec fn helper_connected(bridge: SessionBridge, link_id: u64) -> SessionBridge {
    SessionBridge {
        link: match bridge.link {
            Some(l) => Some(
                if l.id == link_id {
                    Link { connected: true, ..l }
                } else {
                    l
                },
            ),
            None => None,
        },
        ..bridge
    }
}

impl PipeReader {
    /// A reader for the helper that was launched into `session_id`.
    pub fn new(link_id: u64, session_id: u32) -> (reader: PipeReader)
        ensures
            reader == (PipeReader { link_id, session_id, phase: ReaderPhase::Listening }),
    {
        PipeReader { link_id, session_id, phase: ReaderPhase::Listening }
    }

    /// A client has connected, or none ever will.
    pub fn on_accept(&mut self, bridge: &mut SessionBridge, accepted: bool) -> (action:
        ReaderAction)
        requires
            old(bridge).well_formed(),
            old(self).phase is Listening,
        ensures
            final(bridge).well_formed(),
            *final(self) == (PipeReader {
                phase: if accepted {
                    ReaderPhase::Checking
                } else {
                    ReaderPhase::Ended
                },
                ..*old(self)
            }),
            *final(bridge) == if accepted {
                *old(bridge)
            } else {
                pipe_ended(*old(bridge), old(self).link_id)
            },
            action == if accepted {
                ReaderAction::AskClientSession
            } else {
                ReaderAction::ReportNeverConnected
            },
    {
        if accepted {
            self.phase = ReaderPhase::Checking;
            ReaderAction::AskClientSession
        } else {
            self.phase = ReaderPhase::Ended;
            bridge.on_pipe_ended(self.link_id);
            ReaderAction::ReportNeverConnected
        }
    }

    /// The pipe has told its client's session, or cannot tell.
    ///
    /// A connection is not by itself proof that the right process connected, so
    /// the client is checked against the session the helper was launched into.
    /// The helper is told at once what the backend currently wants.
    pub fn on_client(&mut self, bridge: &mut SessionBridge, client_session: Option<u32>) -> (actions:
        Vec<ReaderAction>)
        requires
            old(bridge).well_formed(),
            old(self).phase is Checking,
        ensures
            final(bridge).well_formed(),
            final(self).phase is Serving <==> admits(old(self).session_id, client_session),
            client_session == Some(old(self).session_id) ==> {
                &&& *final(self) == (PipeReader { phase: ReaderPhase::Serving, ..*old(self) })
                &&& *final(bridge) == helper_connected(*old(bridge), old(self).link_id)
                &&& actions@ == welcome(old(bridge).wanted)
                &&& actions@ == seq![
                    ReaderAction::ReportConnected,
                    ReaderAction::Tell { command: briefing(old(bridge).wanted)[0] },
                    ReaderAction::Tell { command: briefing(old(bridge).wanted)[1] },
                    ReaderAction::ReadFrame,
                ]
            },
            client_session != Some(old(self).session_id) ==> {
                &&& *final(self) == (PipeReader { phase: ReaderPhase::Ended, ..*old(self) })
                &&& *final(bridge) == pipe_ended(*old(bridge), old(self).link_id)
                &&& actions@ == seq![ReaderAction::ReportRefused { client_session }]
            },
    {
        let mut actions: Vec<ReaderAction> = Vec::new();
        if !client_is_in_session(client_session, self.session_id) {
            self.phase = ReaderPhase::Ended;
            bridge.on_pipe_ended(self.link_id);
            actions.push(ReaderAction::ReportRefused { client_session });
            assert(actions@ =~= seq![ReaderAction::ReportRefused { client_session }]);
            return actions;
        }
        self.phase = ReaderPhase::Serving;
        let commands = bridge.on_connected(self.link_id);
        actions.push(ReaderAction::ReportConnected);
        actions.push(ReaderAction::Tell { command: commands[0] });
        actions.push(ReaderAction::Tell { command: commands[1] });
        actions.push(ReaderAction::ReadFrame);
        assert(actions@ =~= seq![
            ReaderAction::ReportConnected,
            ReaderAction::Tell { command: briefing(old(bridge).wanted)[0] },
            ReaderAction::Tell { command: briefing(old(bridge).wanted)[1] },
            ReaderAction::ReadFrame,
        ]);
        actions
    }

    /// What to do with a frame of the helper's, by what it comes to.
    pub fn on_event(&mut self, bridge: &mut SessionBridge, event: FrameEvent) -> (actions: Vec<
        ReaderAction,
    >)
        requires
            old(bridge).well_formed(),
            old(self).phase is Serving,
        ensures
            final(bridge).well_formed(),
            *final(self) == *old(self),
            *final(bridge) == bridge_after(*old(bridge), event),
            actions@ == event_actions(event),
    {
        let mut actions: Vec<ReaderAction> = Vec::new();
        match event {
            FrameEvent::Packet { packet } => actions.push(ReaderAction::Forward { packet }),
            FrameEvent::BadPacket { length } => actions.push(
                ReaderAction::ReportBadPacket { length },
            ),
            FrameEvent::Located { fix } => bridge.on_fix(fix),
            FrameEvent::NoCoordinates => {},
            FrameEvent::BadReading { reason } => actions.push(
                ReaderAction::ReportBadReading { reason },
            ),
            FrameEvent::Log { text } => actions.push(ReaderAction::LogForHelper { text }),
            FrameEvent::Unknown { kind } => actions.push(ReaderAction::ReportUnknown { kind }),
        }
        actions.push(ReaderAction::ReadFrame);
        actions
    }

    /// What to do with a frame of the helper's.
    pub fn on_frame(&mut self, bridge: &mut SessionBridge, frame: Frame) -> (actions: Vec<
        ReaderAction,
    >)
        requires
            old(bridge).well_formed(),
            old(self).phase is Serving,
        ensures
            final(bridge).well_formed(),
            *final(self) == *old(self),
            actions@.len() > 0,
            actions@.last() == ReaderAction::ReadFrame,
            frame.kind == FRAME_VIDEO ==> {
                &&& *final(bridge) == *old(bridge)
                &&& actions@.len() == 2
                &&& (exists|p: PacketView| #[trigger] p.wire() == frame.payload@) ==> (actions@[0]
                    matches ReaderAction::Forward { packet } && packet@.wire() == frame.payload@)
                &&& !(exists|p: PacketView| #[trigger] p.wire() == frame.payload@) ==> actions@[0]
                    == (ReaderAction::ReportBadPacket { length: frame.payload.len() })
            },
            frame.kind == FRAME_GPS ==> match json_numbers(
                frame.payload@,
                "latitude"@,
                "longitude"@,
            ) {
                Ok((Some(latitude), Some(longitude))) => {
                    &&& *final(bridge) == (SessionBridge {
                        fix: Some(Fix { latitude, longitude }),
                        ..*old(bridge)
                    })
                    &&& actions@.len() == 1
                },
                Ok(_) => *final(bridge) == *old(bridge) && actions@.len() == 1,
                Err(words) => {
                    &&& *final(bridge) == *old(bridge)
                    &&& actions@.len() == 2
                    &&& actions@[0] matches ReaderAction::ReportBadReading { reason }
                    &&& reason@ == words
                },
            },
            frame.kind == FRAME_LOG ==> {
                &&& *final(bridge) == *old(bridge)
                &&& actions@.len() == 2
                &&& actions@[0] matches ReaderAction::LogForHelper { text }
                &&& text@ == trimmed_end(lossy_text(frame.payload@))
            },
            frame.kind != FRAME_VIDEO && frame.kind != FRAME_GPS && frame.kind != FRAME_LOG ==> {
                &&& *final(bridge) == *old(bridge)
                &&& actions@.len() == 2
                &&& actions@[0] == (ReaderAction::ReportUnknown { kind: frame.kind })
            },
    {
        let event = handle_frame(frame);
        self.on_event(bridge, event)
    }

    /// The helper exited or was killed, or nobody takes its packets any more.
    pub fn on_end(&mut self, bridge: &mut SessionBridge) -> (action: ReaderAction)
        requires
            old(bridge).well_formed(),
            old(self).phase is Serving,
        ensures
            final(bridge).well_formed(),
            *final(self) == (PipeReader { phase: ReaderPhase::Ended, ..*old(self) }),
            *final(bridge) == pipe_ended(*old(bridge), old(self).link_id),
            action == ReaderAction::ReportDisconnected,
    {
        self.phase = ReaderPhase::Ended;
        bridge.on_pipe_ended(self.link_id);
        ReaderAction::ReportDisconnected
    }
}

/// What the backend wants outlives every helper: neither a tick nor a connection nor
/// the end of a pipe changes it, so the next helper is told the same.
pub proof fn what_is_wanted_outlives_a_helper(
    bridge: SessionBridge,
    current: u32,
    process_running: bool,
    link_id: u64,
)
    ensures
        tick_state(bridge, current, process_running).wanted == bridge.wanted,
        helper_connected(bridge, link_id).wanted == bridge.wanted,
        pipe_ended(bridge, link_id).wanted == bridge.wanted,
{
}

/// Behind a command that could not be written no command of the list is tried, and
/// behind a packet that nobody took nothing at all.
pub proof fn a_failed_action_drops_what_it_makes_pointless(
    actions: Seq<ReaderAction>,
    done: Seq<bool>,
    i: int,
    k: int,
)
    requires
        0 <= i < k,
        is_tried(run_at(actions, done, i), actions[i]),
        !done[i],
    ensures
        actions[i] is Tell && actions[k] is Tell ==> !is_tried(
            run_at(actions, done, k),
            actions[k],
        ),
        actions[i] is Forward ==> !is_tried(run_at(actions, done, k), actions[k]),
{
    failures_are_remembered(actions, done, i, k);
}

proof fn failures_are_remembered(actions: Seq<ReaderAction>, done: Seq<bool>, i: int, k: int)
    requires
        0 <= i < k,
        is_tried(run_at(actions, done, i), actions[i]),
        !done[i],
    ensures
        actions[i] is Tell ==> !run_at(actions, done, k).telling,
        actions[i] is Forward ==> run_at(actions, done, k).ended,
    decreases k,
{
    if i < k - 1 {
        failures_are_remembered(actions, done, i, k - 1);
    }
}

/// Everything that is done leads to the next action: where all that is tried is done,
/// every action of the list is tried.
pub proof fn nothing_is_dropped_without_a_failure(
    actions: Seq<ReaderAction>,
    done: Seq<bool>,
    k: int,
)
    requires
        0 <= k,
        forall|i: int| 0 <= i < k ==> #[trigger] done[i],
    ensures
        is_tried(run_at(actions, done, k), actions[k]),
{
    untouched_run(actions, done, k);
}

proof fn untouched_run(actions: Seq<ReaderAction>, done: Seq<bool>, k: int)
    requires
        0 <= k,
        forall|i: int| 0 <= i < k ==> #[trigger] done[i],
    ensures
        run_at(actions, done, k) == (ActionRun { telling: true, ended: false }),
    decreases k,
{
    if k > 0 {
        untouched_run(actions, done, k - 1);
        assert(done[k - 1]);
    }
}

/// A reader of an earlier launch says nothing of the helper that runs now.
pub proof fn earlier_launches_do_not_matter(bridge: SessionBridge, link_id: u64)
    requires
        bridge.link matches Some(l) ==> l.id != link_id,
    ensures
        helper_connected(bridge, link_id) == bridge,
        pipe_ended(bridge, link_id) == bridge,
{
}

/// The end of a helper's pipe is noticed: its link is neither connected nor alive, so
/// that it is told nothing more and the next tick launches another.
pub proof fn an_ended_pipe_is_noticed(bridge: SessionBridge, link: Link)
    requires
        bridge.link == Some(link),
    ensures
        pipe_ended(bridge, link.id).link == Some(
            Link { id: link.id, session_id: link.session_id, connected: false, alive: false },
        ),
        pipe_ended(bridge, link.id) == (SessionBridge {
            link: pipe_ended(bridge, link.id).link,
            ..bridge
        }),
{
}

/// The connection of the helper is noticed, and changes nothing else.
pub proof fn a_connection_is_noticed(bridge: SessionBridge, link: Link)
    requires
        bridge.link == Some(link),
    ensures
        helper_connected(bridge, link.id).link == Some(
            Link {
                id: link.id,
                session_id: link.session_id,
                connected: true,
                alive: link.alive,
            },
        ),
        helper_connected(bridge, link.id) == (SessionBridge {
            link: helper_connected(bridge, link.id).link,
            ..bridge
        }),
{
}

/// What follows an action that was not done: a command drops the commands behind it, a
/// packet ends the link, and nothing else matters. What was done always leads on.
pub proof fn failures_matter_where_they_do(action: ReaderAction)
    ensures
        follow_up_of(action, true) is Next,
        follow_up_of(action, false) is SkipCommands <==> action is Tell,
        follow_up_of(action, false) is EndLink <==> action is Forward,
{
}

/// The helper once it has followed the commands that it was told among these actions.
pub open spec fn told_by(helper: Helper, actions: Seq<ReaderAction>) -> Helper
    decreases actions.len(),
{
    if actions.len() == 0 {
        helper
    } else {
        let before = told_by(helper, actions.drop_last());
        match actions.last() {
            ReaderAction::Tell { command } => settled(before, command),
            _ => before,
        }
    }
}

/// A helper that connects is told what the backend wants, whatever it did before, and is
/// listened to from then on.
pub proof fn a_new_helper_is_brought_in_line(helper: Helper, wanted: Wanted)
    ensures
        told_by(helper, welcome(wanted)).streaming == wanted.screen,
        told_by(helper, welcome(wanted)).locating == wanted.gps,
        welcome(wanted).contains(ReaderAction::ReportConnected),
        welcome(wanted).last() == ReaderAction::ReadFrame,
{
    reveal_with_fuel(told_by, 5);
    let actions = welcome(wanted);
    assert(actions[0] == ReaderAction::ReportConnected);
    assert(actions.len() == 4);
    let third = actions.drop_last();
    let second = third.drop_last();
    let first = second.drop_last();
    assert(first.drop_last().len() == 0);
    assert(first.last() == actions[0]);
    assert(second.last() == actions[1]);
    assert(third.last() == actions[2]);
    assert(told_by(helper, first) == helper);
}

/// Every packet is forwarded as it came, every location is kept for the backend, every
/// line of the helper's log is logged, and what makes no sense is reported. The reader
/// reads on after each.
pub proof fn everything_from_a_helper_is_dealt_with(bridge: SessionBridge, event: FrameEvent)
    ensures
        ({
            let actions = event_actions(event);
            let after = bridge_after(bridge, event);
            &&& actions.len() > 0
            &&& actions.last() == ReaderAction::ReadFrame
            &&& event matches FrameEvent::Packet { packet } ==> actions[0] == (
            ReaderAction::Forward { packet })
            &&& event matches FrameEvent::BadPacket { length } ==> actions[0] == (
            ReaderAction::ReportBadPacket { length })
            &&& event matches FrameEvent::BadReading { reason } ==> actions[0] == (
            ReaderAction::ReportBadReading { reason })
            &&& event matches FrameEvent::Log { text } ==> actions[0] == (
            ReaderAction::LogForHelper { text })
            &&& event matches FrameEvent::Unknown { kind } ==> actions[0] == (
            ReaderAction::ReportUnknown { kind })
            &&& event matches FrameEvent::Located { fix } ==> after.fix == Some(fix)
            &&& !(event is Located) ==> after.fix == bridge.fix
            &&& after.link == bridge.link && after.wanted == bridge.wanted && after.session_id
                == bridge.session_id && after.delegating == bridge.delegating
            &&& actions.len() == (if event is Located || event is NoCoordinates {
                1int
            } else {
                2
            })
        }),
{
}

} // verus!

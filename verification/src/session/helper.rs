//! The helper's side: it captures in the user's session and reports to the
//! service.

use vstd::prelude::*;
use vstd::utf8::encode_utf8;

use crate::command::{command_of, read_command, wire_text, BackendCommand};
use crate::json::json_members;
use crate::session::bridge::{
    briefing, gps_actions, screen_actions, with_gps, with_screen, BridgeAction, Fix, SessionBridge,
    Wanted,
};
use crate::session::protocol::{
    frame, frame_bytes, is_one_line, lines_read_back, progress, Progress, FRAME_GPS, FRAME_LOG,
    FRAME_VIDEO, MAX_CONTROL_BYTES, MAX_FRAME_BYTES,
};
use crate::text::same_text;
use crate::video::packet::{PacketView, StreamPacket, STREAM_KIND_CONFIG};

verus! {

/// What the helper is doing.
#[derive(Debug, Clone, Copy, PartialEq, Eq)]
pub struct Helper {
    /// A screen stream runs.
    pub streaming: bool,
    /// The location is being collected.
    pub locating: bool,
}

/// One thing for the helper to do.
#[derive(Debug, Clone, Copy, PartialEq, Eq)]
pub enum HelperAction {
    /// Start a screen stream, and say whether it could be started.
    StartStream,
    /// Stop the screen stream.
    StopStream,
    /// Start collecting the location.
    StartLocation,
    /// Stop collecting the location.
    StopLocation,
}

/// What a command has the helper do.
pub open spec fn control_action(helper: Helper, command: BackendCommand) -> Option<HelperAction> {
    match command {
        BackendCommand::StartScreen => if helper.streaming {
            None
        } else {
            Some(HelperAction::StartStream)
        },
        BackendCommand::StopScreen => if helper.streaming {
            Some(HelperAction::StopStream)
        } else {
            None
        },
        BackendCommand::Gps { enabled } => if enabled && !helper.locating {
            Some(HelperAction::StartLocation)
        } else if !enabled && helper.locating {
            Some(HelperAction::StopLocation)
        } else {
            None
        },
        BackendCommand::Other => None,
    }
}

/// The helper after a command. A stream that is to be started does not run yet.
pub open spec fn control_state(helper: Helper, command: BackendCommand) -> Helper {
    match command {
        BackendCommand::StartScreen => helper,
        BackendCommand::StopScreen => Helper { streaming: false, ..helper },
        BackendCommand::Gps { enabled } => Helper { locating: enabled, ..helper },
        BackendCommand::Other => helper,
    }
}

impl Helper {
    /// A helper that does nothing yet.
    pub fn new() -> (helper: Helper)
        ensures
            helper == (Helper { streaming: false, locating: false }),
    {
        Helper { streaming: false, locating: false }
    }

    /// Follow a command.
    pub fn on_command(&mut self, command: BackendCommand) -> (action: Option<HelperAction>)
        ensures
            *final(self) == control_state(*old(self), command),
            action == control_action(*old(self), command),
    {
        match command {
            BackendCommand::StartScreen => {
                if self.streaming {
                    None
                } else {
                    Some(HelperAction::StartStream)
                }
            },
            BackendCommand::StopScreen => {
                if self.streaming {
                    self.streaming = false;
                    Some(HelperAction::StopStream)
                } else {
                    None
                }
            },
            BackendCommand::Gps { enabled } => {
                let was = self.locating;
                self.locating = enabled;
                if enabled && !was {
                    Some(HelperAction::StartLocation)
                } else if !enabled && was {
                    Some(HelperAction::StopLocation)
                } else {
                    None
                }
            },
            BackendCommand::Other => None,
        }
    }

    /// Follow a control message. One that is not JSON is ignored.
    pub fn handle_control(&mut self, message: &str) -> (action: Option<HelperAction>)
        ensures
            match json_members(message@, "type"@, "enabled"@) {
                Ok((kind, flag)) => {
                    &&& *final(self) == control_state(*old(self), command_of(kind, flag))
                    &&& action == control_action(*old(self), command_of(kind, flag))
                },
                Err(_) => *final(self) == *old(self) && action is None,
            },
            forall|c: BackendCommand|
                !(c is Other) && message@ == #[trigger] wire_text(c) ==> {
                    &&& *final(self) == control_state(*old(self), c)
                    &&& action == control_action(*old(self), c)
                },
    {
        match read_command(message) {
            Ok(command) => self.on_command(command),
            Err(_) => None,
        }
    }

    /// Account for a stream that was to be started.
    pub fn on_stream_started(&mut self, started: bool)
        requires
            !old(self).streaming,
        ensures
            *final(self) == (Helper { streaming: started, ..*old(self) }),
    {
        self.streaming = started;
    }

    /// The fix that goes to the service when a location is due: whatever there is,
    /// while the location is being collected.
    pub fn on_location_due(&self, fix: Option<Fix>) -> (reported: Option<Fix>)
        ensures
            reported == reported_fix(*self, fix),
            reported == if self.locating {
                fix
            } else {
                None
            },
    {
        if self.locating {
            fix
        } else {
            None
        }
    }

    /// What is left to stop when the helper ends: the service is gone, or a frame
    /// could not be written to it.
    pub fn on_service_gone(&mut self) -> (action: Option<HelperAction>)
        ensures
            *final(self) == (Helper { streaming: false, ..*old(self) }),
            action == if old(self).streaming {
                Some(HelperAction::StopStream)
            } else {
                None
            },
    {
        if self.streaming {
            self.streaming = false;
            Some(HelperAction::StopStream)
        } else {
            None
        }
    }
}

/// A packet on its way to the service.
pub struct ForwardedPacket {
    /// The frame to write.
    pub frame: Vec<u8>,
    /// The length of the packet in it.
    pub packet_len: usize,
    /// The packet is a config message.
    pub config: bool,
}

/// The frame that takes a packet to the service.
pub fn forward_packet(packet: StreamPacket) -> (forwarded: ForwardedPacket)
    ensures
        forwarded.frame@ == frame(FRAME_VIDEO, packet@.wire()),
        forwarded.packet_len == packet@.wire().len(),
        forwarded.config == (packet.kind == STREAM_KIND_CONFIG),
{
    let config = packet.kind == STREAM_KIND_CONFIG;
    let binary = packet.into_binary();
    ForwardedPacket {
        frame: frame_bytes(FRAME_VIDEO, binary.as_slice()),
        packet_len: binary.len(),
        config,
    }
}

/// The frame that takes a location reading to the service.
pub fn location_frame(reading: &str) -> (bytes: Vec<u8>)
    ensures
        bytes@ == frame(FRAME_GPS, encode_utf8(reading@)),
{
    frame_bytes(FRAME_GPS, reading.as_bytes())
}

/// The frame that tells the service why a screen stream could not be started.
pub fn start_failure_frame(error: &str) -> (bytes: Vec<u8>)
    ensures
        bytes@ == frame(FRAME_LOG, encode_utf8("Screen stream start failed: "@ + error@)),
{
    let mut text = "Screen stream start failed: ".to_owned();
    text.append(error);
    frame_bytes(FRAME_LOG, text.as_str().as_bytes())
}

/// The value behind the first `flag` among the arguments from `from` on.
pub open spec fn value_from(arguments: Seq<String>, flag: Seq<char>, from: int) -> Option<String>
    decreases arguments.len() - from,
{
    if from >= arguments.len() {
        None
    } else if arguments[from]@ == flag {
        if from + 1 < arguments.len() {
            Some(arguments[from + 1])
        } else {
            None
        }
    } else {
        value_from(arguments, flag, from + 1)
    }
}

/// Value of `--flag value` in the process arguments, the first of which is the
/// program itself.
pub fn argument_value(arguments: &Vec<String>, flag: &str) -> (value: Option<String>)
    ensures
        crate::text::text_view(value) == crate::text::text_view(
            value_from(arguments@, flag@, 1),
        ),
{
    let mut i: usize = 1;
    while i < arguments.len()
        invariant
            1 <= i,
            value_from(arguments@, flag@, i as int) == value_from(arguments@, flag@, 1),
        decreases arguments@.len() - i,
    {
        if same_text(arguments[i].as_str(), flag) {
            if i + 1 < arguments.len() {
                return Some(arguments[i + 1].clone());
            }
            return None;
        }
        i = i + 1;
    }
    None
}

// ---------------------------------------------------------------------------
// Laws
// ---------------------------------------------------------------------------

/// The helper after a command, where a stream that is to be started starts.
pub open spec fn settled(helper: Helper, command: BackendCommand) -> Helper {
    if control_action(helper, command) == Some(HelperAction::StartStream) {
        Helper { streaming: true, ..control_state(helper, command) }
    } else {
        control_state(helper, command)
    }
}

/// Whatever a helper is doing, the briefing brings it in line with what the
/// backend wants.
pub proof fn the_briefing_brings_a_helper_in_line(helper: Helper, wanted: Wanted)
    ensures
        settled(settled(helper, briefing(wanted)[0]), briefing(wanted)[1]) == (Helper {
            streaming: wanted.screen,
            locating: wanted.gps,
        }),
{
}

/// A command that was followed has nothing more to do when it comes again.
pub proof fn repeated_commands_do_nothing(helper: Helper, command: BackendCommand)
    ensures
        control_action(settled(helper, command), command) is None,
        settled(settled(helper, command), command) == settled(helper, command),
{
}

/// A helper that is in line with what the backend wants stays in line when it is told
/// of a change.
pub proof fn commands_keep_a_helper_in_line(wanted: Wanted, enabled: bool)
    ensures
        settled(
            Helper { streaming: wanted.screen, locating: wanted.gps },
            if enabled {
                BackendCommand::StartScreen
            } else {
                BackendCommand::StopScreen
            },
        ) == (Helper { streaming: enabled, locating: wanted.gps }),
        settled(
            Helper { streaming: wanted.screen, locating: wanted.gps },
            BackendCommand::Gps { enabled },
        ) == (Helper { streaming: wanted.screen, locating: enabled }),
{
}

/// A packet reaches the service as it was: its frame reads back as a video frame
/// with the packet's wire form, and no other packet has that wire form.
pub proof fn forwarded_packets_arrive_unchanged(packet: PacketView, arrived: PacketView)
    requires
        packet.wire().len() <= MAX_FRAME_BYTES,
    ensures
        progress(frame(FRAME_VIDEO, packet.wire())) == (Progress::Complete {
            kind: FRAME_VIDEO,
            payload: packet.wire(),
        }),
        arrived.wire() == packet.wire() ==> arrived == packet,
{
    let whole = frame(FRAME_VIDEO, packet.wire());
    assert(whole.take(whole.len() as int) =~= whole);
    crate::session::protocol::frames_read_back(FRAME_VIDEO, packet.wire(), whole);
    if arrived.wire() == packet.wire() {
        crate::video::packet::wire_form_is_unambiguous(arrived, packet);
    }
}

/// A command fits on one control line, so that a helper reads what the service
/// wrote.
pub proof fn commands_fit_on_a_line(command: BackendCommand)
    ensures
        is_one_line(wire_text(command)),
        encode_utf8(wire_text(command)).len() <= MAX_CONTROL_BYTES,
        vstd::utf8::decode_utf8(encode_utf8(wire_text(command))) == wire_text(command),
{
    reveal_strlit("type");
    reveal_strlit("enabled");
    reveal_strlit("START_SCREEN_STREAM");
    reveal_strlit("STOP_SCREEN_STREAM");
    reveal_strlit("GPS_COLLECTION");
    let text = wire_text(command);
    assert(text.len() <= 100);
    assert(forall|i: int|
        0 <= i < text.len() ==> 0x20 <= (#[trigger] text[i]) as u32 && text[i] as u32 <= 0x7f);
    vstd::utf8::is_ascii_chars_encode_utf8(text);
    lines_read_back(text, 0);
}

/// The helper once it has followed the commands that it was told among these actions.
pub open spec fn told(helper: Helper, actions: Seq<BridgeAction>) -> Helper
    decreases actions.len(),
{
    if actions.len() == 0 {
        helper
    } else {
        let before = told(helper, actions.drop_last());
        match actions.last() {
            BridgeAction::Tell { command, .. } => settled(before, command),
            _ => before,
        }
    }
}

/// The helper does what the backend wants.
pub open spec fn in_line(helper: Helper, wanted: Wanted) -> bool {
    helper.streaming == wanted.screen && helper.locating == wanted.gps
}

/// A connected helper is kept in line: one that does what the backend wants does what it
/// wants then, once it has followed what it was told of a change.
pub proof fn a_connected_helper_stays_in_line(
    bridge: SessionBridge,
    helper: Helper,
    enabled: bool,
)
    requires
        bridge.link matches Some(l) && l.connected,
        in_line(helper, bridge.wanted),
    ensures
        in_line(
            told(helper, screen_actions(bridge, enabled)),
            with_screen(bridge, enabled).wanted,
        ),
        in_line(told(helper, gps_actions(bridge, enabled)), with_gps(bridge, enabled).wanted),
        with_screen(bridge, enabled).wanted.screen == enabled,
        with_gps(bridge, enabled).wanted.gps == enabled,
        with_screen(bridge, enabled).wanted.gps == bridge.wanted.gps,
        with_gps(bridge, enabled).wanted.screen == bridge.wanted.screen,
{
    reveal_with_fuel(told, 2);
    let a = screen_actions(bridge, enabled);
    let b = gps_actions(bridge, enabled);
    assert(a.len() == 1 && b.len() == 1);
    assert(a.drop_last().len() == 0 && b.drop_last().len() == 0);
}

/// A helper that connects later is brought in line by the briefing, whatever the backend
/// wanted meanwhile.
pub proof fn a_late_helper_is_brought_in_line(
    bridge: SessionBridge,
    helper: Helper,
    screen: bool,
    gps: bool,
)
    ensures
        ({
            let wanted = with_gps(with_screen(bridge, screen), gps).wanted;
            let lines = briefing(wanted);
            &&& lines.len() == 2
            &&& in_line(settled(settled(helper, lines[0]), lines[1]), Wanted { screen, gps })
        }),
{
}

/// The helper acts when something changes, and only then: it starts a stream that does
/// not run and stops one that does, and starts and stops the location as it is turned on
/// and off.
pub proof fn a_helper_acts_on_changes(helper: Helper, command: BackendCommand)
    ensures
        ({
            let action = control_action(helper, command);
            let after = control_state(helper, command);
            &&& action == Some(HelperAction::StartStream) <==> command is StartScreen
                && !helper.streaming
            &&& action == Some(HelperAction::StopStream) <==> helper.streaming && !after.streaming
            &&& action == Some(HelperAction::StartLocation) <==> !helper.locating && after.locating
            &&& action == Some(HelperAction::StopLocation) <==> helper.locating && !after.locating
            &&& command is StopScreen ==> !after.streaming
            &&& !(command is StopScreen) ==> after.streaming == helper.streaming
            &&& after.locating == (match command {
                BackendCommand::Gps { enabled } => enabled,
                _ => helper.locating,
            })
        }),
{
}

/// The value of a flag is the argument right behind the first place where the flag
/// stands, and there is none where the flag does not stand or is the last.
pub proof fn flags_have_the_value_behind_them(
    arguments: Seq<String>,
    flag: Seq<char>,
    from: int,
    at: int,
)
    requires
        0 <= from <= at < arguments.len(),
        arguments[at]@ == flag,
        forall|i: int| from <= i < at ==> (#[trigger] arguments[i])@ != flag,
    ensures
        value_from(arguments, flag, from) == (if at + 1 < arguments.len() {
            Some(arguments[at + 1])
        } else {
            None
        }),
    decreases at - from,
{
    if from < at {
        assert(arguments[from]@ != flag);
        flags_have_the_value_behind_them(arguments, flag, from + 1, at);
    }
}

/// A flag that does not stand among the arguments has no value.
pub proof fn missing_flags_have_no_value(arguments: Seq<String>, flag: Seq<char>, from: int)
    requires
        0 <= from,
        forall|i: int| from <= i < arguments.len() ==> (#[trigger] arguments[i])@ != flag,
    ensures
        value_from(arguments, flag, from) is None,
    decreases arguments.len() - from,
{
    if from < arguments.len() {
        assert(arguments[from]@ != flag);
        missing_flags_have_no_value(arguments, flag, from + 1);
    }
}

/// What a helper reports of the fix that it has: it, while the location is wanted.
pub open spec fn reported_fix(helper: Helper, fix: Option<Fix>) -> Option<Fix> {
    if helper.locating {
        fix
    } else {
        None
    }
}

/// A helper that was told to collect the location reports every fix as it is, and one that
/// was told to stop reports none, whatever it did before.
pub proof fn fixes_are_reported_while_they_are_wanted(
    helper: Helper,
    enabled: bool,
    fix: Option<Fix>,
)
    ensures
        reported_fix(settled(helper, BackendCommand::Gps { enabled }), fix) == (if enabled {
            fix
        } else {
            None
        }),
{
}

} // verus!

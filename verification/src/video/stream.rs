//! The screen stream: what goes out for each captured frame.

use vstd::prelude::*;
use vstd::utf8::encode_utf8;

use crate::bytes::push_all;
use crate::json::{object_text, Scalar};
use crate::video::config::{
    avcc_description, base64, codec_text, codecs_name_the_profile, config_members,
    config_messages_state_the_stream, describe_stream, describes,
    descriptions_hold_the_parameter_sets, StreamConfig, FPS,
};
use crate::video::encoder::{
    create_encoder, error_words, i420, ActiveEncoder, EncodedFrame, EncoderError, FrameType, Picture,
};
use crate::video::nal::{
    all_but_parameter_sets_are_kept, annexb_nals, annexb_stream, annexb_units, avcc, find_nal,
    first_unit, has_unit, is_clean, is_video_unit, missing_types_are_not_found, next_unit,
    splitting_gives_back_the_units, the_first_unit_of_a_type_is_found, to_avcc, unit_bytes,
    unit_type, video_is_kept_whole, video_units, without_parameter_sets, zeros, NAL_IDR, NAL_PPS,
    NAL_SPS,
};
use crate::video::packet::{PacketView, StreamPacket, STREAM_KIND_CONFIG, STREAM_KIND_VIDEO};

verus! {

/// Milliseconds between two frames.
pub const FRAME_INTERVAL_MS: u64 = 100;

/// Milliseconds to wait after a failed capture or a failed encoder set-up.
/// Screen Recording permission may be pending, so retry slowly.
pub const RETRY_INTERVAL_MS: u64 = 500;

// ---------------------------------------------------------------------------
// Steps
// ---------------------------------------------------------------------------

/// One thing for the streaming thread to do. The thread ends as soon as a packet
/// cannot be sent: the receiving loop is gone.
pub enum StreamStep {
    /// Report that the screen could not be captured.
    CaptureFailed { reason: String },
    /// Report an encoder for a new resolution.
    EncoderReady { width: usize, height: usize },
    /// Report that no encoder could be set up.
    EncoderInitFailed { error: EncoderError },
    /// Report that a frame could not be encoded.
    EncodeFailed { error: EncoderError },
    /// Report that the encoder and the payload disagree on a keyframe.
    Disagreement { frame_type: FrameType, contains_idr: bool, keyframe: bool },
    /// Send a packet.
    Send { packet: StreamPacket },
    /// Report a new config message.
    ConfigSent { width: usize, height: usize, codec: String, description_len: usize },
    /// Report a repeated config message.
    ConfigResent,
    /// Report progress.
    FrameSent { keyframe: bool, timestamp_ms: u32, annexb_len: usize },
    /// Sleep for what is left of the frame interval.
    Pace,
    /// Sleep for the retry interval.
    Retry,
}

/// A step, with texts and packets as what they say.
pub enum StepView {
    CaptureFailed { reason: Seq<char> },
    EncoderReady { width: usize, height: usize },
    EncoderInitFailed { reason: Seq<char> },
    EncodeFailed { reason: Seq<char> },
    Disagreement { frame_type: FrameType, contains_idr: bool, keyframe: bool },
    Send { packet: PacketView },
    ConfigSent { width: usize, height: usize, codec: Seq<char>, description_len: usize },
    ConfigResent,
    FrameSent { keyframe: bool, timestamp_ms: u32, annexb_len: usize },
    Pace,
    Retry,
}

impl View for StreamStep {
    type V = StepView;

    open spec fn view(&self) -> StepView {
        match *self {
            StreamStep::CaptureFailed { reason } => StepView::CaptureFailed { reason: reason@ },
            StreamStep::EncoderReady { width, height } => StepView::EncoderReady { width, height },
            StreamStep::EncoderInitFailed { error } => StepView::EncoderInitFailed {
                reason: error.reason@,
            },
            StreamStep::EncodeFailed { error } => StepView::EncodeFailed { reason: error.reason@ },
            StreamStep::Disagreement { frame_type, contains_idr, keyframe } => {
                StepView::Disagreement { frame_type, contains_idr, keyframe }
            },
            StreamStep::Send { packet } => StepView::Send { packet: packet@ },
            StreamStep::ConfigSent { width, height, codec, description_len } => {
                StepView::ConfigSent { width, height, codec: codec@, description_len }
            },
            StreamStep::ConfigResent => StepView::ConfigResent,
            StreamStep::FrameSent { keyframe, timestamp_ms, annexb_len } => StepView::FrameSent {
                keyframe,
                timestamp_ms,
                annexb_len,
            },
            StreamStep::Pace => StepView::Pace,
            StreamStep::Retry => StepView::Retry,
        }
    }
}

/// The stream goes on once a step was tried. A packet that cannot be sent ends it, and
/// drops the steps behind it.
pub open spec fn goes_on_after(step: StepView, sent: bool) -> bool {
    !(step is Send) || sent
}

impl StreamStep {
    /// Whether the stream goes on once the step was tried, and its packet sent or not.
    pub fn goes_on(&self, sent: bool) -> (on: bool)
        ensures
            on == goes_on_after(self@, sent),
            on == (!(self@ is Send) || sent),
    {
        match self {
            StreamStep::Send { .. } => sent,
            _ => true,
        }
    }
}

/// What each of a list of steps says.
pub open spec fn step_views(steps: Seq<StreamStep>) -> Seq<StepView> {
    steps.map_values(|step: StreamStep| step@)
}

// ---------------------------------------------------------------------------
// State
// ---------------------------------------------------------------------------

/// The config message in effect. Kept so that a viewer who joins or reconnects
/// mid-stream can be sent it again.
pub struct StoredConfig {
    pub width: usize,
    pub height: usize,
    pub payload: Vec<u8>,
}

/// What the stream remembers from one frame to the next.
pub struct StreamState {
    pub stored: Option<StoredConfig>,
    /// Frame index the last config message was emitted for.
    pub last_config_frame: u64,
    /// Frames encoded so far.
    pub frame_index: u64,
}

/// The config message in effect, with its payload as a sequence of bytes.
pub struct StoredView {
    pub width: usize,
    pub height: usize,
    pub payload: Seq<u8>,
}

/// What the stream remembers.
pub struct StateView {
    pub stored: Option<StoredView>,
    pub last_config_frame: u64,
    pub frame_index: u64,
}

impl View for StreamState {
    type V = StateView;

    open spec fn view(&self) -> StateView {
        StateView {
            stored: match self.stored {
                Some(s) => Some(
                    StoredView { width: s.width, height: s.height, payload: s.payload@ },
                ),
                None => None,
            },
            last_config_frame: self.last_config_frame,
            frame_index: self.frame_index,
        }
    }
}

// ---------------------------------------------------------------------------
// What goes out for an encoded frame
// ---------------------------------------------------------------------------

/// The timestamp of the frame with this index, in milliseconds since the start
/// of the stream, as far as 32 bits hold it.
pub open spec fn frame_timestamp(frame_index: u64) -> u32 {
    (frame_index * 1000 / FPS as int) as u32
}

/// The encoder calls the frame a keyframe.
pub open spec fn is_key_type(frame_type: FrameType) -> bool {
    frame_type is IDR || frame_type is I || frame_type is IPMixed
}

/// The frame counts as a keyframe: the encoder says so, and there is an IDR unit
/// in what it produced.
pub open spec fn is_keyframe(frame_type: FrameType, units: Seq<Seq<u8>>) -> bool {
    is_key_type(frame_type) && has_unit(units, NAL_IDR)
}

/// The config message in effect is for this resolution.
pub open spec fn config_fits(stored: Option<StoredView>, width: usize, height: usize) -> bool {
    stored matches Some(s) && s.width == width && s.height == height
}

/// The frame calls for a new config message: a keyframe that carries parameter
/// sets while none is in effect for its resolution.
pub open spec fn rebuilds(
    state: StateView,
    width: usize,
    height: usize,
    frame_type: FrameType,
    units: Seq<Seq<u8>>,
) -> bool {
    &&& is_keyframe(frame_type, units)
    &&& has_unit(units, NAL_SPS)
    &&& has_unit(units, NAL_PPS)
    &&& !config_fits(state.stored, width, height)
}

/// The frame calls for the config message in effect to be sent again: a keyframe
/// at least one second of frames behind the last config message.
pub open spec fn resends(
    state: StateView,
    width: usize,
    height: usize,
    frame_type: FrameType,
    units: Seq<Seq<u8>>,
) -> bool {
    &&& is_keyframe(frame_type, units)
    &&& !rebuilds(state, width, height, frame_type, units)
    &&& state.stored is Some
    &&& state.frame_index + 1 - state.last_config_frame >= FPS
}

/// The config message for a resolution and its parameter sets.
pub open spec fn config_payload(
    width: usize,
    height: usize,
    sps: Seq<u8>,
    pps: Seq<u8>,
) -> Seq<u8> {
    encode_utf8(
        object_text(
            config_members(width, height, codec_text(sps), base64(avcc_description(sps, pps))),
        ),
    )
}

/// The parameter sets of a frame can be described: the SPS holds its profile and
/// level, and the sizes leave room for the text.
pub open spec fn describable(units: Seq<Seq<u8>>) -> bool {
    first_unit(units, NAL_SPS) matches Some(sps) ==> first_unit(units, NAL_PPS) matches Some(pps)
        ==> sps.len() >= 4 && sps.len() <= usize::MAX / 8 && pps.len() <= usize::MAX / 8
}

/// A config packet.
pub open spec fn config_packet(payload: Seq<u8>) -> PacketView {
    PacketView { kind: STREAM_KIND_CONFIG, keyframe: false, timestamp_ms: 0, payload }
}

/// The steps that report a disagreement on a keyframe, if there is one.
pub open spec fn disagreement_steps(frame_type: FrameType, units: Seq<Seq<u8>>) -> Seq<StepView> {
    if is_key_type(frame_type) != has_unit(units, NAL_IDR) {
        seq![
            StepView::Disagreement {
                frame_type,
                contains_idr: has_unit(units, NAL_IDR),
                keyframe: is_keyframe(frame_type, units),
            },
        ]
    } else {
        seq![]
    }
}

/// The steps that send a new config message, the one in effect again, or none.
pub open spec fn config_steps(
    state: StateView,
    width: usize,
    height: usize,
    frame_type: FrameType,
    units: Seq<Seq<u8>>,
) -> Seq<StepView> {
    if rebuilds(state, width, height, frame_type, units) {
        let sps = first_unit(units, NAL_SPS)->0;
        let pps = first_unit(units, NAL_PPS)->0;
        seq![
            StepView::Send { packet: config_packet(config_payload(width, height, sps, pps)) },
            StepView::ConfigSent {
                width,
                height,
                codec: codec_text(sps),
                description_len: avcc_description(sps, pps).len() as usize,
            },
        ]
    } else if resends(state, width, height, frame_type, units) {
        seq![
            StepView::Send { packet: config_packet(state.stored->0.payload) },
            StepView::ConfigResent,
        ]
    } else {
        seq![]
    }
}

/// The video packet of a frame.
pub open spec fn video_packet(
    state: StateView,
    frame_type: FrameType,
    units: Seq<Seq<u8>>,
) -> PacketView {
    PacketView {
        kind: STREAM_KIND_VIDEO,
        keyframe: is_keyframe(frame_type, units),
        timestamp_ms: frame_timestamp(state.frame_index),
        payload: avcc(video_units(units)),
    }
}

/// The steps that send the frame, report every twentieth one, and wait for the
/// next. A frame that is parameter sets alone is not sent.
pub open spec fn video_steps(
    state: StateView,
    frame_type: FrameType,
    units: Seq<Seq<u8>>,
    annexb_len: usize,
) -> Seq<StepView> {
    if video_units(units).len() == 0 {
        seq![]
    } else {
        let send = seq![StepView::Send { packet: video_packet(state, frame_type, units) }];
        let report = if (state.frame_index + 1) % (FPS * 2) == 0 {
            seq![
                StepView::FrameSent {
                    keyframe: is_keyframe(frame_type, units),
                    timestamp_ms: frame_timestamp(state.frame_index),
                    annexb_len,
                },
            ]
        } else {
            seq![]
        };
        send + report + seq![StepView::Pace]
    }
}

/// Everything that follows from an encoded frame.
pub open spec fn frame_steps(
    state: StateView,
    width: usize,
    height: usize,
    frame_type: FrameType,
    annexb: Seq<u8>,
) -> Seq<StepView> {
    let units = annexb_units(annexb);
    if units.len() == 0 {
        seq![]
    } else {
        disagreement_steps(frame_type, units) + config_steps(
            state,
            width,
            height,
            frame_type,
            units,
        ) + video_steps(state, frame_type, units, annexb.len() as usize)
    }
}

/// What the stream remembers after an encoded frame.
pub open spec fn state_after(
    state: StateView,
    width: usize,
    height: usize,
    frame_type: FrameType,
    annexb: Seq<u8>,
) -> StateView {
    let units = annexb_units(annexb);
    let rebuild = units.len() > 0 && rebuilds(state, width, height, frame_type, units);
    let resend = units.len() > 0 && resends(state, width, height, frame_type, units);
    StateView {
        stored: if rebuild {
            Some(
                StoredView {
                    width,
                    height,
                    payload: config_payload(
                        width,
                        height,
                        first_unit(units, NAL_SPS)->0,
                        first_unit(units, NAL_PPS)->0,
                    ),
                },
            )
        } else {
            state.stored
        },
        last_config_frame: if rebuild || resend {
            (state.frame_index + 1) as u64
        } else {
            state.last_config_frame
        },
        frame_index: (state.frame_index + 1) as u64,
    }
}

/// Whether the encoder calls the frame a keyframe.
fn key_type(frame_type: FrameType) -> (key: bool)
    ensures
        key == is_key_type(frame_type),
{
    match frame_type {
        FrameType::IDR => true,
        FrameType::I => true,
        FrameType::IPMixed => true,
        _ => false,
    }
}

/// A copy of `bytes`.
fn copied(bytes: &Vec<u8>) -> (copy: Vec<u8>)
    ensures
        copy@ == bytes@,
{
    let mut copy: Vec<u8> = Vec::new();
    push_all(&mut copy, bytes.as_slice());
    assert(copy@ =~= bytes@);
    copy
}

/// Append a step to a list.
fn push_step(steps: &mut Vec<StreamStep>, step: StreamStep)
    ensures
        step_views(final(steps)@) == step_views(old(steps)@).push(step@),
{
    steps.push(step);
    assert(step_views(steps@) =~= step_views(old(steps)@).push(step@));
}

impl StreamState {
    /// The state at the start of a stream.
    pub fn new() -> (state: StreamState)
        ensures
            state@ == (StateView { stored: None, last_config_frame: 0, frame_index: 0 }),
    {
        StreamState { stored: None, last_config_frame: 0, frame_index: 0 }
    }

    /// Whether the config message in effect is for this resolution.
    fn fits(&self, width: usize, height: usize) -> (fits: bool)
        ensures
            fits == config_fits(self@.stored, width, height),
    {
        match &self.stored {
            Some(stored) => stored.width == width && stored.height == height,
            None => false,
        }
    }

    /// The config message part of [`StreamState::on_encoded`], for a keyframe.
    fn on_keyframe(
        &mut self,
        width: usize,
        height: usize,
        nals: &Vec<&[u8]>,
        steps: &mut Vec<StreamStep>,
        Ghost(before): Ghost<StateView>,
        Ghost(frame_type): Ghost<FrameType>,
    )
        requires
            old(self)@ == (StateView { frame_index: (before.frame_index + 1) as u64, ..before }),
            before.frame_index < u64::MAX,
            forall|i: int| 0 <= i < nals@.len() ==> (#[trigger] nals@[i])@.len() > 0,
            is_keyframe(frame_type, unit_bytes(nals@)),
            rebuilds(before, width, height, frame_type, unit_bytes(nals@)) ==> describable(
                unit_bytes(nals@),
            ),
        ensures
            step_views(final(steps)@) == step_views(old(steps)@) + config_steps(
                before,
                width,
                height,
                frame_type,
                unit_bytes(nals@),
            ),
            final(self)@.frame_index == old(self)@.frame_index,
            final(self)@.stored == if rebuilds(
                before,
                width,
                height,
                frame_type,
                unit_bytes(nals@),
            ) {
                Some(
                    StoredView {
                        width,
                        height,
                        payload: config_payload(
                            width,
                            height,
                            first_unit(unit_bytes(nals@), NAL_SPS)->0,
                            first_unit(unit_bytes(nals@), NAL_PPS)->0,
                        ),
                    },
                )
            } else {
                before.stored
            },
            final(self)@.last_config_frame == if rebuilds(
                before,
                width,
                height,
                frame_type,
                unit_bytes(nals@),
            ) || resends(before, width, height, frame_type, unit_bytes(nals@)) {
                old(self)@.frame_index
            } else {
                before.last_config_frame
            },
    {
        let ghost units = unit_bytes(nals@);
        let ghost first = step_views(steps@);
        let sps = find_nal(nals, NAL_SPS);
        let pps = find_nal(nals, NAL_PPS);
        let fits = self.fits(width, height);
        match (sps, pps) {
            (Some(sps), Some(pps)) if !fits => {
                let mut config: StreamConfig = describe_stream(sps, pps);
                config.width = width;
                config.height = height;
                let json = config.to_json();
                let mut payload: Vec<u8> = Vec::new();
                push_all(&mut payload, json.as_str().as_bytes());
                assert(payload@ =~= config_payload(width, height, sps@, pps@));
                let packet = StreamPacket {
                    kind: STREAM_KIND_CONFIG,
                    keyframe: false,
                    timestamp_ms: 0,
                    payload: copied(&payload),
                };
                assert(packet@ == config_packet(payload@));
                push_step(steps, StreamStep::Send { packet });
                self.stored = Some(StoredConfig { width, height, payload });
                push_step(
                    steps,
                    StreamStep::ConfigSent {
                        width,
                        height,
                        codec: config.codec,
                        description_len: config.description_len,
                    },
                );
                self.last_config_frame = self.frame_index;
                assert(step_views(steps@) =~= first + config_steps(
                    before,
                    width,
                    height,
                    frame_type,
                    units,
                ));
            },
            _ => {
                assert(!rebuilds(before, width, height, frame_type, units));
                let due = self.frame_index.saturating_sub(self.last_config_frame) >= FPS as u64;
                let mut resend = false;
                if due {
                    if let Some(stored) = &self.stored {
                        let packet = StreamPacket {
                            kind: STREAM_KIND_CONFIG,
                            keyframe: false,
                            timestamp_ms: 0,
                            payload: copied(&stored.payload),
                        };
                        assert(packet@ == config_packet(before.stored->0.payload));
                        push_step(steps, StreamStep::Send { packet });
                        push_step(steps, StreamStep::ConfigResent);
                        resend = true;
                    }
                }
                if resend {
                    self.last_config_frame = self.frame_index;
                }
                assert(step_views(steps@) =~= first + config_steps(
                    before,
                    width,
                    height,
                    frame_type,
                    units,
                ));
            },
        }
    }

    /// Whether [`StreamState::on_encoded`] can take the frame: where it has to
    /// describe the frame's parameter sets, they can be described.
    pub fn accepts(&self, width: usize, height: usize, frame: &EncodedFrame) -> (accepted: bool)
        ensures
            accepted == (rebuilds(
                self@,
                width,
                height,
                frame.frame_type,
                annexb_units(frame.annexb@),
            ) ==> describable(annexb_units(frame.annexb@))),
    {
        let nals = annexb_nals(frame.annexb.as_slice());
        if !key_type(frame.frame_type) || find_nal(&nals, NAL_IDR).is_none() || self.fits(
            width,
            height,
        ) {
            return true;
        }
        match (find_nal(&nals, NAL_SPS), find_nal(&nals, NAL_PPS)) {
            (Some(sps), Some(pps)) => sps.len() >= 4 && sps.len() <= usize::MAX / 8 && pps.len()
                <= usize::MAX / 8,
            _ => true,
        }
    }

    /// What to do with an encoded frame of the given resolution.
    ///
    /// A chunk is only flagged as a keyframe when the encoder's word and the
    /// scan of its NAL units agree. A keyframe that carries parameter sets for a
    /// new resolution is preceded by a config message, and later keyframes by
    /// the same message again, at most once a second. The parameter sets
    /// themselves are kept out of the video payload.
    pub fn on_encoded(&mut self, width: usize, height: usize, frame: &EncodedFrame) -> (steps: Vec<
        StreamStep,
    >)
        requires
            old(self)@.frame_index <= u64::MAX / 1000,
            rebuilds(
                old(self)@,
                width,
                height,
                frame.frame_type,
                annexb_units(frame.annexb@),
            ) ==> describable(annexb_units(frame.annexb@)),
        ensures
            step_views(steps@) == frame_steps(
                old(self)@,
                width,
                height,
                frame.frame_type,
                frame.annexb@,
            ),
            final(self)@ == state_after(
                old(self)@,
                width,
                height,
                frame.frame_type,
                frame.annexb@,
            ),
    {
        let ghost before = self@;
        let timestamp_ms: u32 = ((self.frame_index * 1000) / FPS as u64) as u32;
        self.frame_index = self.frame_index + 1;
        let mut steps: Vec<StreamStep> = Vec::new();
        assert(step_views(steps@) =~= seq![]);
        let nals = annexb_nals(frame.annexb.as_slice());
        let ghost units = unit_bytes(nals@);
        if nals.len() == 0 {
            return steps;
        }
        let contains_idr = find_nal(&nals, NAL_IDR).is_some();
        let encoder_key = key_type(frame.frame_type);
        let keyframe = encoder_key && contains_idr;
        if encoder_key != contains_idr {
            push_step(
                &mut steps,
                StreamStep::Disagreement { frame_type: frame.frame_type, contains_idr, keyframe },
            );
        }
        assert(step_views(steps@) =~= disagreement_steps(frame.frame_type, units));
        if keyframe {
            self.on_keyframe(
                width,
                height,
                &nals,
                &mut steps,
                Ghost(before),
                Ghost(frame.frame_type),
            );
        } else {
            assert(step_views(steps@) =~= disagreement_steps(frame.frame_type, units)
                + config_steps(before, width, height, frame.frame_type, units));
        }
        let ghost so_far = step_views(steps@);
        let kept = without_parameter_sets(&nals);
        assert(kept@.len() == video_units(units).len());
        if kept.len() == 0 {
            assert(so_far =~= so_far + video_steps(
                before,
                frame.frame_type,
                units,
                frame.annexb@.len() as usize,
            ));
            return steps;
        }
        let mut payload: Vec<u8> = Vec::new();
        to_avcc(kept.as_slice(), &mut payload);
        let packet = StreamPacket { kind: STREAM_KIND_VIDEO, keyframe, timestamp_ms, payload };
        assert(packet@.payload =~= avcc(video_units(units)));
        push_step(&mut steps, StreamStep::Send { packet });
        if self.frame_index % (FPS as u64 * 2) == 0 {
            push_step(
                &mut steps,
                StreamStep::FrameSent { keyframe, timestamp_ms, annexb_len: frame.annexb.len() },
            );
        }
        push_step(&mut steps, StreamStep::Pace);
        assert(step_views(steps@) =~= so_far + video_steps(
            before,
            frame.frame_type,
            units,
            frame.annexb@.len() as usize,
        ));
        steps
    }
}

// ---------------------------------------------------------------------------
// Capture to packets
// ---------------------------------------------------------------------------

/// A running stream: the encoder for the current resolution, and the state.
pub struct ScreenStream {
    pub active: Option<ActiveEncoder>,
    pub state: StreamState,
}

/// What came of capturing a frame: the encoder's answer to it, where there is one.
pub enum EncoderAnswer {
    /// The screen could not be captured.
    NotCaptured { reason: Seq<char> },
    /// It could not be set up for the frame's resolution.
    InitFailed { reason: Seq<char> },
    /// It could not encode the frame.
    EncodeFailed { reason: Seq<char> },
    /// It encoded the frame.
    Encoded { frame_type: FrameType, annexb: Seq<u8> },
}

/// The answer of an encoder that was given a frame.
pub open spec fn answer_of(encoded: Result<EncodedFrame, EncoderError>) -> EncoderAnswer {
    match encoded {
        Ok(frame) => EncoderAnswer::Encoded {
            frame_type: frame.frame_type,
            annexb: frame.annexb@,
        },
        Err(error) => EncoderAnswer::EncodeFailed { reason: error.reason@ },
    }
}

/// An encoder for the frame's resolution was given the frame.
pub open spec fn reaches_encoder(answer: EncoderAnswer) -> bool {
    answer is EncodeFailed || answer is Encoded
}

/// The resolution of an encoder.
pub open spec fn encoder_size(active: Option<ActiveEncoder>) -> Option<(usize, usize)> {
    match active {
        Some(a) => Some((a.width, a.height)),
        None => None,
    }
}

/// The state a frame of this resolution is encoded in: a new encoder starts
/// without a config message in effect.
pub open spec fn state_for(
    state: StateView,
    size: Option<(usize, usize)>,
    width: usize,
    height: usize,
) -> StateView {
    if size == Some((width, height)) {
        state
    } else {
        StateView { stored: None, ..state }
    }
}

/// What follows from a captured frame and the encoder's answer to it.
pub open spec fn capture_steps(
    state: StateView,
    size: Option<(usize, usize)>,
    width: usize,
    height: usize,
    answer: EncoderAnswer,
) -> Seq<StepView> {
    let ready = if size == Some((width, height)) {
        seq![]
    } else {
        seq![StepView::EncoderReady { width, height }]
    };
    match answer {
        EncoderAnswer::NotCaptured { reason } => {
            seq![StepView::CaptureFailed { reason }, StepView::Retry]
        },
        EncoderAnswer::InitFailed { reason } => {
            seq![StepView::EncoderInitFailed { reason }, StepView::Retry]
        },
        EncoderAnswer::EncodeFailed { reason } => ready + seq![StepView::EncodeFailed { reason }],
        EncoderAnswer::Encoded { frame_type, annexb } => ready + frame_steps(
            state_for(state, size, width, height),
            width,
            height,
            frame_type,
            annexb,
        ),
    }
}

/// The state after a captured frame and the encoder's answer to it.
pub open spec fn state_after_capture(
    state: StateView,
    size: Option<(usize, usize)>,
    width: usize,
    height: usize,
    answer: EncoderAnswer,
) -> StateView {
    match answer {
        EncoderAnswer::NotCaptured { .. } => state,
        EncoderAnswer::InitFailed { .. } => state,
        EncoderAnswer::EncodeFailed { .. } => state_for(state, size, width, height),
        EncoderAnswer::Encoded { frame_type, annexb } => state_after(
            state_for(state, size, width, height),
            width,
            height,
            frame_type,
            annexb,
        ),
    }
}

/// The encoder's resolution after a captured frame and the encoder's answer to it.
pub open spec fn size_after_capture(
    size: Option<(usize, usize)>,
    width: usize,
    height: usize,
    answer: EncoderAnswer,
) -> Option<(usize, usize)> {
    if reaches_encoder(answer) {
        Some((width, height))
    } else {
        size
    }
}

/// The pictures that the encoder in use was given.
pub open spec fn encoder_fed(active: Option<ActiveEncoder>) -> Seq<Picture> {
    match active {
        Some(a) => a.inputs(),
        None => seq![],
    }
}

/// The pictures that the encoder in use was given, after a captured frame: those
/// before it unless the encoder is new, then the frame under its timestamp.
pub open spec fn fed_after_capture(
    before: Seq<Picture>,
    state: StateView,
    size: Option<(usize, usize)>,
    width: usize,
    height: usize,
    rgba: Seq<u8>,
) -> Seq<Picture> {
    (if size == Some((width, height)) {
        before
    } else {
        seq![]
    }).push(
        Picture {
            planes: i420(rgba, width, height),
            size: (width, height),
            millis: frame_timestamp(state.frame_index) as u64,
        },
    )
}

/// What the steps say, where there are any.
pub open spec fn optional_views(steps: Option<Vec<StreamStep>>) -> Option<Seq<StepView>> {
    match steps {
        Some(steps) => Some(step_views(steps@)),
        None => None,
    }
}

/// The encoder answered with a frame whose parameter sets have to be described and
/// cannot be.
pub open spec fn is_refused(
    state: StateView,
    width: usize,
    height: usize,
    answer: EncoderAnswer,
) -> bool {
    answer matches EncoderAnswer::Encoded { frame_type, annexb } && rebuilds(
        state,
        width,
        height,
        frame_type,
        annexb_units(annexb),
    ) && !describable(annexb_units(annexb))
}

/// The stream went on from `before` to `after` with these steps, as the encoder's
/// answer to a captured frame has it.
pub open spec fn follows_answer(
    before: ScreenStream,
    after: ScreenStream,
    width: usize,
    height: usize,
    rgba: Seq<u8>,
    steps: Option<Seq<StepView>>,
    answer: EncoderAnswer,
) -> bool {
    let state = before.state@;
    let size = encoder_size(before.active);
    &&& steps is None <==> is_refused(state_for(state, size, width, height), width, height, answer)
    &&& steps is None ==> after.state@ == state_for(state, size, width, height)
    &&& steps matches Some(steps) ==> {
        &&& steps == capture_steps(state, size, width, height, answer)
        &&& after.state@ == state_after_capture(state, size, width, height, answer)
    }
    &&& encoder_size(after.active) == size_after_capture(size, width, height, answer)
    &&& !(answer is NotCaptured)
    &&& answer matches EncoderAnswer::InitFailed { reason } ==> {
        &&& after.active == before.active
        &&& size != Some((width, height))
        &&& exists|error: openh264::Error| reason == #[trigger] error_words(error)
    }
    &&& reaches_encoder(answer) ==> {
        &&& encoder_fed(after.active) == fed_after_capture(
            encoder_fed(before.active),
            state,
            size,
            width,
            height,
            rgba,
        )
        &&& encoder_made(after.active) == made_after_capture(
            encoder_made(before.active),
            size,
            width,
            height,
            answer,
        )
    }
}

/// What the encoder in use made of the pictures that it was given.
pub open spec fn encoder_made(active: Option<ActiveEncoder>) -> Seq<Option<(FrameType, Seq<u8>)>> {
    match active {
        Some(a) => a.outputs(),
        None => seq![],
    }
}

/// The frame in an answer, where there is one.
pub open spec fn frame_in(answer: EncoderAnswer) -> Option<(FrameType, Seq<u8>)> {
    match answer {
        EncoderAnswer::Encoded { frame_type, annexb } => Some((frame_type, annexb)),
        _ => None,
    }
}

/// What the encoder in use made of its pictures, after a captured frame: what it made
/// before unless it is new, then its answer.
pub open spec fn made_after_capture(
    before: Seq<Option<(FrameType, Seq<u8>)>>,
    size: Option<(usize, usize)>,
    width: usize,
    height: usize,
    answer: EncoderAnswer,
) -> Seq<Option<(FrameType, Seq<u8>)>> {
    (if size == Some((width, height)) {
        before
    } else {
        seq![]
    }).push(frame_in(answer))
}

impl ScreenStream {
    /// The encoder is in order, a config message in effect is for its resolution, and
    /// the last one went out for a frame that there has been.
    pub open spec fn well_formed(self) -> bool {
        &&& self.active matches Some(a) ==> a.well_formed()
        &&& self.state@.stored matches Some(s) ==> encoder_size(self.active) == Some(
            (s.width, s.height),
        )
        &&& self.state@.last_config_frame <= self.state@.frame_index
    }

    /// A stream before its first frame.
    pub fn new() -> (stream: ScreenStream)
        ensures
            stream.well_formed(),
            stream.active is None,
            stream.state@ == (StateView { stored: None, last_config_frame: 0, frame_index: 0 }),
    {
        ScreenStream { active: None, state: StreamState::new() }
    }

    /// Whether the encoder is for this resolution.
    fn encodes(&self, width: usize, height: usize) -> (encodes: bool)
        ensures
            encodes == (encoder_size(self.active) == Some((width, height))),
    {
        match &self.active {
            Some(active) => active.width == width && active.height == height,
            None => false,
        }
    }

    /// Take a new encoder into use, or report that there is none.
    pub fn on_created(
        &mut self,
        width: usize,
        height: usize,
        created: Result<ActiveEncoder, EncoderError>,
    ) -> (steps: Vec<StreamStep>)
        requires
            old(self).well_formed(),
            created matches Ok(a) ==> a.well_formed() && a.width == width && a.height == height,
        ensures
            final(self).well_formed(),
            created is Ok ==> {
                &&& step_views(steps@) == seq![StepView::EncoderReady { width, height }]
                &&& final(self).active == Some(created->Ok_0)
                &&& final(self).state@ == (StateView { stored: None, ..old(self).state@ })
            },
            created is Err ==> {
                &&& step_views(steps@) == seq![
                    StepView::EncoderInitFailed { reason: created->Err_0.reason@ },
                    StepView::Retry,
                ]
                &&& *final(self) == *old(self)
            },
    {
        let mut steps: Vec<StreamStep> = Vec::new();
        match created {
            Ok(active) => {
                self.active = Some(active);
                self.state.stored = None;
                push_step(&mut steps, StreamStep::EncoderReady { width, height });
                assert(step_views(steps@) =~= seq![StepView::EncoderReady { width, height }]);
            },
            Err(error) => {
                let ghost reason = error.reason@;
                push_step(&mut steps, StreamStep::EncoderInitFailed { error });
                push_step(&mut steps, StreamStep::Retry);
                assert(step_views(steps@) =~= seq![
                    StepView::EncoderInitFailed { reason },
                    StepView::Retry,
                ]);
            },
        }
        steps
    }

    /// The screen could not be captured: report it, and try again later. The stream
    /// stays as it is.
    pub fn on_capture_failed(&self, reason: String) -> (steps: Vec<StreamStep>)
        ensures
            forall|width: usize, height: usize|
                step_views(steps@) == #[trigger] capture_steps(
                    self.state@,
                    encoder_size(self.active),
                    width,
                    height,
                    EncoderAnswer::NotCaptured { reason: reason@ },
                ),
            step_views(steps@) == seq![
                StepView::CaptureFailed { reason: reason@ },
                StepView::Retry,
            ],
    {
        let ghost words = reason@;
        let mut steps: Vec<StreamStep> = Vec::new();
        push_step(&mut steps, StreamStep::CaptureFailed { reason });
        push_step(&mut steps, StreamStep::Retry);
        assert(step_views(steps@) =~= seq![
            StepView::CaptureFailed { reason: words },
            StepView::Retry,
        ]);
        steps
    }

    /// Go on from what the encoder made of a frame of the given resolution.
    ///
    /// `None` where the frame carries a sequence parameter set that has to be
    /// described and is too short for that; the stream cannot go on from there.
    pub fn on_answer(
        &mut self,
        width: usize,
        height: usize,
        encoded: Result<EncodedFrame, EncoderError>,
    ) -> (steps: Option<Vec<StreamStep>>)
        requires
            old(self).state@.frame_index <= u64::MAX / 1000,
        ensures
            old(self).well_formed() && encoder_size(old(self).active) == Some((width, height))
                ==> final(self).well_formed(),
            final(self).active == old(self).active,
            encoded matches Err(error) ==> {
                &&& optional_views(steps) == Some(
                    seq![StepView::EncodeFailed { reason: error.reason@ }],
                )
                &&& final(self).state@ == old(self).state@
            },
            encoded matches Ok(frame) ==> {
                let units = annexb_units(frame.annexb@);
                &&& steps is None <==> rebuilds(
                    old(self).state@,
                    width,
                    height,
                    frame.frame_type,
                    units,
                ) && !describable(units)
                &&& steps is None ==> final(self).state@ == old(self).state@
                &&& steps matches Some(steps) ==> {
                    &&& step_views(steps@) == frame_steps(
                        old(self).state@,
                        width,
                        height,
                        frame.frame_type,
                        frame.annexb@,
                    )
                    &&& final(self).state@ == state_after(
                        old(self).state@,
                        width,
                        height,
                        frame.frame_type,
                        frame.annexb@,
                    )
                }
            },
    {
        match encoded {
            Err(error) => {
                let ghost reason = error.reason@;
                let mut steps: Vec<StreamStep> = Vec::new();
                push_step(&mut steps, StreamStep::EncodeFailed { error });
                assert(step_views(steps@) =~= seq![StepView::EncodeFailed { reason }]);
                Some(steps)
            },
            Ok(frame) => {
                if !self.state.accepts(width, height, &frame) {
                    return None;
                }
                Some(self.state.on_encoded(width, height, &frame))
            },
        }
    }

    /// Encode one captured frame, and say what to do with the result.
    ///
    /// The answer is what the encoder made of the frame, which is for the codec
    /// library to say;
    /// [`ScreenStream::on_created`] and [`ScreenStream::on_answer`] say what follows
    /// from each answer.
    pub fn push_frame(&mut self, width: usize, height: usize, rgba: &[u8]) -> (steps: Option<
        Vec<StreamStep>,
    >)
        requires
            old(self).well_formed(),
            old(self).state@.frame_index <= u64::MAX / 1000,
            width % 2 == 0,
            height % 2 == 0,
            4 * width <= usize::MAX,
            rgba@.len() == width * height * 4,
        ensures
            final(self).well_formed(),
            exists|answer: EncoderAnswer|
                #[trigger] follows_answer(
                    *old(self),
                    *final(self),
                    width,
                    height,
                    rgba@,
                    optional_views(steps),
                    answer,
                ),
    {
        let ghost state = self.state@;
        let ghost size = encoder_size(self.active);
        let ghost fed = encoder_fed(self.active);
        let ghost made = encoder_made(self.active);
        let pixels: usize = rgba.len();
        assert(3 * (width * height) <= pixels) by (nonlinear_arith)
            requires
                pixels == width * height * 4,
        ;
        let mut steps: Vec<StreamStep> = Vec::new();
        assert(step_views(steps@) =~= seq![]);
        if !self.encodes(width, height) {
            steps = self.on_created(width, height, create_encoder(width, height));
            if !self.encodes(width, height) {
                proof {
                    let reason = step_views(steps@)[0]->EncoderInitFailed_reason;
                    let answer = EncoderAnswer::InitFailed { reason };
                    assert(follows_answer(
                        *old(self),
                        *self,
                        width,
                        height,
                        rgba@,
                        Some(step_views(steps@)),
                        answer,
                    ));
                }
                return Some(steps);
            }
        }
        assert(self.state@ == state_for(state, size, width, height));
        let timestamp_ms: u32 = ((self.state.frame_index * 1000) / FPS as u64) as u32;
        let mut active = match self.active.take() {
            Some(active) => active,
            None => {
                return Some(steps);
            },
        };
        let encoded = active.encode(rgba, timestamp_ms);
        self.active = Some(active);
        assert(encoder_fed(self.active) =~= fed_after_capture(
            fed,
            state,
            size,
            width,
            height,
            rgba@,
        ));
        let ghost answer = answer_of(encoded);
        assert(encoder_made(self.active) =~= made_after_capture(made, size, width, height, answer));
        match self.on_answer(width, height, encoded) {
            None => {
                assert(follows_answer(*old(self), *self, width, height, rgba@, None, answer));
                None
            },
            Some(more) => {
                append_steps(&mut steps, more);
                assert(step_views(steps@) =~= capture_steps(state, size, width, height, answer));
                assert(follows_answer(
                    *old(self),
                    *self,
                    width,
                    height,
                    rgba@,
                    Some(step_views(steps@)),
                    answer,
                ));
                Some(steps)
            },
        }
    }
}

/// Append `more` to `steps`.
fn append_steps(steps: &mut Vec<StreamStep>, mut more: Vec<StreamStep>)
    ensures
        step_views(final(steps)@) == step_views(old(steps)@) + step_views(more@),
{
    let ghost added = more@;
    steps.append(&mut more);
    assert(step_views(steps@) =~= step_views(old(steps)@) + step_views(added));
}

/// What is left of the frame interval, in nanoseconds, when this much has passed.
pub open spec fn rest_after(elapsed_nanos: int) -> int {
    if elapsed_nanos < FRAME_INTERVAL_MS * 1_000_000 {
        FRAME_INTERVAL_MS * 1_000_000 - elapsed_nanos
    } else {
        0
    }
}

/// How long to sleep, in nanoseconds, when this much of the frame interval has
/// passed.
pub fn rest_of_interval(elapsed_nanos: u128) -> (rest: u64)
    ensures
        rest == rest_after(elapsed_nanos as int),
        rest == if elapsed_nanos < FRAME_INTERVAL_MS * 1_000_000 {
            FRAME_INTERVAL_MS * 1_000_000 - elapsed_nanos
        } else {
            0
        },
{
    let interval: u64 = FRAME_INTERVAL_MS * 1_000_000;
    if elapsed_nanos < interval as u128 {
        interval - elapsed_nanos as u64
    } else {
        0
    }
}

// ---------------------------------------------------------------------------
// Laws
// ---------------------------------------------------------------------------

/// A stream goes on behind a capture only if every packet of the capture was sent.
pub proof fn a_lost_packet_ends_the_stream(steps: Seq<StepView>, sent: Seq<bool>, i: int)
    requires
        sent.len() == steps.len(),
        0 <= i < steps.len(),
        forall|k: int| 0 <= k < steps.len() ==> goes_on_after(steps[k], #[trigger] sent[k]),
    ensures
        steps[i] is Send ==> sent[i],
{
    assert(goes_on_after(steps[i], sent[i]));
}

/// The frame with index `n` is stamped `n * 100` milliseconds, as far as 32 bits
/// hold it.
pub proof fn frames_are_a_tenth_of_a_second_apart(n: u64)
    requires
        n <= u64::MAX / 1000,
    ensures
        frame_timestamp(n) == n * 100 % 0x1_0000_0000,
{
    let x = (n * 100) as u64;
    assert(n * 1000 / FPS as int == x);
    assert(x as u32 == x % 0x1_0000_0000) by (bit_vector);
}

/// No video payload carries a parameter set, and nothing but parameter sets is
/// left out of it.
pub proof fn parameter_sets_stay_out_of_the_video(units: Seq<Seq<u8>>)
    ensures
        forall|i: int|
            0 <= i < video_units(units).len() ==> {
                &&& is_video_unit(#[trigger] video_units(units)[i])
                &&& units.contains(video_units(units)[i])
            },
        forall|i: int|
            0 <= i < units.len() && is_video_unit(units[i]) ==> video_units(units).contains(
                #[trigger] units[i],
            ),
    decreases units.len(),
{
    reveal(Seq::filter);
    if units.len() > 0 {
        let before = units.drop_last();
        parameter_sets_stay_out_of_the_video(before);
        let (kept, old_kept) = (video_units(units), video_units(before));
        assert forall|i: int| 0 <= i < kept.len() implies {
            &&& is_video_unit(#[trigger] kept[i])
            &&& units.contains(kept[i])
        } by {
            if i < old_kept.len() {
                assert(kept[i] == old_kept[i]);
                let k = choose|k: int| 0 <= k < before.len() && before[k] == old_kept[i];
                assert(units[k] == kept[i]);
            } else {
                assert(kept[i] == units[units.len() - 1]);
            }
        }
        assert forall|i: int| 0 <= i < units.len() && is_video_unit(units[i]) implies kept.contains(
            #[trigger] units[i],
        ) by {
            if i < before.len() {
                assert(before[i] == units[i]);
                let k = choose|k: int| 0 <= k < old_kept.len() && old_kept[k] == before[i];
                assert(kept[k] == units[i]);
            } else {
                assert(kept[kept.len() - 1] == units[i]);
            }
        }
    }
}

/// After a keyframe of a resolution that a config message is in effect for, or
/// that carries its parameter sets, a config message for the resolution went out
/// less than one second of frames ago.
pub proof fn keyframes_follow_a_recent_config(
    state: StateView,
    width: usize,
    height: usize,
    frame_type: FrameType,
    annexb: Seq<u8>,
)
    requires
        state.last_config_frame <= state.frame_index < u64::MAX,
        is_keyframe(frame_type, annexb_units(annexb)),
        config_fits(state.stored, width, height) || (has_unit(annexb_units(annexb), NAL_SPS)
            && has_unit(annexb_units(annexb), NAL_PPS)),
    ensures
        ({
            let after = state_after(state, width, height, frame_type, annexb);
            &&& config_fits(after.stored, width, height)
            &&& after.last_config_frame <= after.frame_index
            &&& after.frame_index - after.last_config_frame < FPS
        }),
{
}

/// Where a keyframe calls for a config message, new or again, that message goes out
/// ahead of the frame itself, and is the one in effect from then on.
pub proof fn config_goes_ahead_of_its_keyframe(
    state: StateView,
    width: usize,
    height: usize,
    frame_type: FrameType,
    annexb: Seq<u8>,
    at: int,
)
    requires
        rebuilds(state, width, height, frame_type, annexb_units(annexb)) || resends(
            state,
            width,
            height,
            frame_type,
            annexb_units(annexb),
        ),
        0 <= at < frame_steps(state, width, height, frame_type, annexb).len(),
        frame_steps(state, width, height, frame_type, annexb)[at] matches StepView::Send { packet }
            && packet.kind == STREAM_KIND_VIDEO,
    ensures
        exists|i: int|
            0 <= i < at && #[trigger] frame_steps(state, width, height, frame_type, annexb)[i]
                == (StepView::Send {
                packet: config_packet(
                    state_after(state, width, height, frame_type, annexb).stored->0.payload,
                ),
            }),
{
    let units = annexb_units(annexb);
    let steps = frame_steps(state, width, height, frame_type, annexb);
    let first = disagreement_steps(frame_type, units);
    let config = config_steps(state, width, height, frame_type, units);
    let n = first.len() as int;
    assert(config.len() == 2);
    assert(steps[n] == config[0]);
    assert(steps[n + 1] == config[1]);
    if at < n {
        assert(steps[at] == first[at]);
    }
    assert(n < at);
}

/// A keyframe that comes a second of frames or more behind the last config message
/// calls for the message in effect again.
pub proof fn periodic_keyframes_repeat_the_config(
    state: StateView,
    width: usize,
    height: usize,
    frame_type: FrameType,
    units: Seq<Seq<u8>>,
)
    requires
        is_keyframe(frame_type, units),
        config_fits(state.stored, width, height),
        state.frame_index + 1 - state.last_config_frame >= FPS,
    ensures
        resends(state, width, height, frame_type, units),
        config_steps(state, width, height, frame_type, units)[0] == (StepView::Send {
            packet: config_packet(state.stored->0.payload),
        }),
{
}

/// No frame is flagged as a keyframe without an IDR unit in its payload.
pub proof fn flagged_frames_hold_an_idr(
    state: StateView,
    frame_type: FrameType,
    units: Seq<Seq<u8>>,
)
    requires
        video_packet(state, frame_type, units).keyframe,
    ensures
        first_unit(video_units(units), NAL_IDR) is Some,
{
    parameter_sets_stay_out_of_the_video(units);
    found_units_are_there(units, NAL_IDR, 0);
    let unit = first_unit(units, NAL_IDR)->0;
    let k = choose|k: int| 0 <= k < units.len() && units[k] == unit;
    assert(is_video_unit(units[k]));
    let kept = video_units(units);
    let m = choose|m: int| 0 <= m < kept.len() && kept[m] == unit;
    units_there_are_found(kept, NAL_IDR, 0, m);
}

/// What a search finds is one of the units and has the type that was looked for.
proof fn found_units_are_there(units: Seq<Seq<u8>>, kind: u8, from: int)
    requires
        0 <= from,
    ensures
        next_unit(units, kind, from) matches Some(unit) ==> units.contains(unit) && unit_type(unit)
            == kind,
    decreases units.len() - from,
{
    if from < units.len() && unit_type(units[from]) != kind {
        found_units_are_there(units, kind, from + 1);
    }
}

/// A search finds something where there is something to find.
pub proof fn units_there_are_found(units: Seq<Seq<u8>>, kind: u8, from: int, at: int)
    requires
        0 <= from <= at < units.len(),
        unit_type(units[at]) == kind,
    ensures
        next_unit(units, kind, from) is Some,
    decreases at - from,
{
    if from < at && unit_type(units[from]) != kind {
        units_there_are_found(units, kind, from + 1, at);
    }
}

/// A step that sends a packet of video.
pub open spec fn sends_video(step: StepView) -> bool {
    step matches StepView::Send { packet } && packet.kind == 2
}

/// A step that sends a config packet.
pub open spec fn sends_a_config(step: StepView) -> bool {
    step matches StepView::Send { packet } && packet.kind == 1
}

/// A frame with any video in it is sent in one packet: all of its units but the parameter
/// sets, each whole behind its length, stamped with a tenth of a second for each frame
/// before it. A pause follows, and a frame without video sends none.
pub proof fn every_frame_is_sent_whole(
    state: StateView,
    width: usize,
    height: usize,
    frame_type: FrameType,
    annexb: Seq<u8>,
)
    ensures
        ({
            let steps = frame_steps(state, width, height, frame_type, annexb);
            let video = video_units(annexb_units(annexb));
            &&& video.len() > 0 ==> exists|i: int|
                {
                    &&& 0 <= i < steps.len()
                    &&& #[trigger] steps[i] matches StepView::Send { packet }
                    &&& packet.kind == 2
                    &&& packet.payload == avcc(video)
                    &&& state.frame_index * 100 <= u32::MAX ==> packet.timestamp_ms
                        == state.frame_index * 100
                    &&& forall|j: int|
                        0 <= j < steps.len() && sends_video(#[trigger] steps[j]) ==> i == j
                }
            &&& video.len() > 0 ==> steps.last() is Pace
            &&& video.len() == 0 ==> forall|j: int|
                0 <= j < steps.len() ==> !sends_video(#[trigger] steps[j]) && !(steps[j] is Pace)
        }),
{
    let units = annexb_units(annexb);
    let steps = frame_steps(state, width, height, frame_type, annexb);
    if units.len() == 0 {
        all_but_parameter_sets_are_kept(units, units, seq![]);
        assert(units =~= Seq::<Seq<u8>>::empty());
    } else {
        let first = disagreement_steps(frame_type, units);
        let second = config_steps(state, width, height, frame_type, units);
        let third = video_steps(state, frame_type, units, annexb.len() as usize);
        let at = first.len() + second.len();
        assert(forall|j: int| 0 <= j < first.len() ==> steps[j] == first[j]);
        assert(forall|j: int| 0 <= j < second.len() ==> steps[first.len() + j] == second[j]);
        assert(forall|j: int| 0 <= j < third.len() ==> steps[at + j] == third[j]);
        assert forall|j: int| 0 <= j < at implies !sends_video(#[trigger] steps[j]) && !(steps[j]
            is Pace) by {
            if j >= first.len() {
                assert(steps[j] == second[j - first.len()]);
            }
        }
        if video_units(units).len() > 0 {
            assert(steps[at + 0int] == third[0]);
            assert(steps[at as int] is Send);
            assert forall|j: int| 0 <= j < steps.len() && sends_video(#[trigger] steps[j]) implies at
                == j by {
                if j > at {
                    assert(steps[j] == third[j - at]);
                }
            }
            assert(third.last() is Pace);
            assert(steps.last() == third.last());
        }
    }
}

/// What goes out of a stream of video units is those units, framed one by one: nothing of
/// a unit is lost, however many zeros stand between them.
pub proof fn video_goes_through_unchanged(
    state: StateView,
    width: usize,
    height: usize,
    frame_type: FrameType,
    units: Seq<Seq<u8>>,
    gaps: Seq<nat>,
    padding: nat,
)
    requires
        units.len() == gaps.len(),
        units.len() > 0,
        forall|i: int| 0 <= i < units.len() ==> is_clean(#[trigger] units[i]),
        forall|i: int|
            0 <= i < units.len() ==> (#[trigger] units[i])[0] % 32 != 7 && units[i][0] % 32 != 8,
        forall|i: int| 0 <= i < gaps.len() ==> #[trigger] gaps[i] >= 2,
    ensures
        ({
            let annexb = annexb_stream(units, gaps) + zeros(padding);
            let steps = frame_steps(state, width, height, frame_type, annexb);
            exists|i: int|
                {
                    &&& 0 <= i < steps.len()
                    &&& #[trigger] steps[i] matches StepView::Send { packet }
                    &&& packet.kind == 2
                    &&& packet.payload == avcc(units)
                }
        }),
{
    let annexb = annexb_stream(units, gaps) + zeros(padding);
    splitting_gives_back_the_units(units, gaps, padding);
    video_is_kept_whole(units);
    every_frame_is_sent_whole(state, width, height, frame_type, annexb);
    let steps = frame_steps(state, width, height, frame_type, annexb);
    let i = choose|i: int|
        0 <= i < steps.len() && sends_video(#[trigger] steps[i]) && (steps[i]->packet).payload
            == avcc(units);
    assert(steps[i] is Send);
}

/// A frame is a keyframe if and only if the encoder calls it one and it holds a unit of
/// type 5. Where only one of the two holds, that is reported first, and otherwise
/// nothing of the kind is.
pub proof fn keyframes_are_agreed_on(
    state: StateView,
    width: usize,
    height: usize,
    frame_type: FrameType,
    annexb: Seq<u8>,
    i: int,
)
    ensures
        ({
            let units = annexb_units(annexb);
            let steps = frame_steps(state, width, height, frame_type, annexb);
            let called = frame_type is IDR || frame_type is I || frame_type is IPMixed;
            let holds = exists|j: int|
                0 <= j < units.len() && (#[trigger] units[j])[0] % 32 == 5;
            &&& 0 <= i < steps.len() && sends_video(steps[i]) ==> ((steps[i]->packet).keyframe
                <==> called && holds)
            &&& 0 <= i < steps.len() && sends_a_config(steps[i]) ==> called && holds
            &&& units.len() > 0 && called != holds ==> steps.len() > 0 && steps[0] == (
            StepView::Disagreement { frame_type, contains_idr: holds, keyframe: false })
            &&& 0 <= i < steps.len() && steps[i] is Disagreement ==> i == 0 && called != holds
        }),
{
    let units = annexb_units(annexb);
    let steps = frame_steps(state, width, height, frame_type, annexb);
    let called = frame_type is IDR || frame_type is I || frame_type is IPMixed;
    let holds = exists|j: int| 0 <= j < units.len() && (#[trigger] units[j])[0] % 32 == 5;
    if holds {
        let j = choose|j: int| 0 <= j < units.len() && (#[trigger] units[j])[0] % 32 == 5;
        units_there_are_found(units, 5, 0, j);
    } else {
        missing_types_are_not_found(units, 5);
    }
    assert(has_unit(units, 5) == holds);
    if units.len() > 0 {
        let first = disagreement_steps(frame_type, units);
        let second = config_steps(state, width, height, frame_type, units);
        let third = video_steps(state, frame_type, units, annexb.len() as usize);
        assert(steps == first + second + third);
        if 0 <= i < first.len() {
            assert(steps[i] == first[i]);
        } else if first.len() <= i < first.len() + second.len() {
            assert(steps[i] == second[i - first.len()]);
        } else if first.len() + second.len() <= i < steps.len() {
            assert(steps[i] == third[i - first.len() - second.len()]);
        }
        if called != holds {
            assert(steps[0] == first[0]);
        }
    }
}

/// What is reported of a frame: each config packet right behind it, as new where the state
/// held none for this size and as repeated elsewhere, and every twentieth frame with
/// video.
pub proof fn frames_report_their_progress(
    state: StateView,
    width: usize,
    height: usize,
    frame_type: FrameType,
    annexb: Seq<u8>,
    i: int,
)
    requires
        0 <= i < frame_steps(state, width, height, frame_type, annexb).len(),
    ensures
        ({
            let steps = frame_steps(state, width, height, frame_type, annexb);
            let fits = state.stored matches Some(s) && s.width == width && s.height == height;
            &&& sends_a_config(steps[i]) ==> i + 1 < steps.len() && if steps[i + 1] is ConfigSent {
                !fits && steps[i + 1]->ConfigSent_width == width && steps[i
                    + 1]->ConfigSent_height == height
            } else {
                steps[i + 1] is ConfigResent
            }
            &&& steps[i] is ConfigSent || steps[i] is ConfigResent ==> i > 0 && sends_a_config(
                steps[i - 1],
            )
            &&& sends_video(steps[i]) ==> i + 1 < steps.len() && ((state.frame_index + 1) % 20 == 0
                <==> steps[i + 1] is FrameSent)
            &&& steps[i] is FrameSent ==> i > 0 && sends_video(steps[i - 1])
                && steps[i]->FrameSent_keyframe == (steps[i - 1]->packet).keyframe
                && steps[i]->FrameSent_timestamp_ms == (steps[i - 1]->packet).timestamp_ms
                && steps[i]->FrameSent_annexb_len == annexb.len() as usize
            &&& steps[i] is Pace ==> i == steps.len() - 1
            &&& !(steps[i] is Retry)
        }),
{
    let units = annexb_units(annexb);
    let steps = frame_steps(state, width, height, frame_type, annexb);
    let first = disagreement_steps(frame_type, units);
    let second = config_steps(state, width, height, frame_type, units);
    let third = video_steps(state, frame_type, units, annexb.len() as usize);
    let at = first.len() + second.len();
    assert(steps == first + second + third);
    assert(forall|j: int| 0 <= j < first.len() ==> steps[j] == first[j]);
    assert(forall|j: int| first.len() <= j < at ==> steps[j] == second[j - first.len()]);
    assert(forall|j: int| at <= j < steps.len() ==> steps[j] == third[j - at]);
    if i == first.len() && second.len() > 0 {
        assert(steps[i + 1] == second[1]);
    }
    if i == at {
        assert(steps[i + 1] == third[1]);
    }
    if i == at + 1 {
        assert(steps[i - 1] == third[0]);
    }
    if i == at + 2 {
        assert(steps[i - 1] == third[1]);
    }
}

/// What the state keeps of a frame: its count goes up by one, and the stored config is
/// always the one that went out last. Where none goes out, it stays as it was.
pub proof fn the_state_keeps_the_last_config(
    state: StateView,
    width: usize,
    height: usize,
    frame_type: FrameType,
    annexb: Seq<u8>,
    i: int,
)
    requires
        state.frame_index < u64::MAX,
    ensures
        ({
            let steps = frame_steps(state, width, height, frame_type, annexb);
            let after = state_after(state, width, height, frame_type, annexb);
            &&& after.frame_index == state.frame_index + 1
            &&& 0 <= i < steps.len() && sends_a_config(steps[i]) ==> {
                &&& after.last_config_frame == after.frame_index
                &&& after.stored is Some
                &&& after.stored->0.payload == (steps[i]->packet).payload
                &&& !(steps[i]->packet).keyframe
                &&& (steps[i]->packet).timestamp_ms == 0
            }
            &&& (forall|j: int| 0 <= j < steps.len() ==> !sends_a_config(#[trigger] steps[j])) ==> {
                &&& after.last_config_frame == state.last_config_frame
                &&& after.stored == state.stored
            }
        }),
{
    let units = annexb_units(annexb);
    let steps = frame_steps(state, width, height, frame_type, annexb);
    if units.len() > 0 {
        let first = disagreement_steps(frame_type, units);
        let second = config_steps(state, width, height, frame_type, units);
        let third = video_steps(state, frame_type, units, annexb.len() as usize);
        let at = first.len() + second.len();
        assert(steps == first + second + third);
        assert(forall|j: int| 0 <= j < first.len() ==> steps[j] == first[j]);
        assert(forall|j: int| first.len() <= j < at ==> steps[j] == second[j - first.len()]);
        assert(forall|j: int| at <= j < steps.len() ==> steps[j] == third[j - at]);
        if second.len() > 0 {
            assert(sends_a_config(steps[first.len() as int]));
        }
    }
}

/// A config message tells a viewer of this size, and describes the two parameter sets
/// that it was made of.
pub proof fn configs_describe_their_parameter_sets(
    width: usize,
    height: usize,
    sps: Seq<u8>,
    pps: Seq<u8>,
)
    requires
        4 <= sps.len() <= 65535,
        pps.len() <= 65535,
    ensures
        exists|members: Seq<(Seq<char>, Scalar)>, codec: Seq<char>, description: Seq<u8>|
            {
                &&& config_payload(width, height, sps, pps) == encode_utf8(object_text(members))
                &&& members.len() == 5
                &&& members.contains(("w"@, Scalar::Number(width as u64)))
                &&& members.contains(("h"@, Scalar::Number(height as u64)))
                &&& members.contains(("fps"@, Scalar::Number(10)))
                &&& #[trigger] members.contains(("codec"@, Scalar::Text(codec)))
                &&& #[trigger] members.contains(("description"@, Scalar::Text(base64(description))))
                &&& codec.take(5) == seq!['a', 'v', 'c', '1', '.']
                &&& describes(description, sps, pps)
            },
{
    let description = avcc_description(sps, pps);
    let codec = codec_text(sps);
    let members = config_members(width, height, codec, base64(description));
    descriptions_hold_the_parameter_sets(sps, pps);
    codecs_name_the_profile(sps);
    config_messages_state_the_stream(width, height, codec, base64(description));
    assert(members.contains(("codec"@, Scalar::Text(codec))));
    assert(members.contains(("description"@, Scalar::Text(base64(description)))));
}

/// A new config is made of the first SPS and the first PPS of its keyframe.
pub proof fn new_configs_hold_the_parameter_sets_of_their_keyframe(
    state: StateView,
    width: usize,
    height: usize,
    frame_type: FrameType,
    annexb: Seq<u8>,
    sps_at: int,
    pps_at: int,
    idr_at: int,
)
    requires
        !(state.stored matches Some(s) && s.width == width && s.height == height),
        frame_type is IDR || frame_type is I || frame_type is IPMixed,
        0 <= sps_at < annexb_units(annexb).len(),
        0 <= pps_at < annexb_units(annexb).len(),
        0 <= idr_at < annexb_units(annexb).len(),
        annexb_units(annexb)[sps_at][0] % 32 == 7,
        annexb_units(annexb)[pps_at][0] % 32 == 8,
        annexb_units(annexb)[idr_at][0] % 32 == 5,
        forall|i: int| 0 <= i < sps_at ==> (#[trigger] annexb_units(annexb)[i])[0] % 32 != 7,
        forall|i: int| 0 <= i < pps_at ==> (#[trigger] annexb_units(annexb)[i])[0] % 32 != 8,
    ensures
        ({
            let units = annexb_units(annexb);
            let steps = frame_steps(state, width, height, frame_type, annexb);
            let config = PacketView {
                kind: 1,
                keyframe: false,
                timestamp_ms: 0,
                payload: config_payload(width, height, units[sps_at], units[pps_at]),
            };
            &&& steps.len() > 2
            &&& steps[0] == StepView::Send { packet: config }
            &&& sends_video(steps[2])
            &&& (steps[2]->packet).keyframe
            &&& state_after(state, width, height, frame_type, annexb).stored == Some(
                StoredView { width, height, payload: config.payload },
            )
        }),
{
    let units = annexb_units(annexb);
    the_first_unit_of_a_type_is_found(units, 7, sps_at);
    the_first_unit_of_a_type_is_found(units, 8, pps_at);
    units_there_are_found(units, 5, 0, idr_at);
    let steps = frame_steps(state, width, height, frame_type, annexb);
    let first = disagreement_steps(frame_type, units);
    let second = config_steps(state, width, height, frame_type, units);
    let third = video_steps(state, frame_type, units, annexb.len() as usize);
    assert(steps == first + second + third);
    assert(first.len() == 0 && second.len() == 2);
    let idr = units[idr_at];
    assert(video_units(units).len() > 0) by {
        all_but_parameter_sets_are_kept(units.take(idr_at), units.skip(idr_at), idr);
        assert(units =~= units.take(idr_at) + units.skip(idr_at));
        all_but_parameter_sets_are_kept(seq![idr], units.skip(idr_at + 1), idr);
        assert(units.skip(idr_at) =~= seq![idr] + units.skip(idr_at + 1));
    }
    assert(steps[0] == second[0]);
    assert(steps[2] == third[0]);
}

/// Captures start over what fails: a screen that could not be captured and an encoder
/// that could not be set up are reported, waited for and change nothing; a frame that
/// could not be encoded is reported. An encoder is made where the size is a new one, which
/// is reported first.
pub proof fn failures_are_reported(
    state: StateView,
    size: Option<(usize, usize)>,
    width: usize,
    height: usize,
    answer: EncoderAnswer,
)
    ensures
        ({
            let steps = capture_steps(state, size, width, height, answer);
            let after = state_after_capture(state, size, width, height, answer);
            let kept = size == Some((width, height));
            &&& answer matches EncoderAnswer::NotCaptured { reason } ==> after == state && steps
                == seq![StepView::CaptureFailed { reason }, StepView::Retry]
            &&& answer matches EncoderAnswer::InitFailed { reason } ==> after == state && steps
                == seq![StepView::EncoderInitFailed { reason }, StepView::Retry]
            &&& answer matches EncoderAnswer::EncodeFailed { reason } ==> steps.len() > 0
                && steps.last() == (StepView::EncodeFailed { reason }) && after.frame_index
                == state.frame_index && after.last_config_frame == state.last_config_frame
            &&& answer is EncodeFailed ==> after.stored == (if kept { state.stored } else { None })
            &&& answer is Encoded || answer is EncodeFailed ==> (!kept <==> steps.len() > 0
                && steps[0] == (StepView::EncoderReady { width, height }))
            &&& size_after_capture(size, width, height, answer) == (if answer is Encoded || answer
                is EncodeFailed {
                Some((width, height))
            } else {
                size
            })
        }),
{
    let steps = capture_steps(state, size, width, height, answer);
    if size != Some((width, height)) && (answer is Encoded || answer is EncodeFailed) {
        assert(steps[0] == (StepView::EncoderReady { width, height }));
    }
    if size == Some((width, height)) && answer is Encoded && steps.len() > 0 {
        let (frame_type, annexb) = (answer->frame_type, answer->annexb);
        let units = annexb_units(annexb);
        let first = disagreement_steps(frame_type, units);
        let second = config_steps(state, width, height, frame_type, units);
        let third = video_steps(state, frame_type, units, annexb.len() as usize);
        let frame = frame_steps(state, width, height, frame_type, annexb);
        assert(steps =~= frame);
        assert(frame == first + second + third);
        if first.len() > 0 {
            assert(steps[0] == first[0]);
        } else if second.len() > 0 {
            assert(steps[0] == second[0]);
        } else {
            assert(steps[0] == third[0]);
        }
    }
}

/// A frame goes through a capture as it does by itself. A config from before a change of
/// size does not count after it.
pub proof fn a_new_size_needs_a_new_config(
    state: StateView,
    size: Option<(usize, usize)>,
    width: usize,
    height: usize,
    frame_type: FrameType,
    annexb: Seq<u8>,
)
    ensures
        ({
            let answer = EncoderAnswer::Encoded { frame_type, annexb };
            let steps = capture_steps(state, size, width, height, answer);
            let after = state_after_capture(state, size, width, height, answer);
            let blank = StateView { stored: None, ..state };
            if size == Some((width, height)) {
                &&& steps == frame_steps(state, width, height, frame_type, annexb)
                &&& after == state_after(state, width, height, frame_type, annexb)
            } else {
                &&& steps.len() > 0
                &&& steps.skip(1) == frame_steps(blank, width, height, frame_type, annexb)
                &&& after == state_after(blank, width, height, frame_type, annexb)
            }
        }),
{
    let answer = EncoderAnswer::Encoded { frame_type, annexb };
    let steps = capture_steps(state, size, width, height, answer);
    if size == Some((width, height)) {
        assert(steps =~= frame_steps(state, width, height, frame_type, annexb));
    } else {
        let blank = StateView { stored: None, ..state };
        assert(steps.skip(1) =~= frame_steps(blank, width, height, frame_type, annexb));
    }
}

/// A frame is refused only where its own first parameter sets are too short or too long
/// for a description.
pub proof fn only_impossible_parameter_sets_are_refused(
    state: StateView,
    width: usize,
    height: usize,
    answer: EncoderAnswer,
)
    requires
        is_refused(state, width, height, answer),
    ensures
        answer is Encoded,
        exists|sps: Seq<u8>, pps: Seq<u8>|
            {
                &&& #[trigger] annexb_units(answer->annexb).contains(sps)
                &&& #[trigger] annexb_units(answer->annexb).contains(pps)
                &&& sps[0] % 32 == 7
                &&& pps[0] % 32 == 8
                &&& sps.len() < 4 || sps.len() > usize::MAX / 8 || pps.len() > usize::MAX / 8
            },
{
    let units = annexb_units(answer->annexb);
    found_units_are_there(units, 7, 0);
    found_units_are_there(units, 8, 0);
}

/// Every picture goes to the encoder of its size, stamped by its number, behind those
/// that went there before.
pub proof fn every_picture_is_fed(
    before: Seq<Picture>,
    state: StateView,
    size: Option<(usize, usize)>,
    width: usize,
    height: usize,
    rgba: Seq<u8>,
)
    ensures
        ({
            let fed = fed_after_capture(before, state, size, width, height, rgba);
            &&& fed.len() > 0
            &&& fed.last().planes == i420(rgba, width, height)
            &&& fed.last().size == (width, height)
            &&& state.frame_index * 100 <= u32::MAX ==> fed.last().millis == state.frame_index * 100
            &&& size == Some((width, height)) ==> fed.drop_last() == before
            &&& size != Some((width, height)) ==> fed.len() == 1
        }),
{
    let fed = fed_after_capture(before, state, size, width, height, rgba);
    if size == Some((width, height)) {
        assert(fed.drop_last() =~= before);
    }
}

/// What the encoder made of every picture is on record behind what it made before: the
/// frame where there is one, and otherwise that there is none.
pub proof fn every_output_is_kept(
    before: Seq<Option<(FrameType, Seq<u8>)>>,
    size: Option<(usize, usize)>,
    width: usize,
    height: usize,
    answer: EncoderAnswer,
)
    ensures
        ({
            let made = made_after_capture(before, size, width, height, answer);
            &&& made.len() > 0
            &&& answer matches EncoderAnswer::Encoded { frame_type, annexb } ==> made.last() == Some(
                (frame_type, annexb),
            )
            &&& !(answer is Encoded) ==> made.last() is None
            &&& size == Some((width, height)) ==> made.drop_last() == before
            &&& size != Some((width, height)) ==> made.len() == 1
        }),
{
    let made = made_after_capture(before, size, width, height, answer);
    if size == Some((width, height)) {
        assert(made.drop_last() =~= before);
    }
}

/// An encoder answers with its frame, or with the words of its error.
pub proof fn encoders_answer_for_themselves(encoded: Result<EncodedFrame, EncoderError>)
    ensures
        encoded matches Ok(frame) ==> answer_of(encoded) == (EncoderAnswer::Encoded {
            frame_type: frame.frame_type,
            annexb: frame.annexb@,
        }),
        encoded matches Err(error) ==> answer_of(encoded) == (EncoderAnswer::EncodeFailed {
            reason: error.reason@,
        }),
{
}

/// Frames keep their pace: work and rest together take a tenth of a second, and a frame
/// that took longer is not waited for.
pub proof fn frames_keep_their_pace(elapsed_nanos: int)
    requires
        0 <= elapsed_nanos,
    ensures
        elapsed_nanos <= 100_000_000 ==> elapsed_nanos + rest_after(elapsed_nanos) == 100_000_000,
        elapsed_nanos >= 100_000_000 ==> rest_after(elapsed_nanos) == 0,
{
}

} // verus!

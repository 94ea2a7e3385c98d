//! A whole stream: the packets that go out for all its captures, in order.

use vstd::prelude::*;

use crate::video::config::FPS;
use crate::video::encoder::FrameType;
use crate::video::nal::{annexb_units, first_unit, has_unit, video_units, NAL_PPS, NAL_SPS};
use crate::video::packet::{PacketView, STREAM_KIND_CONFIG, STREAM_KIND_VIDEO};
use crate::video::stream::{
    capture_steps, config_packet, config_payload, config_steps, disagreement_steps, encoder_size,
    flagged_frames_hold_an_idr, follows_answer, frame_steps, frame_timestamp,
    frames_are_a_tenth_of_a_second_apart, is_keyframe, reaches_encoder, rebuilds, resends, size_after_capture,
    state_after_capture, state_for, video_packet, video_steps, EncoderAnswer, ScreenStream,
    StateView, StepView,
};

verus! {

/// One capture, and what came of it. Where the screen could not be captured, the
/// resolution says nothing.
pub struct Capture {
    pub width: usize,
    pub height: usize,
    pub answer: EncoderAnswer,
}

// ---------------------------------------------------------------------------
// The stream, capture by capture
// ---------------------------------------------------------------------------

/// What the stream remembers ahead of capture `k`.
pub open spec fn state_before(captures: Seq<Capture>, k: int) -> StateView
    decreases k,
{
    if k <= 0 {
        StateView { stored: None, last_config_frame: 0, frame_index: 0 }
    } else {
        let c = captures[k - 1];
        state_after_capture(
            state_before(captures, k - 1),
            size_before(captures, k - 1),
            c.width,
            c.height,
            c.answer,
        )
    }
}

/// The resolution of the encoder in use ahead of capture `k`.
pub open spec fn size_before(captures: Seq<Capture>, k: int) -> Option<(usize, usize)>
    decreases k,
{
    if k <= 0 {
        None
    } else {
        let c = captures[k - 1];
        size_after_capture(size_before(captures, k - 1), c.width, c.height, c.answer)
    }
}

/// What follows from capture `k`.
pub open spec fn steps_at(captures: Seq<Capture>, k: int) -> Seq<StepView> {
    let c = captures[k];
    capture_steps(
        state_before(captures, k),
        size_before(captures, k),
        c.width,
        c.height,
        c.answer,
    )
}

/// The packets that are sent by these steps, in order.
pub open spec fn packets_in(steps: Seq<StepView>) -> Seq<PacketView>
    decreases steps.len(),
{
    if steps.len() == 0 {
        seq![]
    } else {
        match steps.last() {
            StepView::Send { packet } => packets_in(steps.drop_last()).push(packet),
            _ => packets_in(steps.drop_last()),
        }
    }
}

/// The packets that are sent for capture `k`.
pub open spec fn packets_at(captures: Seq<Capture>, k: int) -> Seq<PacketView> {
    packets_in(steps_at(captures, k))
}

/// The packets that are sent for the first `k` captures.
pub open spec fn packets_before(captures: Seq<Capture>, k: int) -> Seq<PacketView>
    decreases k,
{
    if k <= 0 {
        seq![]
    } else {
        packets_before(captures, k - 1) + packets_at(captures, k - 1)
    }
}

/// How many of the first `k` captures were encoded.
pub open spec fn frames_before(captures: Seq<Capture>, k: int) -> int
    decreases k,
{
    if k <= 0 {
        0
    } else if captures[k - 1].answer is Encoded {
        frames_before(captures, k - 1) + 1
    } else {
        frames_before(captures, k - 1)
    }
}

/// An encoder was made for capture `k`: there was none for its resolution.
pub open spec fn makes_encoder(captures: Seq<Capture>, k: int) -> bool {
    reaches_encoder(captures[k].answer) && size_before(captures, k) != Some(
        (captures[k].width, captures[k].height),
    )
}

/// The capture that the encoder was made for that is in use behind the first `k`
/// captures.
pub open spec fn encoder_since(captures: Seq<Capture>, k: int) -> int
    decreases k,
{
    if k <= 0 {
        0
    } else if makes_encoder(captures, k - 1) {
        k - 1
    } else {
        encoder_since(captures, k - 1)
    }
}

/// A config packet is sent for capture `k`.
pub open spec fn sends_config(captures: Seq<Capture>, k: int) -> bool {
    exists|i: int|
        0 <= i < packets_at(captures, k).len() && (#[trigger] packets_at(captures, k)[i]).kind
            == STREAM_KIND_CONFIG
}

/// The latest of the first `k` captures that a config packet was sent for; -1 where
/// there is none.
pub open spec fn last_config_before(captures: Seq<Capture>, k: int) -> int
    decreases k,
{
    if k <= 0 {
        -1
    } else if sends_config(captures, k - 1) {
        k - 1
    } else {
        last_config_before(captures, k - 1)
    }
}

/// A config packet was sent since the encoder in use for capture `k` was made, and
/// ahead of the capture.
pub open spec fn config_in_effect(captures: Seq<Capture>, k: int) -> bool {
    last_config_before(captures, k) >= encoder_since(captures, k + 1)
}

/// The payload of the config packet that was sent last ahead of capture `k`.
pub open spec fn last_payload(captures: Seq<Capture>, k: int) -> Seq<u8> {
    packets_at(captures, last_config_before(captures, k))[0].payload
}

/// A config packet is due for capture `k`: a keyframe that carries parameter sets,
/// when none was sent since the encoder was made; or any keyframe, when the last
/// one lies [`FPS`] or more encoded frames back.
pub open spec fn config_is_due(captures: Seq<Capture>, k: int) -> bool {
    captures[k].answer matches EncoderAnswer::Encoded { frame_type, annexb } && {
        let units = annexb_units(annexb);
        &&& is_keyframe(frame_type, units)
        &&& if config_in_effect(captures, k) {
            frames_before(captures, k + 1) - frames_before(
                captures,
                last_config_before(captures, k) + 1,
            ) >= FPS
        } else {
            has_unit(units, NAL_SPS) && has_unit(units, NAL_PPS)
        }
    }
}

/// The payload of a config packet for capture `k`: the one in effect again, or that
/// of the capture's own parameter sets.
pub open spec fn due_payload(captures: Seq<Capture>, k: int) -> Seq<u8> {
    if config_in_effect(captures, k) {
        last_payload(captures, k)
    } else {
        let units = annexb_units(captures[k].answer->annexb);
        config_payload(
            captures[k].width,
            captures[k].height,
            first_unit(units, NAL_SPS)->0,
            first_unit(units, NAL_PPS)->0,
        )
    }
}

// ---------------------------------------------------------------------------
// The packets of one capture
// ---------------------------------------------------------------------------

/// The packets of two lists of steps.
proof fn packets_of_both(a: Seq<StepView>, b: Seq<StepView>)
    ensures
        packets_in(a + b) == packets_in(a) + packets_in(b),
    decreases b.len(),
{
    if b.len() == 0 {
        assert(a + b =~= a);
        assert(packets_in(a) + packets_in(b) =~= packets_in(a));
    } else {
        packets_of_both(a, b.drop_last());
        assert((a + b).drop_last() =~= a + b.drop_last());
        assert((a + b).last() == b.last());
        assert(packets_in(a + b) =~= packets_in(a) + packets_in(b));
    }
}

/// What is sent for an encoded frame: a config packet where one is called for, then
/// the frame, where it is more than parameter sets.
proof fn packets_of_a_frame(
    state: StateView,
    width: usize,
    height: usize,
    frame_type: FrameType,
    annexb: Seq<u8>,
)
    ensures
        ({
            let units = annexb_units(annexb);
            let config = if rebuilds(state, width, height, frame_type, units) {
                seq![
                    config_packet(
                        config_payload(
                            width,
                            height,
                            first_unit(units, NAL_SPS)->0,
                            first_unit(units, NAL_PPS)->0,
                        ),
                    ),
                ]
            } else if resends(state, width, height, frame_type, units) {
                seq![config_packet(state.stored->0.payload)]
            } else {
                seq![]
            };
            let video = if video_units(units).len() > 0 {
                seq![video_packet(state, frame_type, units)]
            } else {
                seq![]
            };
            packets_in(frame_steps(state, width, height, frame_type, annexb)) == config + video
        }),
{
    reveal_with_fuel(packets_in, 4);
    let units = annexb_units(annexb);
    let a = disagreement_steps(frame_type, units);
    let b = config_steps(state, width, height, frame_type, units);
    let c = video_steps(state, frame_type, units, annexb.len() as usize);
    if units.len() == 0 {
        reveal(Seq::filter);
        assert(video_units(units).len() == 0);
        assert(frame_steps(state, width, height, frame_type, annexb) =~= seq![]);
        assert(packets_in(frame_steps(state, width, height, frame_type, annexb)) =~= seq![]);
    } else {
        packets_of_both(a, b);
        packets_of_both(a + b, c);
        assert(packets_in(a) =~= seq![]);
        if rebuilds(state, width, height, frame_type, units) || resends(
            state,
            width,
            height,
            frame_type,
            units,
        ) {
            assert(b.drop_last() =~= seq![b[0]]);
            assert(seq![b[0]].drop_last() =~= seq![]);
        }
        if video_units(units).len() > 0 {
            let send = seq![StepView::Send { packet: video_packet(state, frame_type, units) }];
            assert(send.drop_last() =~= seq![]);
            if c.len() == 2 {
                assert(c.drop_last() =~= send);
            } else {
                assert(c.drop_last().drop_last() =~= send);
            }
            assert(packets_in(c) =~= seq![video_packet(state, frame_type, units)]);
        }
    }
}

/// A keyframe is more than parameter sets.
proof fn keyframes_are_sent(frame_type: FrameType, units: Seq<Seq<u8>>)
    requires
        is_keyframe(frame_type, units),
    ensures
        video_units(units).len() > 0,
{
    let state = StateView { stored: None, last_config_frame: 0, frame_index: 0 };
    flagged_frames_hold_an_idr(state, frame_type, units);
}

/// A capture that was not encoded sends nothing.
proof fn nothing_is_sent_without_a_frame(captures: Seq<Capture>, k: int)
    requires
        !(captures[k].answer is Encoded),
    ensures
        packets_at(captures, k) == Seq::<PacketView>::empty(),
        !sends_config(captures, k),
{
    reveal_with_fuel(packets_in, 3);
    assert(packets_at(captures, k) =~= seq![]);
}

/// What is sent for an encoded capture, by the state it is encoded in.
proof fn packets_by_state(captures: Seq<Capture>, k: int)
    requires
        captures[k].answer is Encoded,
    ensures
        ({
            let c = captures[k];
            let units = annexb_units(c.answer->annexb);
            let frame_type = c.answer->frame_type;
            let state = state_for(
                state_before(captures, k),
                size_before(captures, k),
                c.width,
                c.height,
            );
            packets_at(captures, k) == packets_in(
                frame_steps(state, c.width, c.height, frame_type, c.answer->annexb),
            )
        }),
{
    let c = captures[k];
    let state = state_for(
        state_before(captures, k),
        size_before(captures, k),
        c.width,
        c.height,
    );
    let steps = frame_steps(
        state,
        c.width,
        c.height,
        c.answer->frame_type,
        c.answer->annexb,
    );
    let ready = if size_before(captures, k) == Some((c.width, c.height)) {
        seq![]
    } else {
        seq![StepView::EncoderReady { width: c.width, height: c.height }]
    };
    reveal_with_fuel(packets_in, 2);
    assert(packets_in(ready) =~= seq![]);
    packets_of_both(ready, steps);
    assert(packets_in(ready) + packets_in(steps) =~= packets_in(steps));
}

// ---------------------------------------------------------------------------
// What the stream remembers is what went out
// ---------------------------------------------------------------------------

/// What the stream remembers ahead of capture `k` is what happened: how many frames
/// were encoded, and which config packet was sent last since the encoder was made.
spec fn remembers(captures: Seq<Capture>, k: int) -> bool {
    let state = state_before(captures, k);
    let last = last_config_before(captures, k);
    &&& state.frame_index == frames_before(captures, k)
    &&& 0 <= frames_before(captures, k) <= k
    &&& -1 <= last < k
    &&& 0 <= encoder_since(captures, k) <= k
    &&& state.stored is Some <==> last >= encoder_since(captures, k)
    &&& state.stored matches Some(s) ==> {
        &&& size_before(captures, k) == Some((s.width, s.height))
        &&& s.payload == last_payload(captures, k)
        &&& state.last_config_frame == frames_before(captures, last + 1)
    }
}

/// What is sent for capture `k`, and what is remembered behind it.
proof fn one_more_capture(captures: Seq<Capture>, k: int)
    requires
        0 <= k < captures.len() <= u64::MAX,
        remembers(captures, k),
    ensures
        remembers(captures, k + 1),
        captures[k].answer matches EncoderAnswer::Encoded { frame_type, annexb } ==> {
            let units = annexb_units(annexb);
            let config = if config_is_due(captures, k) {
                seq![config_packet(due_payload(captures, k))]
            } else {
                seq![]
            };
            let video = if video_units(units).len() > 0 {
                seq![video_packet(state_before(captures, k), frame_type, units)]
            } else {
                seq![]
            };
            packets_at(captures, k) == config + video
        },
        sends_config(captures, k) <==> config_is_due(captures, k),
{
    let c = captures[k];
    let before = state_before(captures, k);
    let size = size_before(captures, k);
    let state = state_for(before, size, c.width, c.height);
    let last = last_config_before(captures, k);
    assert(state_before(captures, k + 1) == state_after_capture(
        before,
        size,
        c.width,
        c.height,
        c.answer,
    ));
    assert(size_before(captures, k + 1) == size_after_capture(size, c.width, c.height, c.answer));
    if c.answer is Encoded {
        let frame_type = c.answer->frame_type;
        let units = annexb_units(c.answer->annexb);
        let packets = packets_at(captures, k);
        packets_by_state(captures, k);
        packets_of_a_frame(state, c.width, c.height, frame_type, c.answer->annexb);
        assert(config_in_effect(captures, k) <==> state.stored is Some);
        let rebuild = rebuilds(state, c.width, c.height, frame_type, units);
        let resend = resends(state, c.width, c.height, frame_type, units);
        assert(config_is_due(captures, k) <==> rebuild || resend);
        assert(video_packet(state, frame_type, units) == video_packet(before, frame_type, units));
        if rebuild || resend {
            assert(units.len() > 0);
            assert(packets[0] == config_packet(due_payload(captures, k)));
            assert(packets[0].kind == STREAM_KIND_CONFIG);
            assert(sends_config(captures, k));
            assert(last_config_before(captures, k + 1) == k);
            assert(last_payload(captures, k + 1) == packets[0].payload);
        } else {
            assert forall|i: int| 0 <= i < packets.len() implies (#[trigger] packets[i]).kind
                != STREAM_KIND_CONFIG by {
                assert(packets[i] == video_packet(state, frame_type, units));
            }
            assert(!sends_config(captures, k));
        }
    } else {
        nothing_is_sent_without_a_frame(captures, k);
    }
}

/// The stream remembers what happened, at every time.
proof fn memory_is_right(captures: Seq<Capture>, k: int)
    requires
        0 <= k <= captures.len() <= u64::MAX,
    ensures
        remembers(captures, k),
    decreases k,
{
    if k > 0 {
        memory_is_right(captures, k - 1);
        one_more_capture(captures, k - 1);
    }
}

// ---------------------------------------------------------------------------
// Laws
// ---------------------------------------------------------------------------

/// A stream that is pushed its captures one after the other takes the steps of its
/// history: from the stream ahead of capture `k` a push leads to the stream ahead of
/// the next one, with the steps of capture `k`.
pub proof fn pushing_follows_the_history(
    captures: Seq<Capture>,
    k: int,
    before: ScreenStream,
    after: ScreenStream,
    rgba: Seq<u8>,
    steps: Seq<StepView>,
)
    requires
        0 <= k < captures.len(),
        before.state@ == state_before(captures, k),
        encoder_size(before.active) == size_before(captures, k),
        follows_answer(
            before,
            after,
            captures[k].width,
            captures[k].height,
            rgba,
            Some(steps),
            captures[k].answer,
        ),
    ensures
        steps == steps_at(captures, k),
        after.state@ == state_before(captures, k + 1),
        encoder_size(after.active) == size_before(captures, k + 1),
{
}

/// The streams are those of a whole run, from its start: each capture leads from one to
/// the next with its steps, as a push has it, or leaves the stream as it is where the
/// screen could not be captured.
pub open spec fn is_run(
    captures: Seq<Capture>,
    streams: Seq<ScreenStream>,
    frames: Seq<Seq<u8>>,
    steps: Seq<Seq<StepView>>,
) -> bool {
    &&& streams.len() == captures.len() + 1
    &&& frames.len() == captures.len()
    &&& steps.len() == captures.len()
    &&& streams[0].active is None
    &&& streams[0].state@ == state_before(captures, 0)
    &&& forall|k: int|
        0 <= k < captures.len() ==> leads_on(
            #[trigger] captures[k],
            streams[k],
            streams[k + 1],
            frames[k],
            steps[k],
        )
}

/// One capture leads from `before` to `after`, with these steps.
pub open spec fn leads_on(
    capture: Capture,
    before: ScreenStream,
    after: ScreenStream,
    rgba: Seq<u8>,
    steps: Seq<StepView>,
) -> bool {
    if capture.answer is NotCaptured {
        &&& after == before
        &&& steps == capture_steps(
            before.state@,
            encoder_size(before.active),
            capture.width,
            capture.height,
            capture.answer,
        )
    } else {
        follows_answer(
            before,
            after,
            capture.width,
            capture.height,
            rgba,
            Some(steps),
            capture.answer,
        )
    }
}

/// The packets that are sent by the first `k` lists of steps.
pub open spec fn packets_sent(steps: Seq<Seq<StepView>>, k: int) -> Seq<PacketView>
    decreases k,
{
    if k <= 0 {
        seq![]
    } else {
        packets_sent(steps, k - 1) + packets_in(steps[k - 1])
    }
}

/// A whole run takes the steps of its history, and sends its packets. So what holds of
/// the packets of every history holds of those of every run.
pub proof fn runs_follow_their_history(
    captures: Seq<Capture>,
    streams: Seq<ScreenStream>,
    frames: Seq<Seq<u8>>,
    steps: Seq<Seq<StepView>>,
    k: int,
)
    requires
        is_run(captures, streams, frames, steps),
        0 <= k <= captures.len(),
    ensures
        streams[k].state@ == state_before(captures, k),
        encoder_size(streams[k].active) == size_before(captures, k),
        k < captures.len() ==> steps[k] == steps_at(captures, k),
        packets_sent(steps, k) == packets_before(captures, k),
    decreases k,
{
    if k > 0 {
        runs_follow_their_history(captures, streams, frames, steps, k - 1);
        assert(leads_on(
            captures[k - 1],
            streams[k - 1],
            streams[k],
            frames[k - 1],
            steps[k - 1],
        ));
    }
    if k < captures.len() {
        assert(leads_on(captures[k], streams[k], streams[k + 1], frames[k], steps[k]));
    }
}

/// What is sent for each capture of a stream: nothing unless it was encoded; else a
/// config packet if and only if one is due, then the frame, where it is more than
/// parameter sets. A config packet stands directly ahead of a keyframe's video
/// packet, and repeats the payload of the one before it unless the encoder is new.
pub proof fn each_capture_sends_what_is_due(captures: Seq<Capture>, k: int)
    requires
        0 <= k < captures.len() <= u64::MAX,
    ensures
        !(captures[k].answer is Encoded) ==> packets_at(captures, k).len() == 0,
        captures[k].answer matches EncoderAnswer::Encoded { frame_type, annexb } ==> {
            let units = annexb_units(annexb);
            let config = if config_is_due(captures, k) {
                seq![config_packet(due_payload(captures, k))]
            } else {
                seq![]
            };
            let video = if video_units(units).len() > 0 {
                seq![video_packet(state_before(captures, k), frame_type, units)]
            } else {
                seq![]
            };
            packets_at(captures, k) == config + video
        },
        sends_config(captures, k) <==> config_is_due(captures, k),
        config_is_due(captures, k) ==> {
            &&& packets_at(captures, k).len() == 2
            &&& packets_at(captures, k)[0] == config_packet(due_payload(captures, k))
            &&& packets_at(captures, k)[1].kind == STREAM_KIND_VIDEO
            &&& packets_at(captures, k)[1].keyframe
        },
{
    memory_is_right(captures, k);
    one_more_capture(captures, k);
    match captures[k].answer {
        EncoderAnswer::Encoded { frame_type, annexb } => {
            let units = annexb_units(annexb);
            if config_is_due(captures, k) {
                keyframes_are_sent(frame_type, units);
            }
        },
        _ => {
            nothing_is_sent_without_a_frame(captures, k);
        },
    }
}

/// Among all packets of a stream, every config packet is no keyframe and is stamped
/// zero, and the packet directly behind it is a keyframe's video packet.
pub proof fn config_packets_go_ahead_of_keyframes(captures: Seq<Capture>, k: int, i: int)
    requires
        0 <= k <= captures.len() <= u64::MAX,
        0 <= i < packets_before(captures, k).len(),
        packets_before(captures, k)[i].kind == STREAM_KIND_CONFIG,
    ensures
        !packets_before(captures, k)[i].keyframe,
        packets_before(captures, k)[i].timestamp_ms == 0,
        i + 1 < packets_before(captures, k).len(),
        packets_before(captures, k)[i + 1].kind == STREAM_KIND_VIDEO,
        packets_before(captures, k)[i + 1].keyframe,
    decreases k,
{
    let ahead = packets_before(captures, k - 1);
    let now = packets_at(captures, k - 1);
    let all = packets_before(captures, k);
    if i < ahead.len() {
        assert(all[i] == ahead[i]);
        config_packets_go_ahead_of_keyframes(captures, k - 1, i);
        assert(all[i + 1] == ahead[i + 1]);
    } else {
        let m = i - ahead.len();
        assert(all[i] == now[m]);
        assert(sends_config(captures, k - 1));
        each_capture_sends_what_is_due(captures, k - 1);
        assert(m == 0);
        assert(all[i + 1] == now[1]);
    }
}

/// The packets of the first captures stay the first packets.
proof fn packets_stay_in_place(captures: Seq<Capture>, k: int, n: int)
    requires
        0 <= k <= n,
    ensures
        packets_before(captures, k).len() <= packets_before(captures, n).len(),
        forall|i: int|
            0 <= i < packets_before(captures, k).len() ==> #[trigger] packets_before(
                captures,
                n,
            )[i] == packets_before(captures, k)[i],
    decreases n,
{
    if k < n {
        packets_stay_in_place(captures, k, n - 1);
        assert forall|i: int| 0 <= i < packets_before(captures, k).len() implies
            #[trigger] packets_before(captures, n)[i] == packets_before(captures, k)[i] by {
            assert(packets_before(captures, n - 1)[i] == packets_before(captures, k)[i]);
        }
    }
}

/// Among all packets of a stream, one is a config packet directly ahead of the video
/// packet of a keyframe if and only if it is due: the frame has parameter sets and
/// none was sent since the encoder was made, or one was and lies [`FPS`] or more
/// encoded frames back. It then holds the payload of the one before, or that of the
/// frame's parameter sets.
pub proof fn a_config_stands_ahead_of_a_keyframe_when_due(captures: Seq<Capture>, k: int, n: int)
    requires
        0 <= k < n <= captures.len() <= u64::MAX,
        captures[k].answer matches EncoderAnswer::Encoded { frame_type, annexb } && is_keyframe(
            frame_type,
            annexb_units(annexb),
        ),
    ensures
        ({
            let all = packets_before(captures, n);
            let at = packets_before(captures, k + 1).len() - 1;
            &&& 0 <= at < all.len()
            &&& all[at] == video_packet(
                state_before(captures, k),
                captures[k].answer->frame_type,
                annexb_units(captures[k].answer->annexb),
            )
            &&& all[at].kind == STREAM_KIND_VIDEO && all[at].keyframe
            &&& at > 0 && all[at - 1].kind == STREAM_KIND_CONFIG <==> config_is_due(captures, k)
            &&& config_is_due(captures, k) ==> all[at - 1] == config_packet(
                due_payload(captures, k),
            )
        }),
{
    let ahead = packets_before(captures, k);
    let now = packets_at(captures, k);
    let upto = packets_before(captures, k + 1);
    let at = upto.len() - 1;
    each_capture_sends_what_is_due(captures, k);
    keyframes_are_sent(captures[k].answer->frame_type, annexb_units(captures[k].answer->annexb));
    packets_stay_in_place(captures, k + 1, n);
    assert(upto == ahead + now);
    assert(upto[at] == now[now.len() - 1]);
    if config_is_due(captures, k) {
        assert(upto[at - 1] == now[0]);
    } else if at > 0 {
        // The packet ahead is the last of an earlier capture, so no config packet.
        assert(upto[at - 1] == ahead[at - 1]);
        if ahead[at - 1].kind == STREAM_KIND_CONFIG {
            config_packets_go_ahead_of_keyframes(captures, k, at - 1);
        }
    }
}

/// A tenth of a second, in milliseconds, for each frame.
proof fn small_timestamps(n: u64)
    requires
        n < 42_949_673,
    ensures
        frame_timestamp(n) == 100 * n,
{
    frames_are_a_tenth_of_a_second_apart(n);
}

/// The video packet of the n-th frame that was encoded, counted from zero, is stamped
/// `100 * n`. Captures and encodings that failed do not count.
pub proof fn frames_are_stamped_by_their_number(captures: Seq<Capture>, k: int, i: int)
    requires
        0 <= k < captures.len() <= u64::MAX,
        0 <= i < packets_at(captures, k).len(),
        packets_at(captures, k)[i].kind == STREAM_KIND_VIDEO,
        frames_before(captures, k) < 42_949_673,
    ensures
        captures[k].answer is Encoded,
        packets_at(captures, k)[i].timestamp_ms == 100 * frames_before(captures, k),
        i == packets_at(captures, k).len() - 1,
{
    memory_is_right(captures, k);
    each_capture_sends_what_is_due(captures, k);
    small_timestamps(state_before(captures, k).frame_index);
}

/// All timestamps of video packets lie below that of the next frame.
proof fn timestamps_stay_below_the_next(captures: Seq<Capture>, k: int, i: int)
    requires
        0 <= k <= captures.len() <= u64::MAX,
        0 <= i < packets_before(captures, k).len(),
        packets_before(captures, k)[i].kind == STREAM_KIND_VIDEO,
        frames_before(captures, k) <= 42_949_673,
    ensures
        packets_before(captures, k)[i].timestamp_ms < 100 * frames_before(captures, k),
    decreases k,
{
    let ahead = packets_before(captures, k - 1);
    let now = packets_at(captures, k - 1);
    let all = packets_before(captures, k);
    if i < ahead.len() {
        assert(all[i] == ahead[i]);
        timestamps_stay_below_the_next(captures, k - 1, i);
    } else {
        let m = i - ahead.len();
        assert(all[i] == now[m]);
        each_capture_sends_what_is_due(captures, k - 1);
        assert(captures[k - 1].answer is Encoded);
        frames_are_stamped_by_their_number(captures, k - 1, m);
    }
}

/// The timestamps of the video packets of a stream strictly increase, as long as
/// there are no more frames than 32 bits of milliseconds can stamp.
pub proof fn video_timestamps_increase(captures: Seq<Capture>, k: int, i: int, j: int)
    requires
        0 <= k <= captures.len() <= u64::MAX,
        0 <= i < j < packets_before(captures, k).len(),
        packets_before(captures, k)[i].kind == STREAM_KIND_VIDEO,
        packets_before(captures, k)[j].kind == STREAM_KIND_VIDEO,
        frames_before(captures, k) <= 42_949_673,
    ensures
        packets_before(captures, k)[i].timestamp_ms < packets_before(captures, k)[j].timestamp_ms,
    decreases k,
{
    let ahead = packets_before(captures, k - 1);
    let now = packets_at(captures, k - 1);
    let all = packets_before(captures, k);
    if j < ahead.len() {
        assert(all[i] == ahead[i]);
        assert(all[j] == ahead[j]);
        video_timestamps_increase(captures, k - 1, i, j);
    } else {
        let m = j - ahead.len();
        assert(all[j] == now[m]);
        each_capture_sends_what_is_due(captures, k - 1);
        assert(captures[k - 1].answer is Encoded);
        frames_are_stamped_by_their_number(captures, k - 1, m);
        if i < ahead.len() {
            assert(all[i] == ahead[i]);
            timestamps_stay_below_the_next(captures, k - 1, i);
        } else {
            let l = i - ahead.len();
            assert(all[i] == now[l]);
            frames_are_stamped_by_their_number(captures, k - 1, l);
        }
    }
}

} // verus!

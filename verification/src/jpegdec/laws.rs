//! What holds of the JPEG decoder over whole runs of its scripts.

use vstd::prelude::*;

use crate::call::{Call, Port, Reply};
use crate::jpegdec::frames::{Decoded, FinishPicture, JpegDecode, JpegDeliver, Picture};
use crate::jpegdec::state::{CreateError, DecoderState, JpegFormat, JpegSetFormat, JpegStart, SetFormatError};
use crate::mpp_ffi::{MPP_OK, NULL};
use crate::output::{Entry, NegotiateOutput};
use crate::script::Event;

verus! {

/// Starting the decoder makes one context, or none where it fails. No format is set then.
pub proof fn law_start_makes_a_context(replies: Seq<Reply>)
    requires
        crate::script::run(JpegStart::Begin, (), replies).out is Some,
    ensures
        ({
            let run = crate::script::run(JpegStart::Begin, (), replies);
            &&& crate::script::total(crate::resources::context_weight(), run.log) == crate::resources::one_if(
                run.out->0 is Ok,
            )
            &&& run.out->0 matches Ok(dec) ==> dec.buf_size == 0 && dec.groups_held() == 0
        }),
{
    broadcast use crate::script::group_batch;

    let account = crate::script::Account {
        weight: crate::resources::context_weight(),
        at: |script: JpegStart, state: ()| true,
        held: |script: JpegStart, state: (), reply: Reply|
            crate::resources::one_if(script is Created && reply.ret == MPP_OK),
        kept: |state: (), out: Result<DecoderState, CreateError>| crate::resources::one_if(out is Ok),
    };
    crate::script::lemma_run_balances(account, JpegStart::Begin, (), replies);
    reveal_with_fuel(crate::script::run, 3);
}

impl DecoderState {
    /// The buffer groups that the decoder holds.
    pub open spec fn groups_held(self) -> int {
        crate::resources::one_if(self.input_group != NULL) + crate::resources::one_if(self.buf_group != NULL)
    }
}

/// Giving a decoder back releases its context and its buffer groups.
pub proof fn law_release_gives_all_back(dec: DecoderState)
    ensures
        crate::script::batch(crate::resources::context_weight(), dec.release_calls(), None) == -1,
        crate::script::batch(crate::resources::group_weight(), dec.release_calls(), None) == -dec.groups_held(),
{
    broadcast use crate::script::group_batch;

}

spec fn format_groups() -> crate::script::Account<JpegSetFormat> {
    crate::script::Account {
        weight: crate::resources::group_weight(),
        at: |script: JpegSetFormat, state: DecoderState|
            match script {
                JpegSetFormat::InputGroup { .. } => state.input_group == NULL,
                JpegSetFormat::OutputGroup { .. } => state.buf_group == NULL,
                _ => true,
            },
        held: |script: JpegSetFormat, state: DecoderState, reply: Reply|
            state.groups_held() + match script {
                JpegSetFormat::InputGroup { .. } => crate::resources::one_if(reply.handle != NULL),
                JpegSetFormat::OutputGroup { .. } => crate::resources::one_if(reply.handle != NULL),
                _ => 0,
            },
        kept: |state: DecoderState, out: Result<(), SetFormatError>| state.groups_held(),
    }
}

/// Setting a format up loses no buffer group: the old ones are given back, and the new ones are held
/// by the decoder afterwards, whether it succeeds or not.
pub proof fn law_set_format_keeps_groups(format: JpegFormat, state: DecoderState, replies: Seq<Reply>)
    requires
        crate::script::run(JpegSetFormat::Begin { format }, state, replies).out is Some,
    ensures
        ({
            let run = crate::script::run(JpegSetFormat::Begin { format }, state, replies);
            state.groups_held() + crate::script::total(crate::resources::group_weight(), run.log)
                == run.state.groups_held()
        }),
{
    broadcast use crate::script::group_batch;

    crate::script::lemma_run_balances(format_groups(), JpegSetFormat::Begin { format }, state, replies);
}

/// A format takes effect as a whole, and only where setting it up succeeds; the output is then
/// negotiated anew.
pub proof fn law_set_format_takes_effect(format: JpegFormat, state: DecoderState, replies: Seq<Reply>)
    requires
        replies.len() >= 4,
    ensures
        ({
            let run = crate::script::run(JpegSetFormat::Begin { format }, state, replies);
            &&& run.out is Some
            &&& run.out->0 is Ok ==> (run.state.geometry, run.state.buf_size, run.state.negotiated) == (
                format.geometry,
                format.buf_size,
                false,
            )
            &&& run.out->0 is Err ==> (run.state.geometry, run.state.buf_size, run.state.negotiated) == (
                state.geometry,
                state.buf_size,
                state.negotiated,
            )
        }),
{
    reveal_with_fuel(crate::script::run, 5);
}

/// An output buffer holds the padded NV12 picture of its format.
pub proof fn law_output_buffer_holds_picture(format: JpegFormat, width: Option<i32>, height: Option<i32>)
    requires
        format.follows(width, height),
    ensures
        crate::planes::strides_hold(format.geometry),
        crate::planes::padded_size(format.geometry) <= format.buf_size,
{
    let (hs, vs) = (format.geometry.hor_stride as int, format.geometry.ver_stride as int);
    assert(vs * hs + (vs / 2) * hs <= hs * vs * 2) by (nonlinear_arith)
        requires
            0 <= vs,
            0 <= hs,
    ;
}

spec fn decode_buffers() -> crate::script::Account<JpegDecode> {
    crate::script::Account {
        weight: crate::resources::buffer_weight(),
        at: |script: JpegDecode, state: DecoderState| true,
        held: |script: JpegDecode, state: DecoderState, reply: Reply|
            match script {
                JpegDecode::InputBuffer { .. } => crate::resources::one_if(
                    reply.ret == MPP_OK && reply.handle != NULL,
                ),
                JpegDecode::Packet { buffer, .. } => crate::resources::one_if(buffer != NULL),
                JpegDecode::OutputBuffer { .. } => crate::resources::one_if(
                    reply.ret == MPP_OK && reply.handle != NULL,
                ),
                JpegDecode::OutputFrame { buffer, .. } => crate::resources::one_if(buffer != NULL),
                _ => 0,
            },
        kept: |state: DecoderState, out: Decoded| 0int,
    }
}

/// The references that decoding a picture takes to MPP buffers are all given up again: packet and
/// frame hold the buffers from then on.
pub proof fn law_decode_keeps_no_buffer(length: usize, state: DecoderState, replies: Seq<Reply>)
    requires
        crate::script::run(JpegDecode::Begin { length }, state, replies).out is Some,
    ensures
        crate::script::total(
            crate::resources::buffer_weight(),
            crate::script::run(JpegDecode::Begin { length }, state, replies).log,
        ) == 0,
{
    assert forall|script: JpegDecode, st: DecoderState, reply: Reply| #[trigger]
        decode_buffers().step_balances(crate::script::anything(), script, st, reply) by {
        lemma_decode_buffers_step(script, st, reply);
    }
    crate::script::lemma_run_balances(decode_buffers(), JpegDecode::Begin { length }, state, replies);
}

proof fn lemma_decode_buffers_step(script: JpegDecode, state: DecoderState, reply: Reply)
    ensures
        decode_buffers().step_balances(crate::script::anything(), script, state, reply),
{
    broadcast use crate::script::group_batch;

    match script {
        JpegDecode::Packet { .. } => {},
        JpegDecode::FrameMeta { .. } => {},
        JpegDecode::MetaPacket { .. } => {},
        _ => {},
    }
}

/// The input packet: it is ours from the moment it is made until the finished task comes back, and
/// then with the decoded frame until it is taken out of the frame's meta data.
pub open spec fn packet_weight() -> spec_fn(Event) -> int {
    |event: Event|
        match event.call {
            Call::PacketInitWithBuffer(_) => crate::resources::one_if(crate::resources::succeeded(event.reply)),
            Call::Dequeue { port: Port::Output, .. } => -crate::resources::one_if(
                crate::resources::succeeded(event.reply) && crate::resources::hands_out(event.reply),
            ),
            Call::MetaGetPacket { .. } => crate::resources::one_if(crate::resources::hands_out(event.reply)),
            Call::PacketDeinit(_) => -1,
            _ => 0,
        }
}

impl DecoderState {
    /// Whether tasks can be polled, taken and put.
    pub open spec fn runs_tasks(self) -> bool {
        self.api.poll && self.api.dequeue && self.api.enqueue
    }
}

/// Expects that no packet is made which could not be queued then.
pub open spec fn packets_can_be_queued(tasks: bool) -> spec_fn(JpegDecode, Reply) -> bool {
    |script: JpegDecode, reply: Reply| script is Packet && !tasks ==> reply.ret != MPP_OK
}

spec fn decode_packets(tasks: bool) -> crate::script::Account<JpegDecode> {
    crate::script::Account {
        weight: packet_weight(),
        at: |script: JpegDecode, state: DecoderState| state.runs_tasks() == tasks,
        held: |script: JpegDecode, state: DecoderState, reply: Reply|
            match script {
                JpegDecode::Begin { .. } => 0,
                JpegDecode::InputBuffer { .. } => 0,
                JpegDecode::Packet { .. } => crate::resources::one_if(reply.ret == MPP_OK),
                JpegDecode::DequeueOutput { .. } => 1 - crate::resources::one_if(
                    reply.ret == MPP_OK && reply.handle != NULL,
                ),
                JpegDecode::TaskFrame { .. } => 0,
                JpegDecode::DecodedMeta { .. } => 0,
                JpegDecode::MetaPacket { .. } => crate::resources::one_if(reply.handle != NULL),
                JpegDecode::Inspected { .. } => 0,
                _ => 1,
            },
        kept: |state: DecoderState, out: Decoded| 0int,
    }
}

proof fn lemma_decode_packets_step(tasks: bool, script: JpegDecode, state: DecoderState, reply: Reply)
    requires
        (decode_packets(tasks).at)(script, state),
        packets_can_be_queued(tasks)(script, reply),
    ensures
        decode_packets(tasks).step_balances(packets_can_be_queued(tasks), script, state, reply),
{
    broadcast use crate::script::group_batch;

    match script {
        JpegDecode::Packet { .. } => {},
        JpegDecode::FrameMeta { .. } => {},
        JpegDecode::MetaPacket { .. } => {},
        _ => {},
    }
}

/// The input packet does not stay ours: every path that ends early gives it back, and so does the
/// way of a decoded frame, as far as the frame still carries it. This is so as long as a packet that
/// was made can be queued.
pub proof fn law_decode_keeps_no_packet(length: usize, state: DecoderState, replies: Seq<Reply>)
    requires
        crate::script::run(JpegDecode::Begin { length }, state, replies).out is Some,
        crate::script::as_expected(
            packets_can_be_queued(state.runs_tasks()),
            JpegDecode::Begin { length },
            state,
            replies,
        ),
    ensures
        crate::script::total(
            packet_weight(),
            crate::script::run(JpegDecode::Begin { length }, state, replies).log,
        ) == 0,
{
    let tasks = state.runs_tasks();
    assert forall|script: JpegDecode, st: DecoderState, reply: Reply|
        (decode_packets(tasks).at)(script, st) && packets_can_be_queued(tasks)(
            script,
            reply,
        ) implies #[trigger] decode_packets(tasks).step_balances(
        packets_can_be_queued(tasks),
        script,
        st,
        reply,
    ) by {
        lemma_decode_packets_step(tasks, script, st, reply);
    }
    crate::script::lemma_run_balances_expecting(
        decode_packets(tasks),
        packets_can_be_queued(tasks),
        JpegDecode::Begin { length },
        state,
        replies,
    );
}

/// The output frame: it is ours until its task is queued, and again once it is taken out of the
/// finished task.
pub open spec fn frame_weight() -> spec_fn(Event) -> int {
    |event: Event|
        match event.call {
            Call::FrameInit => crate::resources::one_if(crate::resources::hands_out(event.reply)),
            Call::Enqueue { port: Port::Input, .. } => -crate::resources::one_if(
                crate::resources::succeeded(event.reply),
            ),
            Call::TaskMetaGetFrame { .. } => crate::resources::one_if(crate::resources::hands_out(event.reply)),
            Call::FrameDeinit(frame) => -crate::resources::one_if(frame != NULL),
            _ => 0,
        }
}

/// Expects that a task is queued only with a frame in it.
pub open spec fn frame_is_made() -> spec_fn(JpegDecode, Reply) -> bool {
    |script: JpegDecode, reply: Reply|
        script matches JpegDecode::EnqueueInput { frame, .. } ==> reply.ret == MPP_OK ==> frame != NULL
}

spec fn decode_frames() -> crate::script::Account<JpegDecode> {
    crate::script::Account {
        weight: frame_weight(),
        at: |script: JpegDecode, state: DecoderState|
            match script {
                JpegDecode::DecodedMeta { frame, .. } => frame != NULL,
                JpegDecode::MetaPacket { frame, .. } => frame != NULL,
                JpegDecode::Inspected { frame } => frame != NULL,
                _ => true,
            },
        held: |script: JpegDecode, state: DecoderState, reply: Reply|
            match script {
                JpegDecode::OutputFrame { .. } => crate::resources::one_if(reply.handle != NULL),
                JpegDecode::FrameMeta { frame, .. } => crate::resources::one_if(frame != NULL),
                JpegDecode::EnqueueInput { frame, .. } => crate::resources::one_if(frame != NULL)
                    - crate::resources::one_if(reply.ret == MPP_OK),
                JpegDecode::TaskFrame { .. } => crate::resources::one_if(reply.handle != NULL),
                JpegDecode::DecodedMeta { .. } => 1,
                JpegDecode::MetaPacket { .. } => 1,
                JpegDecode::Inspected { .. } => 1,
                _ => 0,
            },
        kept: |state: DecoderState, out: Decoded| crate::resources::one_if(out.picture() is Some),
    }
}

proof fn lemma_decode_frames_step(script: JpegDecode, state: DecoderState, reply: Reply)
    requires
        (decode_frames().at)(script, state),
        frame_is_made()(script, reply),
    ensures
        decode_frames().step_balances(frame_is_made(), script, state, reply),
{
    broadcast use crate::script::group_batch;

    match script {
        JpegDecode::Packet { .. } => {},
        JpegDecode::FrameMeta { .. } => {},
        JpegDecode::MetaPacket { .. } => {},
        _ => {},
    }
}

/// A frame is left with us exactly where a picture is the result, as long as a task is queued only
/// with a frame in it.
pub proof fn law_decode_hands_frame_on(length: usize, state: DecoderState, replies: Seq<Reply>)
    requires
        crate::script::run(JpegDecode::Begin { length }, state, replies).out is Some,
        crate::script::as_expected(frame_is_made(), JpegDecode::Begin { length }, state, replies),
    ensures
        ({
            let run = crate::script::run(JpegDecode::Begin { length }, state, replies);
            crate::script::total(frame_weight(), run.log) == crate::resources::one_if(run.out->0.picture() is Some)
        }),
{
    assert forall|script: JpegDecode, st: DecoderState, reply: Reply|
        (decode_frames().at)(script, st) && frame_is_made()(script, reply) implies #[trigger] decode_frames().step_balances(
        frame_is_made(),
        script,
        st,
        reply,
    ) by {
        lemma_decode_frames_step(script, st, reply);
    }
    crate::script::lemma_run_balances_expecting(
        decode_frames(),
        frame_is_made(),
        JpegDecode::Begin { length },
        state,
        replies,
    );
}

/// Tasks that were taken from the output queue.
pub open spec fn output_task_weight() -> spec_fn(Event) -> int {
    |event: Event|
        match event.call {
            Call::Dequeue { port: Port::Output, .. } => crate::resources::one_if(
                crate::resources::succeeded(event.reply) && crate::resources::hands_out(event.reply),
            ),
            Call::Enqueue { port: Port::Output, .. } => -1,
            _ => 0,
        }
}

spec fn decode_output_tasks() -> crate::script::Account<JpegDecode> {
    crate::script::Account {
        weight: output_task_weight(),
        at: |script: JpegDecode, state: DecoderState| true,
        held: |script: JpegDecode, state: DecoderState, reply: Reply|
            match script {
                JpegDecode::DequeueOutput { .. } => crate::resources::one_if(
                    reply.ret == MPP_OK && reply.handle != NULL,
                ),
                JpegDecode::TaskFrame { .. } => 1,
                JpegDecode::DecodedMeta { .. } => 1,
                JpegDecode::MetaPacket { .. } => 1,
                _ => 0,
            },
        kept: |state: DecoderState, out: Decoded| 0int,
    }
}

proof fn lemma_decode_output_tasks_step(script: JpegDecode, state: DecoderState, reply: Reply)
    ensures
        decode_output_tasks().step_balances(crate::script::anything(), script, state, reply),
{
    broadcast use crate::script::group_batch;

    match script {
        JpegDecode::Packet { .. } => {},
        JpegDecode::FrameMeta { .. } => {},
        JpegDecode::MetaPacket { .. } => {},
        _ => {},
    }
}

/// A task that was taken from the output queue goes back into it, also where it holds no frame.
pub proof fn law_output_task_goes_back(length: usize, state: DecoderState, replies: Seq<Reply>)
    requires
        crate::script::run(JpegDecode::Begin { length }, state, replies).out is Some,
    ensures
        crate::script::total(
            output_task_weight(),
            crate::script::run(JpegDecode::Begin { length }, state, replies).log,
        ) == 0,
{
    assert forall|script: JpegDecode, st: DecoderState, reply: Reply| #[trigger]
        decode_output_tasks().step_balances(crate::script::anything(), script, st, reply) by {
        lemma_decode_output_tasks_step(script, st, reply);
    }
    crate::script::lemma_run_balances(decode_output_tasks(), JpegDecode::Begin { length }, state, replies);
}

spec fn sizes(state: DecoderState) -> crate::script::Conduct<JpegDecode> {
    crate::script::Conduct {
        at: |script: JpegDecode, st: DecoderState| st == state,
        allowed: |event: Event| true,
        ends: |st: DecoderState, out: Decoded|
            match out {
                Decoded::Answer(_) => st == state,
                Decoded::NewSize(announce) => {
                    &&& st.negotiated
                    &&& announce.script == (NegotiateOutput::Begin {
                        width: st.geometry.width,
                        height: st.geometry.height,
                    })
                    &&& !state.negotiated || (st.geometry.width, st.geometry.height) != (
                        state.geometry.width,
                        state.geometry.height,
                    )
                },
                Decoded::Ready(_) => {
                    &&& state.negotiated
                    &&& st == DecoderState { geometry: st.geometry, ..state }
                    &&& st.geometry.width == state.geometry.width
                    &&& st.geometry.height == state.geometry.height
                },
            },
    }
}

/// A picture whose size is new is announced before it is handed on, and the decoder keeps its size;
/// otherwise the size is known already, and nothing of the decoder changes but the strides. Where no
/// picture comes, nothing changes at all.
pub proof fn law_new_size_is_announced(length: usize, state: DecoderState, replies: Seq<Reply>)
    requires
        crate::script::run(JpegDecode::Begin { length }, state, replies).out is Some,
    ensures
        ({
            let run = crate::script::run(JpegDecode::Begin { length }, state, replies);
            match run.out->0 {
                Decoded::Answer(_) => run.state == state,
                Decoded::NewSize(announce) => {
                    &&& run.state.negotiated
                    &&& announce.script == (NegotiateOutput::Begin {
                        width: run.state.geometry.width,
                        height: run.state.geometry.height,
                    })
                    &&& !state.negotiated || (run.state.geometry.width, run.state.geometry.height) != (
                        state.geometry.width,
                        state.geometry.height,
                    )
                },
                Decoded::Ready(_) => {
                    &&& state.negotiated
                    &&& run.state == DecoderState { geometry: run.state.geometry, ..state }
                    &&& run.state.geometry.width == state.geometry.width
                    &&& run.state.geometry.height == state.geometry.height
                },
            }
        }),
{
    crate::script::lemma_run_conduct(sizes(state), JpegDecode::Begin { length }, state, replies);
}

proof fn lemma_picture_is_inspected(script: JpegDecode, state: DecoderState, replies: Seq<Reply>)
    requires
        crate::script::run(script, state, replies).out matches Some(decoded) && decoded.picture() is Some,
    ensures
        ({
            let run = crate::script::run(script, state, replies);
            let picture = run.out->0.picture()->0;
            let info = if script is Inspected {
                replies[0].info
            } else {
                run.log.last().reply->0.info
            };
            &&& script matches JpegDecode::Inspected { frame } ==> run.log.len() == 0 && picture.frame == frame
            &&& !(script is Inspected) ==> run.log.len() > 0 && run.log.last().reply is Some && run.log.last().call
                == Call::FrameInspect(picture.frame)
            &&& picture.buffer == info.buffer
            &&& run.state == state.sized(info)
        }),
    decreases replies.len(),
{
    match crate::script::Script::next(script, state, replies[0]) {
        (after, crate::script::SpecStep::Calls(calls, script2)) => {
            let rest = replies.skip(1);
            assert(crate::script::run(script2, after, rest).out is Some);
            assert(rest.len() > 0);
            lemma_picture_is_inspected(script2, after, rest);
            let tail = crate::script::run(script2, after, rest);
            let log = crate::script::run(script, state, replies).log;
            assert(log == crate::script::events(calls, Some(rest[0])) + tail.log);
            if script2 is Inspected {
                assert(log.last() == crate::script::events(calls, Some(rest[0])).last());
            } else {
                assert(log.last() == tail.log.last());
            }
        },
        _ => {},
    }
}

/// A picture is read by the size and strides that its own frame reports, whatever the frames before
/// it reported: they are what the decoder keeps when the picture is handed on.
pub proof fn law_picture_brings_its_layout(length: usize, state: DecoderState, replies: Seq<Reply>)
    requires
        crate::script::run(JpegDecode::Begin { length }, state, replies).out matches Some(decoded)
            && decoded.picture() is Some,
    ensures
        ({
            let run = crate::script::run(JpegDecode::Begin { length }, state, replies);
            let picture = run.out->0.picture()->0;
            let seen = run.log.last();
            &&& seen.call == Call::FrameInspect(picture.frame)
            &&& seen.reply matches Some(reply) && picture.buffer == reply.info.buffer && run.state.geometry
                == crate::dec::frames::reported(reply.info)
        }),
{
    lemma_picture_is_inspected(JpegDecode::Begin { length }, state, replies);
}

/// Decoding a picture comes to an end.
pub proof fn law_decode_ends(length: usize, state: DecoderState, replies: Seq<Reply>)
    requires
        replies.len() >= 15,
    ensures
        crate::script::run(JpegDecode::Begin { length }, state, replies).out is Some,
{
    let rank = |script: JpegDecode|
        match script {
            JpegDecode::Begin { .. } => 14nat,
            JpegDecode::InputBuffer { .. } => 13,
            JpegDecode::Packet { .. } => 12,
            JpegDecode::PollInput { .. } => 11,
            JpegDecode::DequeueInput { .. } => 10,
            JpegDecode::OutputBuffer { .. } => 9,
            JpegDecode::OutputFrame { .. } => 8,
            JpegDecode::FrameMeta { .. } => 7,
            JpegDecode::EnqueueInput { .. } => 6,
            JpegDecode::PollOutput { .. } => 5,
            JpegDecode::DequeueOutput { .. } => 4,
            JpegDecode::TaskFrame { .. } => 3,
            JpegDecode::DecodedMeta { .. } => 2,
            JpegDecode::MetaPacket { .. } => 1,
            JpegDecode::Inspected { .. } => 0,
        };
    crate::script::lemma_run_completes(rank, JpegDecode::Begin { length }, state, replies);
}

/// Copying a picture out gives its frame back, and what was copied is the result. The copy goes by
/// the size that the decoder keeps.
pub proof fn law_deliver_loses_nothing(picture: Picture, state: DecoderState, replies: Seq<Reply>)
    requires
        crate::script::run(JpegDeliver::Begin { picture }, state, replies).out is Some,
    ensures
        ({
            let run = crate::script::run(JpegDeliver::Begin { picture }, state, replies);
            &&& crate::script::total(frame_weight(), run.log) == -crate::resources::one_if(
                picture.frame != NULL,
            )
            &&& crate::script::total(crate::resources::picture_weight(), run.log) == crate::resources::one_if(
                run.out->0 is Run,
            )
            &&& run.state == state
            &&& picture.buffer != NULL ==> run.log[0].call == (Call::CopyDecoded {
                buffer: picture.buffer,
                geometry: state.geometry,
            })
        }),
{
    broadcast use crate::script::group_batch;

    let script = JpegDeliver::Begin { picture };
    let frames = crate::script::Account {
        weight: frame_weight(),
        at: |script: JpegDeliver, st: DecoderState|
            match script {
                JpegDeliver::Begin { picture: p } => p == picture,
                JpegDeliver::Copied { frame } => frame == picture.frame,
            },
        held: |script: JpegDeliver, st: DecoderState, reply: Reply| crate::resources::one_if(picture.frame != NULL),
        kept: |st: DecoderState, out: Entry<FinishPicture>| 0int,
    };
    crate::script::lemma_run_balances(frames, script, state, replies);
    let pictures = crate::script::Account {
        weight: crate::resources::picture_weight(),
        at: |script: JpegDeliver, st: DecoderState| true,
        held: |script: JpegDeliver, st: DecoderState, reply: Reply|
            crate::resources::one_if(script is Copied && reply.handle != NULL),
        kept: |st: DecoderState, out: Entry<FinishPicture>| crate::resources::one_if(out is Run),
    };
    crate::script::lemma_run_balances(pictures, script, state, replies);
    reveal_with_fuel(crate::script::run, 3);
}

/// A decoded frame comes back in the end: decoding a picture and then copying it out leaves no frame
/// with us, whatever has become of the decoder's size in between.
pub proof fn law_decoded_frame_comes_back(
    length: usize,
    state: DecoderState,
    replies: Seq<Reply>,
    later: DecoderState,
    more: Seq<Reply>,
)
    requires
        crate::script::as_expected(frame_is_made(), JpegDecode::Begin { length }, state, replies),
        crate::script::run(JpegDecode::Begin { length }, state, replies).out matches Some(decoded)
            && decoded.picture() matches Some(picture) && crate::script::run(
            JpegDeliver::Begin { picture },
            later,
            more,
        ).out is Some,
    ensures
        ({
            let decode = crate::script::run(JpegDecode::Begin { length }, state, replies);
            let picture = decode.out->0.picture()->0;
            let script = JpegDeliver::Begin { picture };
            let deliver = crate::script::run(script, later, more);
            crate::script::total(frame_weight(), decode.log + deliver.log) == 0
        }),
{
    let decode = crate::script::run(JpegDecode::Begin { length }, state, replies);
    let picture = decode.out->0.picture()->0;
    let script = JpegDeliver::Begin { picture };
    let deliver = crate::script::run(script, later, more);
    law_decode_hands_frame_on(length, state, replies);
    let conduct = crate::script::Conduct {
        at: |script: JpegDecode, st: DecoderState|
            match script {
                JpegDecode::DecodedMeta { frame, .. } => frame != NULL,
                JpegDecode::MetaPacket { frame, .. } => frame != NULL,
                JpegDecode::Inspected { frame } => frame != NULL,
                _ => true,
            },
        allowed: |event: Event| true,
        ends: |st: DecoderState, out: Decoded| out.picture() matches Some(picture) ==> picture.frame != NULL,
    };
    crate::script::lemma_run_conduct(conduct, JpegDecode::Begin { length }, state, replies);
    law_deliver_loses_nothing(picture, later, more);
    crate::script::lemma_total_add(frame_weight(), decode.log, deliver.log);
}

} // verus!

//! What the JPEG decoder asks of the hardware, call by call, and what follows from the replies.

use vstd::prelude::*;

use crate::call::{Call, Flow, Geometry, MetaKey, Param, Port, Reply};
use crate::jpegdec::frames::{AnnouncePicture, Decoded, FinishPicture, JpegDecode, JpegDeliver, Picture};
use crate::jpegdec::state::{
    CreateError, DecoderState, JpegFormat, JpegSetFormat, JpegStart, SetFormatError, OUTPUT_TIMEOUT,
};
use crate::mpp_ffi::{
    GstBuffer, Mpp, MppFrame, MppPacket, MppTask, MPP_BUFFER_INTERNAL, MPP_BUFFER_TYPE_DRM, MPP_CTX_DEC,
    MPP_DEC_SET_DISABLE_ERROR, MPP_OK, MPP_SET_OUTPUT_TIMEOUT, MPP_VIDEO_CodingMJPEG, NULL,
};
use crate::output::{Entry, NegotiateOutput};

verus! {

/// Whether a run that comes to nothing made these calls last and left the decoder as it was.
pub open spec fn stops(made: Seq<Call>, calls: Seq<Call>, out: Decoded, flow: Flow, before: DecoderState, after: DecoderState) -> bool {
    made == calls && out == Decoded::Answer(flow) && after == before
}

/// Whether the calls begin with these.
pub open spec fn begins(made: Seq<Call>, calls: Seq<Call>) -> bool {
    made.len() >= calls.len() && made.take(calls.len() as int) == calls
}

/// What comes behind them.
pub open spec fn beyond(made: Seq<Call>, calls: Seq<Call>) -> Seq<Call> {
    made.skip(calls.len() as int)
}

/// What a decoded frame comes to, given what it says of itself. A damaged one is given back and brings
/// nothing. Of a good one the decoder takes over the four numbers; it is the picture, with the buffer
/// that it names, and its size is announced first exactly where it is not the one that was known.
pub open spec fn is_judged(
    made: Seq<Call>,
    out: Decoded,
    before: DecoderState,
    after: DecoderState,
    frame: MppFrame,
    seen: Reply,
) -> bool {
    let info = seen.info;
    let picture = Picture { frame, buffer: info.buffer };
    let known = before.negotiated && before.geometry.width == info.width && before.geometry.height == info.height;
    if info.errinfo != 0 || info.discard != 0 {
        stops(made, seq![Call::FrameDeinit(frame)], out, Flow::Success, before, after)
    } else {
        &&& made.len() == 0
        &&& after.geometry.width == info.width
        &&& after.geometry.height == info.height
        &&& after.geometry.hor_stride == info.hor_stride
        &&& after.geometry.ver_stride == info.ver_stride
        &&& after == DecoderState { geometry: after.geometry, negotiated: true, ..before }
        &&& match out {
            Decoded::Ready(p) => known && p == picture,
            Decoded::NewSize(announce) => {
                &&& !known
                &&& announce.picture == picture
                &&& announce.script == NegotiateOutput::Begin { width: info.width, height: info.height }
            },
            Decoded::Answer(_) => false,
        }
    }
}

/// How a task that came back is taken apart: its frame is taken out, the packet that the frame carries is
/// given back, the task is put back, and the frame is inspected. A task without a frame is put back.
pub open spec fn takes_apart(
    made: Seq<Call>,
    out: Decoded,
    before: DecoderState,
    after: DecoderState,
    task: MppTask,
    replies: Seq<Reply>,
) -> bool {
    let back = Call::Enqueue { mpp: before.mpp, port: Port::Output, task };
    let frame = replies[0].handle;
    let meta = replies[1].handle;
    let packet = replies[2].handle;
    if frame == NULL {
        stops(made, seq![back], out, Flow::Success, before, after)
    } else if meta != NULL {
        let head = seq![Call::FrameGetMeta(frame), Call::MetaGetPacket { meta, key: MetaKey::InputPacket }]
            + crate::trace::only_if(packet != NULL, Call::PacketDeinit(packet)) + seq![back, Call::FrameInspect(frame)];
        begins(made, head) && is_judged(beyond(made, head), out, before, after, frame, replies[3])
    } else {
        let head = seq![Call::FrameGetMeta(frame), back, Call::FrameInspect(frame)];
        begins(made, head) && is_judged(beyond(made, head), out, before, after, frame, replies[2])
    }
}

proof fn lemma_judged(frame: MppFrame, state: DecoderState, replies: Seq<Reply>)
    requires
        replies.len() >= 1,
    ensures
        ({
            let run = crate::script::run(JpegDecode::Inspected { frame }, state, replies);
            &&& run.out is Some
            &&& is_judged(crate::trace::calls_of(run.log), run.out->0, state, run.state, frame, replies[0])
        }),
{
    crate::trace::lemma_step(JpegDecode::Inspected { frame }, state, replies);
}

#[verifier::rlimit(60)]
proof fn lemma_takes_apart(task: MppTask, state: DecoderState, replies: Seq<Reply>)
    requires
        replies.len() >= 4,
    ensures
        ({
            let run = crate::script::run(JpegDecode::TaskFrame { task }, state, replies);
            &&& run.out is Some
            &&& takes_apart(crate::trace::calls_of(run.log), run.out->0, state, run.state, task, replies)
        }),
{
    let run = crate::script::run(JpegDecode::TaskFrame { task }, state, replies);
    let made = crate::trace::calls_of(run.log);
    let r1 = replies.skip(1);
    let r2 = r1.skip(1);
    let r3 = r2.skip(1);
    crate::trace::lemma_step(JpegDecode::TaskFrame { task }, state, replies);
    assert(r2[0] == replies[2] && r3[0] == replies[3]);
    let back = Call::Enqueue { mpp: state.mpp, port: Port::Output, task };
    let frame = replies[0].handle;
    let meta = replies[1].handle;
    let packet = replies[2].handle;
    crate::trace::lemma_step(JpegDecode::DecodedMeta { task, frame }, state, r1);
    if frame != NULL && meta != NULL {
        crate::trace::lemma_step(JpegDecode::MetaPacket { task, frame }, state, r2);
        lemma_judged(frame, state, r3);
        let head = seq![Call::FrameGetMeta(frame), Call::MetaGetPacket { meta, key: MetaKey::InputPacket }]
            + crate::trace::only_if(packet != NULL, Call::PacketDeinit(packet)) + seq![back, Call::FrameInspect(frame)];
        let tail = crate::trace::calls_of(crate::script::run(JpegDecode::Inspected { frame }, state, r3).log);
        assert(made =~= head + tail);
        assert(made.take(head.len() as int) =~= head && made.skip(head.len() as int) =~= tail);
    } else if frame != NULL {
        lemma_judged(frame, state, r2);
        let head = seq![Call::FrameGetMeta(frame), back, Call::FrameInspect(frame)];
        let tail = crate::trace::calls_of(crate::script::run(JpegDecode::Inspected { frame }, state, r2).log);
        assert(made =~= head + tail);
        assert(made.take(head.len() as int) =~= head && made.skip(head.len() as int) =~= tail);
    } else {
        assert(made =~= seq![back]);
    }
}

/// How a task is waited for that was queued with `packet`: where it does not come back, the packet is given
/// back, which is an error.
pub open spec fn waits(
    made: Seq<Call>,
    out: Decoded,
    before: DecoderState,
    after: DecoderState,
    packet: MppPacket,
    replies: Seq<Reply>,
) -> bool {
    let drop = seq![Call::PacketDeinit(packet)];
    let take = seq![Call::Dequeue { mpp: before.mpp, port: Port::Output }];
    let task = replies[1].handle;
    let open = take + seq![Call::TaskMetaGetFrame { task, key: MetaKey::OutputFrame }];
    if replies[0].ret != MPP_OK {
        stops(made, drop, out, Flow::Error, before, after)
    } else if replies[1].ret != MPP_OK || task == NULL {
        stops(made, take + drop, out, Flow::Error, before, after)
    } else {
        begins(made, open) && takes_apart(beyond(made, open), out, before, after, task, replies.skip(2))
    }
}

#[verifier::rlimit(60)]
proof fn lemma_waits(packet: MppPacket, state: DecoderState, replies: Seq<Reply>)
    requires
        replies.len() >= 6,
    ensures
        ({
            let run = crate::script::run(JpegDecode::PollOutput { packet }, state, replies);
            &&& run.out is Some
            &&& waits(crate::trace::calls_of(run.log), run.out->0, state, run.state, packet, replies)
        }),
{
    crate::trace::lemma_step(JpegDecode::PollOutput { packet }, state, replies);
    crate::trace::lemma_step(JpegDecode::DequeueOutput { packet }, state, replies.skip(1));
    let run = crate::script::run(JpegDecode::PollOutput { packet }, state, replies);
    let made = crate::trace::calls_of(run.log);
    let r2 = replies.skip(1).skip(1);
    assert(r2 =~= replies.skip(2));
    let drop = seq![Call::PacketDeinit(packet)];
    let take = seq![Call::Dequeue { mpp: state.mpp, port: Port::Output }];
    let task = replies[1].handle;
    if replies[0].ret != MPP_OK {
        assert(made =~= drop);
    } else if replies[1].ret != MPP_OK || task == NULL {
        assert(made =~= take + drop);
    } else {
        lemma_takes_apart(task, state, r2);
        let open = take + seq![Call::TaskMetaGetFrame { task, key: MetaKey::OutputFrame }];
        let tail = crate::trace::calls_of(crate::script::run(JpegDecode::TaskFrame { task }, state, r2).log);
        assert(made =~= open + tail);
        assert(made.take(open.len() as int) =~= open && made.skip(open.len() as int) =~= tail);
    }
}

/// How a task is filled and queued, once an idle one was asked for. The task carries `packet`, and a new frame
/// over a new buffer of the output group, of the size of the format; the frame carries the packet too.
/// Where no task or buffer comes, or the task is refused, what was made is given back, which is an error.
pub open spec fn queues(
    made: Seq<Call>,
    out: Decoded,
    before: DecoderState,
    after: DecoderState,
    packet: MppPacket,
    replies: Seq<Reply>,
) -> bool {
    let drop = seq![Call::PacketDeinit(packet)];
    let task = replies[0].handle;
    let (buffer, frame, meta) = (replies[1].handle, replies[2].handle, replies[3].handle);
    let asked = seq![
        Call::TaskMetaSetPacket { task, key: MetaKey::InputPacket, packet },
        Call::BufferGet { group: before.buf_group, size: before.buf_size },
    ];
    let queued = asked + seq![
        Call::FrameInit,
        Call::FrameSetBuffer { frame, buffer },
        Call::BufferPut(buffer),
        Call::FrameGetMeta(frame),
    ] + crate::trace::only_if(meta != NULL, Call::MetaSetPacket { meta, key: MetaKey::InputPacket, packet }) + seq![
        Call::TaskMetaSetFrame { task, key: MetaKey::OutputFrame, frame },
        Call::Enqueue { mpp: before.mpp, port: Port::Input, task },
    ];
    let waiting = queued + seq![Call::Poll { mpp: before.mpp, port: Port::Output }];
    if replies[0].ret != MPP_OK || task == NULL {
        stops(made, drop, out, Flow::Error, before, after)
    } else if replies[1].ret != MPP_OK {
        stops(made, asked + drop, out, Flow::Error, before, after)
    } else if replies[4].ret != MPP_OK {
        stops(made, queued + seq![Call::FrameDeinit(frame)] + drop, out, Flow::Error, before, after)
    } else {
        begins(made, waiting) && waits(beyond(made, waiting), out, before, after, packet, replies.skip(5))
    }
}

#[verifier::rlimit(60)]
proof fn lemma_queues(packet: MppPacket, state: DecoderState, replies: Seq<Reply>)
    requires
        replies.len() >= 11,
    ensures
        ({
            let run = crate::script::run(JpegDecode::DequeueInput { packet }, state, replies);
            &&& run.out is Some
            &&& queues(crate::trace::calls_of(run.log), run.out->0, state, run.state, packet, replies)
        }),
{
    let run = crate::script::run(JpegDecode::DequeueInput { packet }, state, replies);
    let made = crate::trace::calls_of(run.log);
    let r1 = replies.skip(1);
    let r2 = r1.skip(1);
    let r3 = r2.skip(1);
    let r4 = r3.skip(1);
    let r5 = r4.skip(1);
    assert(r2[0] == replies[2] && r3[0] == replies[3] && r4[0] == replies[4]);
    assert(r5 =~= replies.skip(5));
    let drop = seq![Call::PacketDeinit(packet)];
    let task = replies[0].handle;
    let (buffer, frame, meta) = (replies[1].handle, replies[2].handle, replies[3].handle);
    let asked = seq![
        Call::TaskMetaSetPacket { task, key: MetaKey::InputPacket, packet },
        Call::BufferGet { group: state.buf_group, size: state.buf_size },
    ];
    let queued = asked + seq![
        Call::FrameInit,
        Call::FrameSetBuffer { frame, buffer },
        Call::BufferPut(buffer),
        Call::FrameGetMeta(frame),
    ] + crate::trace::only_if(meta != NULL, Call::MetaSetPacket { meta, key: MetaKey::InputPacket, packet }) + seq![
        Call::TaskMetaSetFrame { task, key: MetaKey::OutputFrame, frame },
        Call::Enqueue { mpp: state.mpp, port: Port::Input, task },
    ];
    crate::trace::lemma_step(JpegDecode::DequeueInput { packet }, state, replies);
    crate::trace::lemma_step(JpegDecode::OutputBuffer { packet, task }, state, r1);
    crate::trace::lemma_step(JpegDecode::OutputFrame { packet, task, buffer }, state, r2);
    crate::trace::lemma_step(JpegDecode::FrameMeta { packet, task, frame }, state, r3);
    crate::trace::lemma_step(JpegDecode::EnqueueInput { packet, frame }, state, r4);
    if replies[0].ret != MPP_OK || task == NULL {
        assert(made =~= drop);
    } else if replies[1].ret != MPP_OK {
        assert(made =~= asked + drop);
    } else if replies[4].ret != MPP_OK {
        assert(made =~= queued + seq![Call::FrameDeinit(frame)] + drop);
    } else {
        lemma_waits(packet, state, r5);
        let waiting = queued + seq![Call::Poll { mpp: state.mpp, port: Port::Output }];
        let tail = crate::trace::calls_of(crate::script::run(JpegDecode::PollOutput { packet }, state, r5).log);
        assert(made =~= waiting + tail);
        assert(made.take(waiting.len() as int) =~= waiting && made.skip(waiting.len() as int) =~= tail);
    }
}

/// Decoding an input of `length` bytes, from its first call to its last. All `length` bytes are copied into a
/// buffer of that size, and a packet of exactly that length is made of the buffer. An idle task is waited
/// for; it is filled and queued: see `queues`. Where something does not come, what was made is given back,
/// which is an error.
#[verifier::rlimit(60)]
pub proof fn law_whole_input_is_decoded(length: usize, state: DecoderState, replies: Seq<Reply>)
    requires
        replies.len() >= 15,
    ensures
        ({
            let run = crate::script::run(JpegDecode::Begin { length }, state, replies);
            let made = crate::trace::calls_of(run.log);
            let (buffer, packet) = (replies[1].handle, replies[2].handle);
            let asked = seq![Call::BufferGet { group: state.input_group, size: length }];
            let copied = asked + seq![
                Call::CopyToBuffer { buffer, length },
                Call::PacketInitWithBuffer(buffer),
            ];
            let filled = copied + seq![Call::PacketSetLength { packet, length }, Call::BufferPut(buffer)];
            let polled = filled + seq![Call::Poll { mpp: state.mpp, port: Port::Input }];
            let taken = polled + seq![Call::Dequeue { mpp: state.mpp, port: Port::Input }];
            let fails = |calls: Seq<Call>| stops(made, calls, run.out->0, Flow::Error, state, run.state);
            &&& run.out is Some
            &&& if replies[1].ret != MPP_OK {
                fails(asked)
            } else if replies[2].ret != MPP_OK {
                fails(copied + seq![Call::BufferPut(buffer)])
            } else if !(state.api.poll && state.api.dequeue && state.api.enqueue) {
                fails(filled)
            } else if replies[3].ret != MPP_OK {
                fails(polled + seq![Call::PacketDeinit(packet)])
            } else {
                &&& begins(made, taken)
                &&& queues(beyond(made, taken), run.out->0, state, run.state, packet, replies.skip(4))
            }
        }),
{
    let run = crate::script::run(JpegDecode::Begin { length }, state, replies);
    let made = crate::trace::calls_of(run.log);
    let r1 = replies.skip(1);
    let r2 = r1.skip(1);
    let r3 = r2.skip(1);
    let r4 = r3.skip(1);
    assert(r2[0] == replies[2] && r3[0] == replies[3]);
    assert(r4 =~= replies.skip(4));
    let (buffer, packet) = (replies[1].handle, replies[2].handle);
    let asked = seq![Call::BufferGet { group: state.input_group, size: length }];
    let copied = asked + seq![Call::CopyToBuffer { buffer, length }, Call::PacketInitWithBuffer(buffer)];
    let filled = copied + seq![Call::PacketSetLength { packet, length }, Call::BufferPut(buffer)];
    let polled = filled + seq![Call::Poll { mpp: state.mpp, port: Port::Input }];
    let taken = polled + seq![Call::Dequeue { mpp: state.mpp, port: Port::Input }];
    crate::trace::lemma_step(JpegDecode::Begin { length }, state, replies);
    crate::trace::lemma_step(JpegDecode::InputBuffer { length }, state, r1);
    crate::trace::lemma_step(JpegDecode::Packet { length, buffer }, state, r2);
    crate::trace::lemma_step(JpegDecode::PollInput { packet }, state, r3);
    if replies[1].ret != MPP_OK {
        assert(made =~= asked);
    } else if replies[2].ret != MPP_OK {
        assert(made =~= copied + seq![Call::BufferPut(buffer)]);
    } else if !(state.api.poll && state.api.dequeue && state.api.enqueue) {
        assert(made =~= filled);
    } else if replies[3].ret != MPP_OK {
        assert(made =~= polled + seq![Call::PacketDeinit(packet)]);
    } else {
        lemma_queues(packet, state, r4);
        let tail = crate::trace::calls_of(crate::script::run(JpegDecode::DequeueInput { packet }, state, r4).log);
        assert(made =~= taken + tail);
        assert(made.take(taken.len() as int) =~= taken && made.skip(taken.len() as int) =~= tail);
    }
}

/// Starting the decoder makes a context and holds it as it came, without a format.
pub proof fn law_start_holds_the_context(replies: Seq<Reply>)
    requires
        replies.len() >= 2,
    ensures
        ({
            let run = crate::script::run(JpegStart::Begin, (), replies);
            let created = replies[1];
            &&& crate::trace::calls_of(run.log) == seq![Call::Create]
            &&& run.out == Some(
                if created.ret != MPP_OK {
                    Err::<DecoderState, CreateError>(CreateError)
                } else {
                    Ok(
                        DecoderState {
                            mpp: Mpp { ctx: created.handle, mpi: created.mpi },
                            api: created.api,
                            geometry: Geometry { width: 0, height: 0, hor_stride: 0, ver_stride: 0 },
                            buf_size: 0,
                            input_group: NULL,
                            buf_group: NULL,
                            negotiated: false,
                        },
                    )
                },
            )
        }),
{
    broadcast use crate::trace::group_calls;

    reveal_with_fuel(crate::script::run, 3);
}

/// Setting the decoder up for a format, from its first call to its last. The context is set up for JPEG; then
/// errors are let pass and the timeout is set, where commands can be given. New groups are asked for,
/// first for the input, then for the output, each after the old one was given back; the decoder holds
/// what came. Size and buffer size are those of the format, and the size is announced anew.
pub proof fn law_format_is_set_up(format: JpegFormat, state: DecoderState, replies: Seq<Reply>)
    requires
        replies.len() >= 4,
    ensures
        ({
            let run = crate::script::run(JpegSetFormat::Begin { format }, state, replies);
            let made = crate::trace::calls_of(run.log);
            let mpp = state.mpp;
            let init = seq![Call::Init { mpp, ctx_type: MPP_CTX_DEC, coding: MPP_VIDEO_CodingMJPEG }];
            let ready = crate::trace::only_if(
                state.api.control,
                Call::Control { mpp, cmd: MPP_DEC_SET_DISABLE_ERROR, param: Param::Null },
            ) + crate::trace::only_if(
                state.api.control,
                Call::Control { mpp, cmd: MPP_SET_OUTPUT_TIMEOUT, param: Param::I64(OUTPUT_TIMEOUT) },
            );
            let group = Call::BufferGroupGet { buf_type: MPP_BUFFER_TYPE_DRM, mode: MPP_BUFFER_INTERNAL };
            let input = init + ready + crate::trace::only_if(
                state.input_group != NULL,
                Call::BufferGroupPut(state.input_group),
            ) + seq![group];
            let output = input + crate::trace::only_if(
                state.buf_group != NULL,
                Call::BufferGroupPut(state.buf_group),
            ) + seq![group];
            if replies[1].ret != MPP_OK {
                &&& made == init
                &&& run.out == Some(Err::<(), SetFormatError>(SetFormatError::Init))
                &&& run.state == state
            } else if replies[2].ret != MPP_OK {
                &&& made == input
                &&& run.out == Some(Err::<(), SetFormatError>(SetFormatError::InputGroup))
                &&& run.state == DecoderState { input_group: replies[2].handle, ..state }
            } else if replies[3].ret != MPP_OK {
                &&& made == output
                &&& run.out == Some(Err::<(), SetFormatError>(SetFormatError::OutputGroup))
                &&& run.state == DecoderState {
                    input_group: replies[2].handle,
                    buf_group: replies[3].handle,
                    ..state
                }
            } else {
                &&& made == output
                &&& run.out == Some(Ok::<(), SetFormatError>(()))
                &&& run.state == DecoderState {
                    input_group: replies[2].handle,
                    buf_group: replies[3].handle,
                    geometry: format.geometry,
                    buf_size: format.buf_size,
                    negotiated: false,
                    ..state
                }
            }
        }),
{
    broadcast use crate::trace::group_calls;

    reveal_with_fuel(crate::script::run, 5);
    let r2 = replies.skip(1).skip(1);
    assert(r2[0] == replies[2] && r2.skip(1)[0] == replies[3]);
}

/// A decoder that is given back resets its context where that can be done, gives back the groups that it has,
/// and destroys the context, in this order.
pub proof fn law_release_gives_its_own_back(dec: DecoderState)
    ensures
        dec.release_calls() == crate::trace::only_if(dec.api.reset, Call::Reset(dec.mpp)) + crate::trace::only_if(
            dec.buf_group != NULL,
            Call::BufferGroupPut(dec.buf_group),
        ) + crate::trace::only_if(dec.input_group != NULL, Call::BufferGroupPut(dec.input_group)) + seq![
            Call::Destroy(dec.mpp.ctx),
        ],
{
}

/// The sides of a format are those that the caps give, 1920 by 1080 where they give none. The strides are
/// the next multiples of sixteen, and a buffer has two bytes for each pixel of the padded picture.
pub proof fn law_format_follows_the_caps(format: JpegFormat, width: Option<i32>, height: Option<i32>)
    requires
        format.follows(width, height),
    ensures
        ({
            let g = format.geometry;
            &&& width matches Some(w) ==> w >= 0 ==> g.width == w
            &&& height matches Some(h) ==> h >= 0 ==> g.height == h
            &&& width is None ==> g.width == 1920
            &&& height is None ==> g.height == 1080
            &&& g.hor_stride % 16 == 0 && g.width <= g.hor_stride < g.width + 16
            &&& g.ver_stride % 16 == 0 && g.height <= g.ver_stride < g.height + 16
            &&& format.buf_size == g.hor_stride * g.ver_stride * 2
        }),
{
}

/// Every size up to 16384 by 16384 can be set up.
pub proof fn law_ordinary_formats_fit(width: Option<i32>, height: Option<i32>)
    requires
        width matches Some(w) ==> 0 <= w <= 16384,
        height matches Some(h) ==> 0 <= h <= 16384,
    ensures
        crate::jpegdec::state::format_fits(width, height),
{
    let w = crate::enc::format::aligned(crate::jpegdec::state::side(width, 1920));
    let h = crate::enc::format::aligned(crate::jpegdec::state::side(height, 1080));
    assert(w * h * 2 <= 16384 * 16384 * 2) by (nonlinear_arith)
        requires
            0 <= w <= 16384,
            0 <= h <= 16384,
    ;
}

/// Announcing a picture, from the first call to the last: the output is prepared for exactly the size, negotiated
/// where that worked, and the picture goes on as it was, either way.
pub proof fn law_picture_is_announced(width: u32, height: u32, picture: Picture, replies: Seq<Reply>)
    requires
        replies.len() >= 2,
    ensures
        ({
            let script = AnnouncePicture { script: NegotiateOutput::Begin { width, height }, picture };
            let run = crate::script::run(script, (), replies);
            &&& crate::trace::calls_of(run.log) == seq![Call::SetPictureState { width, height }]
                + crate::trace::only_if(replies[1].ret == MPP_OK, Call::Negotiate)
            &&& run.out == Some(picture)
        }),
{
    broadcast use crate::trace::group_calls;

    reveal_with_fuel(crate::script::run, 3);
}

/// Copying a picture out, from the first call to the last: it is copied from its buffer by the four numbers that
/// the decoder keeps, and its frame is given back. What the copy gave is handed on; without a buffer or a
/// copy there is nothing to hand on, which is no error. The decoder stays as it is.
pub proof fn law_picture_is_copied(picture: Picture, state: DecoderState, replies: Seq<Reply>)
    requires
        replies.len() >= 2,
    ensures
        ({
            let run = crate::script::run(JpegDeliver::Begin { picture }, state, replies);
            let copied = replies[1].handle;
            let nothing = Some(Entry::<FinishPicture>::Answer(Flow::Success));
            &&& crate::trace::calls_of(run.log) == crate::trace::only_if(
                picture.buffer != NULL,
                Call::CopyDecoded { buffer: picture.buffer, geometry: state.geometry },
            ) + seq![Call::FrameDeinit(picture.frame)]
            &&& run.out == if picture.buffer == NULL || copied == NULL {
                nothing
            } else {
                Some(Entry::Run(FinishPicture::Begin { buffer: copied }))
            }
            &&& run.state == state
        }),
{
    broadcast use crate::trace::group_calls;

    reveal_with_fuel(crate::script::run, 3);
}

/// Handing a picture on, from the first call to the last: the frame that is being handled is given the buffer and
/// finished, and finishing it gives the answer.
pub proof fn law_picture_finishes_its_frame(buffer: GstBuffer, replies: Seq<Reply>)
    requires
        replies.len() >= 2,
    ensures
        ({
            let run = crate::script::run(FinishPicture::Begin { buffer }, (), replies);
            &&& crate::trace::calls_of(run.log) == seq![Call::SetFrameOutput(buffer), Call::FinishThisFrame]
            &&& run.out == Some(Flow::Downstream(replies[1].ret))
        }),
{
    broadcast use crate::trace::group_calls;

    reveal_with_fuel(crate::script::run, 3);
}

} // verus!

//! What the encoder asks of the hardware for a frame, call by call, and what follows from the replies.

use vstd::prelude::*;

use crate::call::{Call, Flow, Reply};
use crate::enc::frames::{AfterFrame, EncFinish, EncHandleFrame, PollPending, MAX_POLL_ATTEMPTS};
use crate::enc::state::{EncoderState, Slot};
use crate::mpp_ffi::{GstBuffer, Mpp, MppBuffer, MppFrame, MPP_FMT_YUV420SP, MPP_OK, NULL};
use crate::output::Deliver;
use crate::script::Event;

verus! {

/// Whether a packet was asked for and none came.
pub open spec fn asks_in_vain(event: Event, mpp: Mpp) -> bool {
    event.call == Call::EncodeGetPacket(mpp) && (event.reply matches Some(reply) && reply.handle == NULL)
}

/// Whether the log begins with `j` requests for a packet in vain and then with one that brings a packet:
/// `frame` is released, what the packet holds is copied into `buffer` (for a packet without data that
/// is an empty buffer), and the packet is given back.
pub open spec fn fetches_packet(log: Seq<Event>, j: int, mpp: Mpp, frame: MppFrame, buffer: GstBuffer) -> bool {
    &&& 0 <= j && j + 5 <= log.len()
    &&& forall|i: int| 0 <= i < j ==> asks_in_vain(#[trigger] log[i], mpp)
    &&& log[j].call == Call::EncodeGetPacket(mpp)
    &&& log[j].reply matches Some(got) && got.handle != NULL && log[j + 2].call == Call::PacketInspect(got.handle)
        && log[j + 4].call == Call::PacketDeinit(got.handle)
    &&& log[j + 1].call == Call::FrameDeinit(frame)
    &&& log[j + 2].reply matches Some(packet) && log[j + 3].call == if packet.handle != NULL && packet.size > 0 {
        Call::CopyPacket { buffer: packet.handle, length: packet.size }
    } else {
        Call::NewEmptyBuffer
    }
    &&& log[j + 3].reply matches Some(copied) && copied.handle == buffer
}

/// Whether the log is `n` requests for a packet in vain and the release of `frame`.
pub open spec fn gives_up(log: Seq<Event>, n: int, mpp: Mpp, frame: MppFrame) -> bool {
    &&& log.len() == n + 1
    &&& forall|i: int| 0 <= i < n ==> asks_in_vain(#[trigger] log[i], mpp)
    &&& log[n].call == Call::FrameDeinit(frame)
}

/// The event of a request for a packet.
spec fn request(mpp: Mpp, reply: Reply) -> Seq<Event> {
    seq![Event { call: Call::EncodeGetPacket(mpp), reply: Some(reply) }]
}

/// How fetching a packet goes from a request on.
proof fn lemma_poll(attempts: u32, state: EncoderState, replies: Seq<Reply>) -> (j: int)
    requires
        1 <= attempts <= MAX_POLL_ATTEMPTS,
        crate::script::run(PollPending::Polled { attempts }, state, replies).out is Some,
    ensures
        ({
            let run = crate::script::run(PollPending::Polled { attempts }, state, replies);
            let log = request(state.mpp, replies[0]) + run.log;
            &&& run.state == EncoderState { in_flight_frame: NULL, ..state }
            &&& match run.out->0 {
                Ok(buffer) => {
                    &&& fetches_packet(log, j, state.mpp, state.in_flight_frame, buffer)
                    &&& j <= MAX_POLL_ATTEMPTS - attempts
                    &&& log.len() == j + 5
                },
                Err(flow) => {
                    &&& flow == Flow::Error
                    &&& gives_up(log, MAX_POLL_ATTEMPTS - attempts + 1, state.mpp, state.in_flight_frame)
                },
            }
        }),
    decreases replies.len(),
{
    let run = crate::script::run(PollPending::Polled { attempts }, state, replies);
    let log = request(state.mpp, replies[0]) + run.log;
    let rest = replies.skip(1);
    if replies[0].handle != NULL {
        let landed = EncoderState { in_flight_frame: NULL, ..state };
        let packet = replies[0].handle;
        let tail = crate::script::run(PollPending::Inspected { packet }, landed, rest);
        assert(tail.out is Some && rest.len() > 0);
        let last = crate::script::run(PollPending::Copied { packet }, landed, rest.skip(1));
        assert(last.out is Some && rest.skip(1).len() > 0);
        assert(last.log.len() == 1);
        assert(tail.log.len() == 2 && tail.log[0].reply == Some(rest[1]) && tail.log[1] == last.log[0]);
        assert(log[1].call == Call::FrameDeinit(state.in_flight_frame));
        assert(log[2].call == Call::PacketInspect(packet) && log[2].reply == Some(rest[0]));
        assert(log[3] == tail.log[0] && log[4] == tail.log[1]);
        0
    } else if attempts < MAX_POLL_ATTEMPTS {
        let next = (attempts + 1) as u32;
        let tail = crate::script::run(PollPending::Polled { attempts: next }, state, rest);
        assert(tail.out is Some && rest.len() > 0);
        let j = lemma_poll(next, state, rest);
        let again = request(state.mpp, rest[0]) + tail.log;
        assert(run.log == again);
        assert forall|i: int| 0 < i < log.len() implies #[trigger] log[i] == again[i - 1] by {}
        j + 1
    } else {
        0
    }
}

/// Fetching the pending packet asks for it up to five times. The packet that comes is copied, byte for
/// byte of what it says of itself, into the buffer that is the result, and is given back; the frame in
/// flight is released. Where none comes, the frame is released too, and the answer is an error.
pub proof fn law_pending_packet_is_fetched(state: EncoderState, replies: Seq<Reply>) -> (j: int)
    requires
        crate::script::run(PollPending::Begin, state, replies).out is Some,
    ensures
        ({
            let run = crate::script::run(PollPending::Begin, state, replies);
            let frame = state.in_flight_frame;
            if state.api.encode_get_packet {
                &&& run.state == EncoderState { in_flight_frame: NULL, ..state }
                &&& match run.out->0 {
                    Ok(buffer) => {
                        &&& fetches_packet(run.log, j, state.mpp, frame, buffer)
                        &&& j < MAX_POLL_ATTEMPTS
                        &&& run.log.len() == j + 5
                    },
                    Err(flow) => {
                        &&& flow == Flow::Error
                        &&& gives_up(run.log, MAX_POLL_ATTEMPTS as int, state.mpp, frame)
                    },
                }
            } else {
                &&& run.state == state
                &&& run.log.len() == 0
                &&& run.out == Some(Err::<GstBuffer, Flow>(Flow::Error))
            }
        }),
{
    let run = crate::script::run(PollPending::Begin, state, replies);
    if state.api.encode_get_packet {
        let rest = replies.skip(1);
        let tail = crate::script::run(PollPending::Polled { attempts: 1 }, state, rest);
        assert(tail.out is Some && rest.len() > 0);
        let j = lemma_poll(1, state, rest);
        assert(run.log == request(state.mpp, rest[0]) + tail.log);
        j
    } else {
        0
    }
}

proof fn lemma_finish_follows_poll(script: PollPending, state: EncoderState, replies: Seq<Reply>)
    ensures
        ({
            let run = crate::script::run(EncFinish::Pending { script }, state, replies);
            let poll = crate::script::run(script, state, replies);
            &&& run.log == poll.log
            &&& run.state == poll.state
            &&& run.out == match poll.out {
                None => None,
                Some(Err(flow)) => Some(AfterFrame::Answer(flow)),
                Some(Ok(buffer)) => Some(
                    AfterFrame::Deliver(Deliver::Begin { buffer, missing: Flow::Success }),
                ),
            }
        }),
    decreases replies.len(),
{
    if replies.len() > 0 {
        match crate::script::Script::next(script, state, replies[0]) {
            (after, crate::script::SpecStep::Calls(_, script2)) => {
                lemma_finish_follows_poll(script2, after, replies.skip(1));
            },
            _ => {},
        }
    }
}

/// At the end of the stream the packet of the frame in flight goes downstream: the result is a delivery
/// of exactly the buffer that the packet was copied into, and nothing is dropped. Without a frame in
/// flight nothing happens. Where the packet does not come, the answer is an error. Either way no frame
/// is in flight afterwards, and nothing else of the encoder changes.
pub proof fn law_finish_delivers_the_last_packet(state: EncoderState, replies: Seq<Reply>) -> (j: int)
    requires
        crate::script::run(EncFinish::Begin, state, replies).out is Some,
    ensures
        ({
            let run = crate::script::run(EncFinish::Begin, state, replies);
            let frame = state.in_flight_frame;
            &&& forall|i: int| 0 <= i < run.log.len() ==> !((#[trigger] run.log[i]).call is DropBuffer)
            &&& if frame == NULL {
                &&& run.log.len() == 0
                &&& run.state == state
                &&& run.out == Some(AfterFrame::Answer(Flow::Success))
            } else if !state.api.encode_get_packet {
                &&& run.log.len() == 0
                &&& run.state == state
                &&& run.out == Some(AfterFrame::Answer(Flow::Error))
            } else {
                &&& run.state == EncoderState { in_flight_frame: NULL, ..state }
                &&& match run.out->0 {
                    AfterFrame::Deliver(Deliver::Begin { buffer, missing }) => {
                        &&& missing == Flow::Success
                        &&& fetches_packet(run.log, j, state.mpp, frame, buffer)
                        &&& j < MAX_POLL_ATTEMPTS
                        &&& run.log.len() == j + 5
                    },
                    AfterFrame::Answer(flow) => {
                        &&& flow == Flow::Error
                        &&& gives_up(run.log, MAX_POLL_ATTEMPTS as int, state.mpp, frame)
                    },
                    _ => false,
                }
            }
        }),
{
    let run = crate::script::run(EncFinish::Begin, state, replies);
    if state.in_flight_frame == NULL || !state.api.encode_get_packet {
        0
    } else {
        let rest = replies.skip(1);
        let polled = PollPending::Polled { attempts: 1 };
        let poll = crate::script::run(PollPending::Begin, state, replies);
        lemma_finish_follows_poll(polled, state, rest);
        assert(run.log == poll.log && run.state == poll.state);
        let j = law_pending_packet_is_fetched(state, replies);
        assert forall|i: int| 0 <= i < run.log.len() implies !((#[trigger] run.log[i]).call is DropBuffer) by {
            if i < j && poll.out->0 is Ok {
            } else {
                assert(i == j || i == j + 1 || i == j + 2 || i == j + 3 || i == j + 4 || poll.out->0 is Err);
            }
        }
        j
    }
}

/// The input buffer whose turn it is.
pub open spec fn current_buffer(state: EncoderState) -> MppBuffer {
    match state.slot {
        Slot::First => state.input_bufs.first,
        Slot::Second => state.input_bufs.second,
    }
}

/// Whether from `a` on a frame is made of the input: the input is asked for and is there, it is copied
/// into the buffer whose turn it is, by the encoder's geometry, and a frame is made. The frame is given
/// that geometry, the pixel format, that buffer, no end-of-stream mark, and its time stamp if it has one.
pub open spec fn makes_frame(log: Seq<Event>, a: int, state: EncoderState, pts: Option<i64>, frame: MppFrame) -> bool {
    let g = state.geometry;
    &&& 0 <= a && a + 10 <= log.len()
    &&& log[a].call == Call::InputBuffer
    &&& log[a].reply matches Some(input) && input.handle != NULL && log[a + 1].call == (Call::CopyInput {
        input: input.handle,
        target: current_buffer(state),
        geometry: g,
    })
    &&& crate::trace::worked(log[a + 1])
    &&& log[a + 2].call == Call::FrameInit && crate::trace::worked(log[a + 2])
    &&& log[a + 2].reply matches Some(made) && made.handle == frame
    &&& log[a + 3].call == (Call::FrameSetWidth { frame, width: g.width })
    &&& log[a + 4].call == (Call::FrameSetHeight { frame, height: g.height })
    &&& log[a + 5].call == (Call::FrameSetHorStride { frame, stride: g.hor_stride })
    &&& log[a + 6].call == (Call::FrameSetVerStride { frame, stride: g.ver_stride })
    &&& log[a + 7].call == (Call::FrameSetFmt { frame, fmt: MPP_FMT_YUV420SP })
    &&& log[a + 8].call == (Call::FrameSetBuffer { frame, buffer: current_buffer(state) })
    &&& log[a + 9].call == (Call::FrameSetEos { frame, eos: 0 })
    &&& pts matches Some(pts) ==> a + 11 <= log.len() && log[a + 10].call == (Call::FrameSetPts { frame, pts })
}

/// Where the calls that fill a frame in end, when the input was asked for at `a`.
pub open spec fn filled(a: int, pts: Option<i64>) -> int {
    if pts is Some {
        a + 11
    } else {
        a + 10
    }
}

/// Whether the log ends with dropping this buffer, where there is one, at `n`.
pub open spec fn drops(log: Seq<Event>, n: int, buffer: Option<GstBuffer>) -> bool {
    match buffer {
        Some(buffer) => log.len() == n + 1 && log[n].call == Call::DropBuffer(buffer),
        None => log.len() == n,
    }
}

/// How it goes on once the input was asked for at `a`, with the buffer of the frame before at hand: the
/// frame is made and submitted, and the buffer goes downstream; or one of the calls fails, which is an
/// error. Then what was made is released, and the buffer is dropped.
pub open spec fn goes_on_from(
    log: Seq<Event>,
    a: int,
    state: EncoderState,
    pts: Option<i64>,
    previous: Option<GstBuffer>,
    after: EncoderState,
    out: AfterFrame,
) -> bool {
    let end = filled(a, pts);
    let error = out == AfterFrame::Answer(Flow::Error) && after == state;
    &&& 0 <= a < log.len()
    &&& log[a].call == Call::InputBuffer
    &&& log[a].reply matches Some(input) && if input.handle == NULL {
        error && drops(log, a + 1, previous)
    } else {
        &&& a + 2 <= log.len()
        &&& log[a + 1].call == (Call::CopyInput {
            input: input.handle,
            target: current_buffer(state),
            geometry: state.geometry,
        })
        &&& if !crate::trace::worked(log[a + 1]) {
            error && drops(log, a + 2, previous)
        } else {
            &&& a + 3 <= log.len()
            &&& log[a + 2].call == Call::FrameInit
            &&& log[a + 2].reply matches Some(made) && if made.ret != MPP_OK {
                error && drops(log, a + 3, previous)
            } else {
                let frame = made.handle;
                &&& makes_frame(log, a, state, pts, frame)
                &&& if !state.api.encode_put_frame {
                    error && log[end].call == Call::FrameDeinit(frame) && drops(log, end + 1, previous)
                } else {
                    &&& log.len() > end
                    &&& log[end].call == (Call::EncodePutFrame { mpp: state.mpp, frame })
                    &&& if !crate::trace::worked(log[end]) {
                        error && log[end + 1].call == Call::FrameDeinit(frame) && drops(log, end + 2, previous)
                    } else {
                        &&& log.len() == end + 1
                        &&& after == EncoderState {
                            in_flight_frame: frame,
                            slot: match state.slot {
                                Slot::First => Slot::Second,
                                Slot::Second => Slot::First,
                            },
                            ..state
                        }
                        &&& out == match previous {
                            Some(buffer) => AfterFrame::Deliver(Deliver::Begin { buffer, missing: Flow::Error }),
                            None => AfterFrame::Answer(Flow::Success),
                        }
                    }
                }
            }
        }
    }
}

/// The event of asking for the input.
spec fn input_asked(reply: Reply) -> Seq<Event> {
    seq![Event { call: Call::InputBuffer, reply: Some(reply) }]
}

#[verifier::rlimit(60)]
proof fn lemma_goes_on(
    pts: Option<i64>,
    previous: Option<GstBuffer>,
    state: EncoderState,
    replies: Seq<Reply>,
)
    requires
        crate::script::run(EncHandleFrame::Input { pts, previous }, state, replies).out is Some,
    ensures
        ({
            let run = crate::script::run(EncHandleFrame::Input { pts, previous }, state, replies);
            goes_on_from(input_asked(replies[0]) + run.log, 0, state, pts, previous, run.state, run.out->0)
        }),
{
    let run = crate::script::run(EncHandleFrame::Input { pts, previous }, state, replies);
    let log = input_asked(replies[0]) + run.log;
    let r1 = replies.skip(1);
    let r2 = r1.skip(1);
    let r3 = r2.skip(1);
    if replies[0].handle != NULL {
        let copied = crate::script::run(EncHandleFrame::Copied { pts, previous }, state, r1);
        assert(copied.out is Some && r1.len() > 0);
        assert(log[1].reply == Some(r1[0]));
        if r1[0].ret == MPP_OK {
            let made = crate::script::run(EncHandleFrame::Frame { pts, previous }, state, r2);
            assert(made.out is Some && r2.len() > 0);
            assert(copied.log[0] == Event { call: Call::FrameInit, reply: Some(r2[0]) });
            assert(log[2] == copied.log[0]);
            if r2[0].ret == MPP_OK {
                let frame = r2[0].handle;
                if state.api.encode_put_frame {
                    let put = crate::script::run(EncHandleFrame::Submitted { frame, previous }, state, r3);
                    assert(put.out is Some && r3.len() > 0);
                    assert(run.log == run.log.take(2) + made.log);
                    let end = filled(0, pts);
                    assert(made.log[end - 3].call == (Call::EncodePutFrame { mpp: state.mpp, frame }));
                    assert(made.log[end - 3].reply == Some(r3[0]));
                    assert(made.log.len() == end - 2 + put.log.len());
                    assert forall|i: int| 3 <= i < log.len() implies #[trigger] log[i] == made.log[i - 3] by {}
                    assert forall|i: int| 0 <= i < put.log.len() implies #[trigger] made.log[end - 2 + i] == put.log[i] by {}
                } else {
                    assert forall|i: int| 3 <= i < log.len() implies #[trigger] log[i] == made.log[i - 3] by {}
                }
            }
        }
    }
}

/// What the frame before left: how fetching its packet went from `script` on, and after how many replies
/// the input is asked for.
#[verifier::rlimit(60)]
proof fn lemma_handle_follows_poll(pts: Option<i64>, script: PollPending, state: EncoderState, replies: Seq<Reply>) -> (m:
    int)
    requires
        crate::script::run(EncHandleFrame::Pending { pts, script }, state, replies).out is Some,
    ensures
        ({
            let run = crate::script::run(EncHandleFrame::Pending { pts, script }, state, replies);
            let poll = crate::script::run(script, state, replies);
            &&& poll.out is Some
            &&& match poll.out->0 {
                Err(flow) => {
                    &&& run.out == Some(AfterFrame::Answer(flow))
                    &&& run.log == poll.log
                    &&& run.state == poll.state
                },
                Ok(buffer) => {
                    let rest = replies.skip(m);
                    let tail = crate::script::run(
                        EncHandleFrame::Input { pts, previous: Some(buffer) },
                        poll.state,
                        rest,
                    );
                    &&& 0 <= m < replies.len()
                    &&& tail.out is Some
                    &&& run.log == poll.log + (input_asked(rest[0]) + tail.log)
                    &&& run.out == tail.out
                    &&& run.state == tail.state
                },
            }
        }),
    decreases replies.len(),
{
    let run = crate::script::run(EncHandleFrame::Pending { pts, script }, state, replies);
    let poll = crate::script::run(script, state, replies);
    let rest = replies.skip(1);
    match crate::script::Script::next(script, state, replies[0]) {
        (after, crate::script::SpecStep::Calls(calls, script2)) => {
            assert(crate::script::run(EncHandleFrame::Pending { pts, script: script2 }, after, rest).out is Some);
            assert(rest.len() > 0);
            let m = lemma_handle_follows_poll(pts, script2, after, rest);
            let head = crate::script::events(calls, Some(rest[0]));
            let poll2 = crate::script::run(script2, after, rest);
            match poll2.out->0 {
                Err(_) => {},
                Ok(buffer) => {
                    assert(rest.skip(m) =~= replies.skip(m + 1));
                    let tail = crate::script::run(
                        EncHandleFrame::Input { pts, previous: Some(buffer) },
                        poll2.state,
                        rest.skip(m),
                    );
                    let more = input_asked(rest.skip(m)[0]) + tail.log;
                    assert(head + (poll2.log + more) =~= (head + poll2.log) + more);
                },
            }
            m + 1
        },
        (after, crate::script::SpecStep::Done(calls, out)) => {
            match out {
                Err(_) => {},
                Ok(buffer) => {
                    let tail = crate::script::run(
                        EncHandleFrame::Input { pts, previous: Some(buffer) },
                        after,
                        rest,
                    );
                    assert(tail.out is Some && rest.len() > 0);
                    let joined = crate::script::events(calls + seq![Call::InputBuffer], Some(rest[0]));
                    assert(joined =~= crate::script::events(calls, None) + input_asked(rest[0]));
                    assert(run.log =~= poll.log + (input_asked(rest[0]) + tail.log));
                },
            }
            1
        },
    }
}

/// Where in the log of taking a frame the input is asked for, if at all, and after how many requests the
/// packet of the frame before came.
pub ghost struct FrameTrace {
    pub requests: int,
    pub input: int,
}

/// Taking a frame, from its first call to its last. Where a frame is in flight its packet is fetched
/// first; where that fails, the answer is an error and the frame is given up. Then the input is asked
/// for, once, and copied, once, into the buffer whose turn it is; a frame is made of that buffer and
/// submitted; the buffer of the frame before goes downstream. Nothing is submitted that was not copied
/// from the input, and nothing is refused unless one of the calls failed or cannot be made.
#[verifier::rlimit(60)]
pub proof fn law_frame_is_made_of_the_input(pts: Option<i64>, state: EncoderState, replies: Seq<Reply>) -> (t: FrameTrace)
    requires
        crate::script::run(EncHandleFrame::Begin { pts }, state, replies).out is Some,
    ensures
        ({
            let run = crate::script::run(EncHandleFrame::Begin { pts }, state, replies);
            let out = run.out->0;
            let frame = state.in_flight_frame;
            let landed = EncoderState { in_flight_frame: NULL, ..state };
            if frame == NULL {
                &&& t.input == 0
                &&& goes_on_from(run.log, 0, state, pts, None, run.state, out)
            } else if !state.api.encode_get_packet {
                &&& run.log.len() == 0
                &&& out == AfterFrame::Answer(Flow::Error)
                &&& run.state == state
            } else {
                ||| gives_up(run.log, MAX_POLL_ATTEMPTS as int, state.mpp, frame) && out == AfterFrame::Answer(Flow::Error)
                    && run.state == landed
                ||| {
                    &&& 0 <= t.requests < MAX_POLL_ATTEMPTS
                    &&& t.input == t.requests + 5
                    &&& run.log[t.requests + 3].reply matches Some(copied) && {
                        &&& fetches_packet(run.log, t.requests, state.mpp, frame, copied.handle)
                        &&& goes_on_from(run.log, t.input, landed, pts, Some(copied.handle), run.state, out)
                    }
                }
            }
        }),
{
    let run = crate::script::run(EncHandleFrame::Begin { pts }, state, replies);
    let rest = replies.skip(1);
    if state.in_flight_frame == NULL {
        let tail = crate::script::run(EncHandleFrame::Input { pts, previous: None }, state, rest);
        assert(tail.out is Some && rest.len() > 0);
        lemma_goes_on(pts, None, state, rest);
        assert(run.log =~= input_asked(rest[0]) + tail.log);
        FrameTrace { requests: 0, input: 0 }
    } else if !state.api.encode_get_packet {
        FrameTrace { requests: 0, input: 0 }
    } else {
        let polled = PollPending::Polled { attempts: 1 };
        let tail = crate::script::run(EncHandleFrame::Pending { pts, script: polled }, state, rest);
        assert(tail.out is Some && rest.len() > 0);
        let m = lemma_handle_follows_poll(pts, polled, state, rest);
        let poll = crate::script::run(polled, state, rest);
        let whole = crate::script::run(PollPending::Begin, state, replies);
        let asked = crate::script::events(seq![Call::EncodeGetPacket(state.mpp)], Some(rest[0]));
        assert(whole.log == asked + poll.log && whole.out == poll.out && whole.state == poll.state);
        assert(run.log == asked + tail.log);
        let j = law_pending_packet_is_fetched(state, replies);
        match poll.out->0 {
            Err(_) => {},
            Ok(buffer) => {
                let later = rest.skip(m);
                lemma_goes_on(pts, Some(buffer), poll.state, later);
                let input = crate::script::run(
                    EncHandleFrame::Input { pts, previous: Some(buffer) },
                    poll.state,
                    later,
                );
                let more = input_asked(later[0]) + input.log;
                assert(asked + (poll.log + more) =~= whole.log + more);
                lemma_fetch_stays(whole.log, more, j, state.mpp, state.in_flight_frame, buffer);
                lemma_goes_on_later(whole.log, more, poll.state, pts, Some(buffer), run.state, run.out->0);
            },
        }
        FrameTrace { requests: j, input: j + 5 }
    }
}

proof fn lemma_fetch_stays(log: Seq<Event>, more: Seq<Event>, j: int, mpp: Mpp, frame: MppFrame, buffer: GstBuffer)
    requires
        fetches_packet(log, j, mpp, frame, buffer),
    ensures
        fetches_packet(log + more, j, mpp, frame, buffer),
{
    let whole = log + more;
    assert forall|i: int| 0 <= i < log.len() implies #[trigger] whole[i] == log[i] by {}
}

proof fn lemma_goes_on_later(
    before: Seq<Event>,
    log: Seq<Event>,
    state: EncoderState,
    pts: Option<i64>,
    previous: Option<GstBuffer>,
    after: EncoderState,
    out: AfterFrame,
)
    requires
        goes_on_from(log, 0, state, pts, previous, after, out),
    ensures
        goes_on_from(before + log, before.len() as int, state, pts, previous, after, out),
{
    let whole = before + log;
    let a = before.len() as int;
    assert forall|i: int| 0 <= i < log.len() implies #[trigger] log[i] == whole[a + i] by {}
}

/// A frame that is submitted shows the picture that was handed in: the log holds exactly one copy of an input,
/// it copies what asking for the input gave into the buffer whose turn it is, and it stands before the only
/// submission, which is that of a frame over the same buffer.
#[verifier::rlimit(60)]
pub proof fn law_submission_shows_the_input(pts: Option<i64>, state: EncoderState, replies: Seq<Reply>) -> (c: int)
    requires
        crate::script::run(EncHandleFrame::Begin { pts }, state, replies).out matches Some(out) && (out is Deliver || out
            == AfterFrame::Answer(Flow::Success)),
    ensures
        ({
            let run = crate::script::run(EncHandleFrame::Begin { pts }, state, replies);
            let log = run.log;
            let last = log.len() - 1;
            &&& 0 < c < last
            &&& log[c - 1].call == Call::InputBuffer
            &&& log[c - 1].reply matches Some(input) && log[c].call == (Call::CopyInput {
                input: input.handle,
                target: current_buffer(state),
                geometry: state.geometry,
            })
            &&& crate::trace::worked(log[c])
            &&& forall|i: int| 0 <= i < log.len() && (#[trigger] log[i]).call is CopyInput ==> i == c
            &&& log[last].call == (Call::EncodePutFrame { mpp: state.mpp, frame: run.state.in_flight_frame })
            &&& crate::trace::worked(log[last])
            &&& forall|i: int| 0 <= i < log.len() && (#[trigger] log[i]).call is EncodePutFrame ==> i == last
            &&& log[c + 7].call == (Call::FrameSetBuffer {
                frame: run.state.in_flight_frame,
                buffer: current_buffer(state),
            })
        }),
{
    let run = crate::script::run(EncHandleFrame::Begin { pts }, state, replies);
    let log = run.log;
    let t = law_frame_is_made_of_the_input(pts, state, replies);
    let a = t.input;
    let end = filled(a, pts);
    assert forall|i: int| 0 <= i < log.len() implies ((#[trigger] log[i]).call is CopyInput ==> i == a + 1) && (
    log[i].call is EncodePutFrame ==> i == end) by {
        if i < a {
            let j = t.requests;
            assert(i < j || i == j || i == j + 1 || i == j + 2 || i == j + 3 || i == j + 4);
        } else {
            assert(i == a || i == a + 1 || i == a + 2 || i == a + 3 || i == a + 4 || i == a + 5 || i == a + 6 || i == a
                + 7 || i == a + 8 || i == a + 9 || i == a + 10 || i == end);
        }
    }
    a + 1
}

} // verus!

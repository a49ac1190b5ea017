//! What the decoder asks of the hardware, call by call, and what follows from the replies.

use vstd::prelude::*;

use crate::call::{Call, Flow, FrameResult, Geometry, PacketData, Param, Reply};
use crate::dec::frames::{Drain, PollDecoded, SendEos, SubmitPacket, TryGetFrame, DRAIN_TIME, MAX_RETRIES, RETRY_DELAY};
use crate::dec::state::{
    CreateError, DecSetFormat, DecStart, DecTeardown, DecoderState, SetFormatError, StreamCaps, OUTPUT_TIMEOUT,
    TEARDOWN_POLLS,
};
use crate::mpp_ffi::{
    FrameInfo, Mpp, MppPacket, MPP_CTX_DEC, MPP_DEC_SET_DISABLE_ERROR, MPP_DEC_SET_INFO_CHANGE_READY,
    MPP_DEC_SET_PARSER_FAST_MODE, MPP_DEC_SET_PARSER_SPLIT_MODE, MPP_OK, MPP_SET_OUTPUT_TIMEOUT,
    MPP_VIDEO_CodingAVC, MPP_VIDEO_CodingHEVC, MPP_VIDEO_CodingUnused, NULL,
};
use crate::output::Entry;
use crate::script::Event;

verus! {

/// Whether the geometry is, number by number, what a frame says of itself.
pub open spec fn is_that_of(g: Geometry, info: FrameInfo) -> bool {
    &&& g.width == info.width
    &&& g.height == info.height
    &&& g.hor_stride == info.hor_stride
    &&& g.ver_stride == info.ver_stride
}

/// Fetching a frame, from its first call to its last. What comes is inspected. The end of the stream, a
/// damaged frame and one without a buffer are given back and bring no picture. A frame that reports a
/// change makes the decoder take over the four numbers that the frame says of itself; the change is
/// acknowledged where commands can be given, the frame is given back, and the size is announced. A good
/// frame does the same while no size is known. It is then copied by the four numbers that the decoder
/// keeps, and given back; what the copy gave is the picture.
pub proof fn law_frame_is_copied_by_its_numbers(state: DecoderState, replies: Seq<Reply>)
    requires
        replies.len() >= 4,
    ensures
        ({
            let run = crate::script::run(TryGetFrame::Begin, state, replies);
            let made = crate::trace::calls_of(run.log);
            let (got, seen, copied) = (replies[1], replies[2], replies[3]);
            let info = seen.info;
            let frame = got.handle;
            let head = seq![Call::DecodeGetFrame(state.mpp), Call::FrameInspect(frame)];
            let back = seq![Call::FrameDeinit(frame)];
            let announce = Call::NegotiateOutput { width: info.width, height: info.height };
            let ready = Call::Control {
                mpp: state.mpp,
                cmd: MPP_DEC_SET_INFO_CHANGE_READY,
                param: Param::Null,
            };
            &&& (run.state.mpp, run.state.api, run.state.codec) == (state.mpp, state.api, state.codec)
            &&& if got.ret != MPP_OK || frame == NULL {
                &&& made == seq![Call::DecodeGetFrame(state.mpp)]
                &&& run.out == Some(FrameResult::TryAgain)
                &&& run.state == state
            } else if info.eos != 0 {
                &&& made == head + back
                &&& run.out == Some(FrameResult::Eos)
                &&& run.state == state
            } else if info.info_change != 0 {
                &&& made == head + crate::trace::only_if(state.api.control, ready) + back + seq![announce]
                &&& run.out == Some(FrameResult::Skip)
                &&& is_that_of(run.state.geometry, info)
                &&& run.state.negotiated
            } else if info.errinfo != 0 || info.discard != 0 || info.buffer == NULL {
                &&& made == head + back
                &&& run.out == Some(FrameResult::Skip)
                &&& run.state == state
            } else {
                &&& run.state.negotiated
                &&& if state.negotiated {
                    run.state.geometry == state.geometry
                } else {
                    is_that_of(run.state.geometry, info)
                }
                &&& made == head + crate::trace::only_if(!state.negotiated, announce) + seq![
                    Call::CopyDecoded { buffer: info.buffer, geometry: run.state.geometry },
                ] + back
                &&& run.out == Some(
                    if copied.handle == NULL {
                        FrameResult::Skip
                    } else {
                        FrameResult::Frame(copied.handle)
                    },
                )
            }
        }),
{
    broadcast use crate::trace::group_calls;

    reveal_with_fuel(crate::script::run, 5);
    assert(replies.skip(1).skip(1)[0] == replies[2]);
    assert(replies.skip(1).skip(1).skip(1)[0] == replies[3]);
}

/// Whether the log offers a packet until it is accepted, up to `left` times, with a short rest before each
/// further time, and then gives the packet back.
pub open spec fn offers_packet(log: Seq<Event>, left: nat, mpp: Mpp, packet: MppPacket, accepted: bool) -> bool
    decreases left,
{
    &&& left > 0
    &&& log.len() >= 2
    &&& log[0].call == (Call::DecodePutPacket { mpp, packet })
    &&& if crate::trace::worked(log[0]) {
        accepted && log.len() == 2 && log[1].call == Call::PacketDeinit(packet)
    } else if left == 1 {
        !accepted && log.len() == 2 && log[1].call == Call::PacketDeinit(packet)
    } else {
        &&& log[1].call == Call::SleepMillis(RETRY_DELAY)
        &&& offers_packet(log.skip(2), (left - 1) as nat, mpp, packet, accepted)
    }
}

proof fn lemma_offers(packet: MppPacket, retries: u32, state: DecoderState, replies: Seq<Reply>)
    requires
        retries <= MAX_RETRIES,
        crate::script::run(SubmitPacket::Offered { packet, retries }, state, replies).out is Some,
    ensures
        ({
            let run = crate::script::run(SubmitPacket::Offered { packet, retries }, state, replies);
            let offered = seq![Event { call: Call::DecodePutPacket { mpp: state.mpp, packet }, reply: Some(replies[0]) }];
            let left = (MAX_RETRIES - retries + 1) as nat;
            &&& offers_packet(offered + run.log, left, state.mpp, packet, run.out->0 is Run)
            &&& run.out->0 is Answer ==> run.out->0 == Entry::<PollDecoded>::Answer(Flow::Error)
            &&& run.out->0 is Run ==> run.out->0 == Entry::Run(PollDecoded::Begin)
            &&& run.state == state
        }),
    decreases replies.len(),
{
    let run = crate::script::run(SubmitPacket::Offered { packet, retries }, state, replies);
    let offered = seq![Event { call: Call::DecodePutPacket { mpp: state.mpp, packet }, reply: Some(replies[0]) }];
    let log = offered + run.log;
    assert(log[0] == offered[0]);
    if replies[0].ret != MPP_OK && retries < MAX_RETRIES {
        let rest = replies.skip(1);
        let next = (retries + 1) as u32;
        let tail = crate::script::run(SubmitPacket::Offered { packet, retries: next }, state, rest);
        assert(tail.out is Some && rest.len() > 0);
        lemma_offers(packet, next, state, rest);
        let again = seq![Event { call: Call::DecodePutPacket { mpp: state.mpp, packet }, reply: Some(rest[0]) }];
        assert(log.skip(2) =~= again + tail.log);
        assert(log[1] == run.log[0]);
    } else {
        assert(log[1] == run.log[0]);
    }
}

/// Submitting a packet, from its first call to its last. The input is mapped, a packet is made of it and
/// stamped, and offered until the decoder accepts it, a thousand times more at most; then the packet is
/// given back. It is an error where the input cannot be mapped, no packet is made, or none is accepted.
pub proof fn law_input_is_offered(pts: Option<i64>, state: DecoderState, replies: Seq<Reply>)
    requires
        crate::script::run(SubmitPacket::Begin { pts }, state, replies).out is Some,
    ensures
        ({
            let run = crate::script::run(SubmitPacket::Begin { pts }, state, replies);
            let log = run.log;
            let error = run.out == Some(Entry::<PollDecoded>::Answer(Flow::Error));
            let packet = replies[2].handle;
            let n: int = if pts is Some {
                3
            } else {
                2
            };
            &&& log[0].call == Call::MapInput
            &&& if replies[1].ret != MPP_OK {
                error && log.len() == 1
            } else {
                &&& log[1].call == Call::PacketInit(PacketData::Input)
                &&& if replies[2].ret != MPP_OK {
                    error && log.len() == 2
                } else {
                    &&& log.len() >= n
                    &&& pts matches Some(pts) ==> log[2].call == (Call::PacketSetPts { packet, pts })
                    &&& if !state.api.decode_put_packet {
                        error && log.len() == n
                    } else {
                        &&& offers_packet(log.skip(n), (1000 + 1) as nat, state.mpp, packet, run.out->0 is Run)
                        &&& run.out->0 is Answer ==> error
                        &&& run.out->0 is Run ==> run.out->0 == Entry::Run(PollDecoded::Begin)
                    }
                }
            }
        }),
{
    let run = crate::script::run(SubmitPacket::Begin { pts }, state, replies);
    let r1 = replies.skip(1);
    let r2 = r1.skip(1);
    let r3 = r2.skip(1);
    let mapped = crate::script::run(SubmitPacket::Mapped { pts }, state, r1);
    assert(mapped.out is Some && r1.len() > 0);
    assert(run.log =~= seq![Event { call: Call::MapInput, reply: Some(r1[0]) }] + mapped.log);
    if r1[0].ret == MPP_OK {
        let made = crate::script::run(SubmitPacket::Packet { pts }, state, r2);
        assert(made.out is Some && r2.len() > 0);
        assert(r2[0] == replies[2]);
        let init = seq![Event { call: Call::PacketInit(PacketData::Input), reply: Some(r2[0]) }];
        assert(mapped.log =~= init + made.log);
        assert(run.log[1] == mapped.log[0]);
        assert(run.log.skip(2) =~= made.log);
        if r2[0].ret == MPP_OK && state.api.decode_put_packet {
            let packet = r2[0].handle;
            let offer = crate::script::run(SubmitPacket::Offered { packet, retries: 0 }, state, r3);
            assert(offer.out is Some && r3.len() > 0);
            lemma_offers(packet, 0, state, r3);
            let offered = seq![Event { call: Call::DecodePutPacket { mpp: state.mpp, packet }, reply: Some(r3[0]) }];
            if pts is Some {
                assert(made.log.skip(1) =~= offered + offer.log);
                assert(run.log.skip(3) =~= made.log.skip(1));
                assert(run.log[2] == made.log[0]);
            } else {
                assert(made.log =~= offered + offer.log);
            }
        } else if r2[0].ret == MPP_OK && pts is Some {
            assert(run.log[2] == made.log[0]);
        }
    }
}

/// Whether the log fetches frame after frame and hands on each picture that comes, until none is ready or
/// the stream ends.
pub open spec fn hands_on_all(log: Seq<Event>) -> bool
    decreases log.len(),
{
    &&& log.len() > 0
    &&& log[0].call == Call::TryGetOneFrame
    &&& log[0].reply matches Some(tried) && match tried.frame {
        FrameResult::Frame(buffer) => {
            &&& log.len() >= 2
            &&& log[1].call == Call::FinishOneFrame(buffer)
            &&& hands_on_all(log.skip(2))
        },
        FrameResult::Skip => hands_on_all(log.skip(1)),
        FrameResult::TryAgain => log.len() == 1,
        FrameResult::Eos => log.len() == 1,
    }
}

proof fn lemma_polls(replies: Seq<Reply>)
    requires
        crate::script::run(PollDecoded::Tried, (), replies).out is Some,
    ensures
        ({
            let run = crate::script::run(PollDecoded::Tried, (), replies);
            let tried = seq![Event { call: Call::TryGetOneFrame, reply: Some(replies[0]) }];
            &&& hands_on_all(tried + run.log)
            &&& run.out == Some(Flow::Success)
        }),
    decreases replies.len(),
{
    let run = crate::script::run(PollDecoded::Tried, (), replies);
    let log = seq![Event { call: Call::TryGetOneFrame, reply: Some(replies[0]) }] + run.log;
    let rest = replies.skip(1);
    match replies[0].frame {
        FrameResult::Frame(buffer) => {
            assert(crate::script::run(PollDecoded::Tried, (), rest).out is Some && rest.len() > 0);
            lemma_polls(rest);
            let again = seq![Event { call: Call::TryGetOneFrame, reply: Some(rest[0]) }];
            assert(log.skip(2) =~= again + crate::script::run(PollDecoded::Tried, (), rest).log);
            assert(log[1] == run.log[0]);
        },
        FrameResult::Skip => {
            assert(crate::script::run(PollDecoded::Tried, (), rest).out is Some && rest.len() > 0);
            lemma_polls(rest);
            let again = seq![Event { call: Call::TryGetOneFrame, reply: Some(rest[0]) }];
            assert(log.skip(1) =~= again + crate::script::run(PollDecoded::Tried, (), rest).log);
        },
        _ => {},
    }
}

/// Polling, from its first call to its last: every picture that comes is handed on before the next frame is
/// fetched, frames without a picture are passed over, and it ends where no frame is ready or the stream
/// has ended. The answer is a good one.
pub proof fn law_polling_hands_on_in_order(replies: Seq<Reply>)
    requires
        crate::script::run(PollDecoded::Begin, (), replies).out is Some,
    ensures
        ({
            let run = crate::script::run(PollDecoded::Begin, (), replies);
            hands_on_all(run.log) && run.out == Some(Flow::Success)
        }),
{
    let rest = replies.skip(1);
    let tail = crate::script::run(PollDecoded::Tried, (), rest);
    assert(tail.out is Some && rest.len() > 0);
    lemma_polls(rest);
    let tried = seq![Event { call: Call::TryGetOneFrame, reply: Some(rest[0]) }];
    assert(crate::script::run(PollDecoded::Begin, (), replies).log =~= tried + tail.log);
}

/// Whether the log, which looks at the clock first, drains the decoder: it ends once five seconds have
/// passed since `start` or the stream has ended. Until then it fetches frame after frame and hands on
/// each picture that comes; where none is ready it rests a little. It looks at the clock before each.
pub open spec fn drains_from(log: Seq<Event>, start: u64) -> bool
    decreases log.len(),
{
    &&& log.len() > 0
    &&& log[0].call == Call::Now
    &&& log[0].reply matches Some(now) && if now.clock >= start + DRAIN_TIME {
        log.len() == 1
    } else {
        &&& log.len() >= 2
        &&& log[1].call == Call::TryGetOneFrame
        &&& log[1].reply matches Some(tried) && match tried.frame {
            FrameResult::Frame(buffer) => {
                &&& log.len() >= 3
                &&& log[2].call == Call::FinishOneFrame(buffer)
                &&& drains_from(log.skip(3), start)
            },
            FrameResult::TryAgain => {
                &&& log.len() >= 3
                &&& log[2].call == Call::SleepMillis(RETRY_DELAY)
                &&& drains_from(log.skip(3), start)
            },
            FrameResult::Skip => drains_from(log.skip(2), start),
            FrameResult::Eos => log.len() == 2,
        }
    }
}

proof fn lemma_drains_from(start: u64, replies: Seq<Reply>)
    requires
        crate::script::run(Drain::Clock { start }, (), replies).out is Some,
    ensures
        ({
            let run = crate::script::run(Drain::Clock { start }, (), replies);
            let now = seq![Event { call: Call::Now, reply: Some(replies[0]) }];
            &&& drains_from(now + run.log, start)
            &&& run.out == Some(Flow::Success)
        }),
    decreases replies.len(),
{
    let run = crate::script::run(Drain::Clock { start }, (), replies);
    let log = seq![Event { call: Call::Now, reply: Some(replies[0]) }] + run.log;
    let rest = replies.skip(1);
    if replies[0].clock < start + DRAIN_TIME {
        let tried = crate::script::run(Drain::Tried { start }, (), rest);
        assert(tried.out is Some && rest.len() > 0);
        assert(run.log =~= seq![Event { call: Call::TryGetOneFrame, reply: Some(rest[0]) }] + tried.log);
        assert(log[1] == run.log[0]);
        if !(rest[0].frame is Eos) {
            let more = rest.skip(1);
            let again = crate::script::run(Drain::Clock { start }, (), more);
            assert(again.out is Some && more.len() > 0);
            lemma_drains_from(start, more);
            let now = seq![Event { call: Call::Now, reply: Some(more[0]) }];
            if rest[0].frame is Skip {
                assert(log.skip(2) =~= now + again.log);
            } else {
                assert(log.skip(3) =~= now + again.log);
                assert(log[2] == tried.log[0]);
            }
        }
    }
}

/// Draining, from its first call to its last: see `drains_from`. The time counts from the first look at the
/// clock. The answer is a good one.
pub proof fn law_draining_hands_on_in_order(replies: Seq<Reply>)
    requires
        crate::script::run(Drain::Begin, (), replies).out is Some,
    ensures
        ({
            let run = crate::script::run(Drain::Begin, (), replies);
            &&& run.log.len() > 0
            &&& run.log[0].call == Call::Now
            &&& run.log[0].reply matches Some(start) && drains_from(run.log.skip(1), start.clock)
            &&& run.out == Some(Flow::Success)
        }),
{
    let run = crate::script::run(Drain::Begin, (), replies);
    let r1 = replies.skip(1);
    let r2 = r1.skip(1);
    let started = crate::script::run(Drain::Started, (), r1);
    assert(started.out is Some && r1.len() > 0);
    let start = r1[0].clock;
    let clock = crate::script::run(Drain::Clock { start }, (), r2);
    assert(clock.out is Some && r2.len() > 0);
    lemma_drains_from(start, r2);
    let now = seq![Event { call: Call::Now, reply: Some(r2[0]) }];
    assert(started.log =~= now + clock.log);
    assert(run.log.skip(1) =~= started.log);
}

/// The calls that end a stream, given what came of making an empty packet: it is marked, offered where that
/// can be done, and given back.
pub open spec fn ends_stream(mpp: Mpp, can_put: bool, packet: Reply) -> Seq<Call> {
    if packet.ret != MPP_OK {
        seq![]
    } else {
        seq![Call::PacketSetEos(packet.handle)] + crate::trace::only_if(
            can_put,
            Call::DecodePutPacket { mpp, packet: packet.handle },
        ) + seq![Call::PacketDeinit(packet.handle)]
    }
}

/// Telling the decoder of the end of the stream, from the first call to the last.
pub proof fn law_end_is_told(state: DecoderState, replies: Seq<Reply>)
    requires
        replies.len() >= 2,
    ensures
        ({
            let run = crate::script::run(SendEos::Begin, state, replies);
            &&& crate::trace::calls_of(run.log) == seq![Call::PacketInit(PacketData::Empty)] + ends_stream(
                state.mpp,
                state.api.decode_put_packet,
                replies[1],
            )
            &&& run.out == Some(Drain::Begin)
            &&& run.state == state
        }),
{
    broadcast use crate::trace::group_calls;

    reveal_with_fuel(crate::script::run, 3);
}

/// Starting the decoder makes a context and holds it as it came, without codec or size.
pub proof fn law_start_holds_the_context(replies: Seq<Reply>)
    requires
        replies.len() >= 2,
    ensures
        ({
            let run = crate::script::run(DecStart::Begin, (), replies);
            let created = replies[1];
            &&& crate::trace::calls_of(run.log) == seq![Call::Create]
            &&& run.out == Some(
                if created.ret != MPP_OK {
                    Err::<DecoderState, CreateError>(CreateError)
                } else {
                    Ok(
                        DecoderState {
                            mpp: Mpp { ctx: created.handle, mpi: created.mpi },
                            api: created.api,
                            codec: MPP_VIDEO_CodingUnused,
                            negotiated: false,
                            geometry: Geometry { width: 0, height: 0, hor_stride: 0, ver_stride: 0 },
                        },
                    )
                },
            )
        }),
{
    broadcast use crate::trace::group_calls;

    reveal_with_fuel(crate::script::run, 3);
}

/// Setting the decoder up for a codec, from the first call to the last: the parser modes are switched on,
/// the context is set up for the codec, then errors are let pass and the timeout is set; all but the
/// second only where commands can be given. Where the context cannot be set up, nothing changes.
pub proof fn law_codec_is_set_up(codec: i32, state: DecoderState, replies: Seq<Reply>)
    requires
        replies.len() >= 2,
    ensures
        ({
            let run = crate::script::run(DecSetFormat::Begin { codec }, state, replies);
            let mpp = state.mpp;
            let control = |cmd: u32, param: Param| crate::trace::only_if(
                state.api.control,
                Call::Control { mpp, cmd, param },
            );
            let start = control(MPP_DEC_SET_PARSER_SPLIT_MODE, Param::I32(1)) + control(
                MPP_DEC_SET_PARSER_FAST_MODE,
                Param::I32(1),
            ) + seq![Call::Init { mpp, ctx_type: MPP_CTX_DEC, coding: codec }];
            let ready = control(MPP_DEC_SET_DISABLE_ERROR, Param::Null) + control(
                MPP_SET_OUTPUT_TIMEOUT,
                Param::I64(OUTPUT_TIMEOUT),
            );
            if replies[1].ret != MPP_OK {
                &&& crate::trace::calls_of(run.log) =~= start
                &&& run.out == Some(Err::<(), SetFormatError>(SetFormatError::Init))
                &&& run.state == state
            } else {
                &&& crate::trace::calls_of(run.log) =~= start + ready
                &&& run.out == Some(Ok::<(), SetFormatError>(()))
                &&& run.state == DecoderState { codec, negotiated: false, ..state }
            }
        }),
{
    broadcast use crate::trace::group_calls;

    reveal_with_fuel(crate::script::run, 3);
}

/// The calls that give a decoder back: the context is reset where that can be done, then destroyed.
pub open spec fn gives_decoder_back(dec: DecoderState) -> Seq<Call> {
    crate::trace::only_if(dec.api.reset, Call::Reset(dec.mpp)) + seq![Call::Destroy(dec.mpp.ctx)]
}

/// Whether the log asks the decoder for frames, gives back each one that comes, and stops at the first
/// request that brings none, or after `left` frames; then it gives the decoder back.
pub open spec fn drains(log: Seq<Event>, left: nat, dec: DecoderState) -> bool
    decreases left,
{
    &&& left > 0
    &&& log.len() > 0
    &&& log[0].call == Call::DecodeGetFrame(dec.mpp)
    &&& log[0].reply matches Some(got) && if got.ret != MPP_OK || got.handle == NULL {
        crate::trace::calls_of(log.skip(1)) == gives_decoder_back(dec)
    } else if left == 1 {
        crate::trace::calls_of(log.skip(1)) == seq![Call::FrameDeinit(got.handle)] + gives_decoder_back(dec)
    } else {
        &&& log.len() >= 2
        &&& log[1].call == Call::FrameDeinit(got.handle)
        &&& drains(log.skip(2), (left - 1) as nat, dec)
    }
}

proof fn lemma_drains(dec: DecoderState, taken: u32, replies: Seq<Reply>)
    requires
        taken < TEARDOWN_POLLS,
        crate::script::run(DecTeardown::Drain { dec, taken }, (), replies).out is Some,
    ensures
        ({
            let run = crate::script::run(DecTeardown::Drain { dec, taken }, (), replies);
            let asked = seq![Event { call: Call::DecodeGetFrame(dec.mpp), reply: Some(replies[0]) }];
            drains(asked + run.log, (TEARDOWN_POLLS - taken) as nat, dec)
        }),
    decreases replies.len(),
{
    broadcast use crate::trace::group_calls;

    let run = crate::script::run(DecTeardown::Drain { dec, taken }, (), replies);
    let asked = seq![Event { call: Call::DecodeGetFrame(dec.mpp), reply: Some(replies[0]) }];
    let log = asked + run.log;
    assert(log[0] == asked[0]);
    assert(log.skip(1) =~= run.log);
    let rest = replies.skip(1);
    if replies[0].ret != MPP_OK || replies[0].handle == NULL {
        assert(crate::trace::calls_of(log.skip(1)) =~= gives_decoder_back(dec));
    } else if taken < TEARDOWN_POLLS - 1 {
        let next = (taken + 1) as u32;
        let tail = crate::script::run(DecTeardown::Drain { dec, taken: next }, (), rest);
        assert(tail.out is Some && rest.len() > 0);
        lemma_drains(dec, next, rest);
        let again = seq![Event { call: Call::DecodeGetFrame(dec.mpp), reply: Some(rest[0]) }];
        assert(log.skip(2) =~= again + tail.log);
        assert(log[1] == run.log[0]);
    } else {
        assert(crate::trace::calls_of(log.skip(1)) =~= seq![Call::FrameDeinit(replies[0].handle)]
            + gives_decoder_back(dec));
    }
}

/// Tearing the decoder down, from its first call to its last: the stream is ended, up to ten frames that are
/// left are taken and given back, then the decoder is given back.
pub proof fn law_teardown_ends_the_stream(dec: DecoderState, replies: Seq<Reply>)
    requires
        crate::script::run(DecTeardown::Begin { dec }, (), replies).out is Some,
    ensures
        ({
            let log = crate::script::run(DecTeardown::Begin { dec }, (), replies).log;
            let told = seq![Call::PacketInit(PacketData::Empty)] + ends_stream(
                dec.mpp,
                dec.api.decode_put_packet,
                replies[1],
            );
            let n = told.len() as int;
            &&& log.len() > n
            &&& crate::trace::calls_of(log.take(n)) == told
            &&& if dec.api.decode_get_frame {
                drains(log.skip(n), 10, dec)
            } else {
                crate::trace::calls_of(log.skip(n)) == gives_decoder_back(dec)
            }
        }),
{
    broadcast use crate::trace::group_calls;

    let run = crate::script::run(DecTeardown::Begin { dec }, (), replies);
    let log = run.log;
    let r1 = replies.skip(1);
    let r2 = r1.skip(1);
    let made = crate::script::run(DecTeardown::EosPacket { dec }, (), r1);
    assert(made.out is Some && r1.len() > 0);
    let ending = ends_stream(dec.mpp, dec.api.decode_put_packet, r1[0]);
    let told = seq![Call::PacketInit(PacketData::Empty)] + ending;
    let n = told.len() as int;
    assert(log =~= seq![log[0]] + made.log);
    assert(log.skip(n) =~= made.log.skip(n - 1));
    if dec.api.decode_get_frame {
        let drain = crate::script::run(DecTeardown::Drain { dec, taken: 0 }, (), r2);
        assert(drain.out is Some && r2.len() > 0);
        lemma_drains(dec, 0, r2);
        let asked = seq![Event { call: Call::DecodeGetFrame(dec.mpp), reply: Some(r2[0]) }];
        assert(made.log.skip(n - 1) =~= asked + drain.log);
    } else {
        assert(crate::trace::calls_of(made.log.skip(n - 1)) =~= gives_decoder_back(dec));
    }
    assert(crate::trace::calls_of(log.take(n)) =~= told);
}

/// The stream types and their codecs: H.264 and H.265 by their names, and no other. Caps that are missing, are
/// empty or name another type are told apart.
pub proof fn law_codecs_have_names(name: Seq<char>, caps: StreamCaps)
    ensures
        crate::dec::state::stream_codec(caps) == match caps {
            StreamCaps::Missing => Err::<i32, SetFormatError>(SetFormatError::NoCaps),
            StreamCaps::Empty => Err(SetFormatError::NoStructure),
            StreamCaps::Named(named) => if named@ == "video/x-h264"@ {
                Ok(MPP_VIDEO_CodingAVC)
            } else if named@ == "video/x-h265"@ {
                Ok(MPP_VIDEO_CodingHEVC)
            } else {
                Err(SetFormatError::UnsupportedCodec)
            },
        },
        crate::dec::state::codec_named("video/x-h264"@) == Some(MPP_VIDEO_CodingAVC),
        crate::dec::state::codec_named("video/x-h265"@) == Some(MPP_VIDEO_CodingHEVC),
        crate::dec::state::codec_named(name) is Some ==> name == "video/x-h264"@ || name == "video/x-h265"@,
{
    reveal_strlit("video/x-h264");
    reveal_strlit("video/x-h265");
    assert("video/x-h264"@[11] != "video/x-h265"@[11]);
}

} // verus!

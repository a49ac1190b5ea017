//! What starting the encoder, setting it up and giving it back asks for, call by call.

use vstd::prelude::*;

use crate::allocator::{AllocIndex, MppAllocator, NewAllocator};
use crate::call::{Call, Geometry, Param, Reply};
use crate::enc::state::{EncStart, EncTeardown, EncoderState, InputBufs, Slot, StartError, OUTPUT_TIMEOUT, TEARDOWN_POLLS};
use crate::mpp_ffi::{
    Mpp, MppFrame, MPP_BUFFER_EXTERNAL, MPP_BUFFER_INTERNAL, MPP_BUFFER_TYPE_DRM, MPP_CTX_ENC,
    MPP_ENC_GET_CFG, MPP_OK, MPP_SET_OUTPUT_TIMEOUT, MPP_VIDEO_CodingAVC, MPP_VIDEO_CodingHEVC, NULL,
};
use crate::script::Event;

verus! {

/// The calls that make a context an encoder for `coding`: the timeout is set where commands can be given.
pub open spec fn sets_up(created: Reply, coding: i32) -> Seq<Call> {
    let mpp = Mpp { ctx: created.handle, mpi: created.mpi };
    crate::trace::only_if(
        created.api.control,
        Call::Control { mpp, cmd: MPP_SET_OUTPUT_TIMEOUT, param: Param::I64(OUTPUT_TIMEOUT) },
    ) + seq![Call::Init { mpp, ctx_type: MPP_CTX_ENC, coding }]
}

/// How starting ends once a context is an encoder for `coding` and a configuration was asked for: the
/// hardware fills it in; the encoder holds context, configuration and allocator, and no buffers, frame or
/// size. Without a configuration, context and allocator are given back.
pub open spec fn start_end(created: Reply, coding: i32, config: Reply, allocator: MppAllocator) -> (
    Seq<Call>,
    Result<EncoderState, StartError>,
) {
    let mpp = Mpp { ctx: created.handle, mpi: created.mpi };
    if config.ret != MPP_OK {
        (seq![Call::Destroy(mpp.ctx)] + gives_allocator_back(allocator), Err(StartError::CfgInit))
    } else {
        (
            crate::trace::only_if(
                created.api.control,
                Call::Control { mpp, cmd: MPP_ENC_GET_CFG, param: Param::Handle(config.handle) },
            ),
            Ok(
                EncoderState {
                    mpp,
                    api: created.api,
                    cfg: config.handle,
                    allocator,
                    input_bufs: InputBufs { first: NULL, second: NULL },
                    slot: Slot::First,
                    in_flight_frame: NULL,
                    geometry: Geometry { width: 0, height: 0, hor_stride: 0, ver_stride: 0 },
                    codec: coding,
                },
            ),
        )
    }
}

/// The calls that give an allocator back.
pub open spec fn gives_allocator_back(allocator: MppAllocator) -> Seq<Call> {
    seq![
        Call::BufferGroupPut(allocator.ext_group),
        Call::BufferGroupPut(allocator.group),
        Call::ObjectUnref(allocator.dmabuf_alloc),
    ]
}

proof fn lemma_start_end(created: Reply, coding: i32, allocator: MppAllocator, state: AllocIndex, replies: Seq<Reply>)
    requires
        replies.len() >= 1,
    ensures
        ({
            let mpp = Mpp { ctx: created.handle, mpi: created.mpi };
            let script = EncStart::Cfg { allocator, mpp, api: created.api, codec: coding };
            let run = crate::script::run(script, state, replies);
            let (calls, out) = start_end(created, coding, replies[0], allocator);
            &&& crate::trace::calls_of(run.log) == calls
            &&& run.out == Some(out)
        }),
{
    broadcast use crate::trace::group_calls;

}

/// The second attempt: the calls and the result from the new context on.
pub open spec fn second_attempt(created: Reply, init: Reply, config: Reply, allocator: MppAllocator) -> (
    Seq<Call>,
    Result<EncoderState, StartError>,
) {
    let set_up = sets_up(created, MPP_VIDEO_CodingAVC);
    if created.ret != MPP_OK {
        (gives_allocator_back(allocator), Err(StartError::CreateRetry))
    } else if init.ret != MPP_OK {
        (
            set_up + seq![Call::Destroy(created.handle)] + gives_allocator_back(allocator),
            Err(StartError::Init),
        )
    } else {
        let (calls, out) = start_end(created, MPP_VIDEO_CodingAVC, config, allocator);
        (set_up + seq![Call::EncCfgInit] + calls, out)
    }
}

#[verifier::rlimit(60)]
proof fn lemma_second_attempt(allocator: MppAllocator, state: AllocIndex, replies: Seq<Reply>)
    requires
        replies.len() >= 3,
    ensures
        ({
            let run = crate::script::run(EncStart::Recreated { allocator }, state, replies);
            let (calls, out) = second_attempt(replies[0], replies[1], replies[2], allocator);
            &&& crate::trace::calls_of(run.log) == calls
            &&& run.out == Some(out)
        }),
{
    broadcast use crate::trace::group_calls;

    reveal_with_fuel(crate::script::run, 2);
    let run = crate::script::run(EncStart::Recreated { allocator }, state, replies);
    let (calls, out) = second_attempt(replies[0], replies[1], replies[2], allocator);
    let rest = replies.skip(1).skip(1);
    assert(rest[0] == replies[2]);
    if replies[0].ret == MPP_OK && replies[1].ret == MPP_OK {
        lemma_start_end(replies[0], MPP_VIDEO_CodingAVC, allocator, state, rest);
    }
    assert(crate::trace::calls_of(run.log) =~= calls);
}

/// The first attempt: the calls and the result from the first context on.
pub open spec fn first_attempt(created: Reply, replies: Seq<Reply>, allocator: MppAllocator) -> (
    Seq<Call>,
    Result<EncoderState, StartError>,
) {
    let set_up = sets_up(created, MPP_VIDEO_CodingHEVC);
    if created.ret != MPP_OK {
        (gives_allocator_back(allocator), Err(StartError::Create))
    } else if replies[0].ret == MPP_OK {
        let (calls, out) = start_end(created, MPP_VIDEO_CodingHEVC, replies[1], allocator);
        (set_up + seq![Call::EncCfgInit] + calls, out)
    } else {
        let (calls, out) = second_attempt(replies[1], replies[2], replies[3], allocator);
        (set_up + seq![Call::Destroy(created.handle), Call::Create] + calls, out)
    }
}

#[verifier::rlimit(60)]
proof fn lemma_first_attempt(allocator: MppAllocator, state: AllocIndex, replies: Seq<Reply>)
    requires
        replies.len() >= 5,
    ensures
        ({
            let run = crate::script::run(EncStart::Created { allocator }, state, replies);
            let (calls, out) = first_attempt(replies[0], replies.skip(1), allocator);
            &&& crate::trace::calls_of(run.log) == calls
            &&& run.out == Some(out)
        }),
{
    broadcast use crate::trace::group_calls;

    reveal_with_fuel(crate::script::run, 2);
    let run = crate::script::run(EncStart::Created { allocator }, state, replies);
    let (calls, out) = first_attempt(replies[0], replies.skip(1), allocator);
    let rest = replies.skip(1).skip(1);
    if replies[0].ret == MPP_OK {
        if replies[1].ret == MPP_OK {
            lemma_start_end(replies[0], MPP_VIDEO_CodingHEVC, allocator, state, rest);
        } else {
            lemma_second_attempt(allocator, state, rest);
        }
    }
    assert(crate::trace::calls_of(run.log) =~= calls);
}

/// Starting the encoder, from its first call to its last. An allocator is made, then a context, which is
/// set up for H.265. Where the hardware refuses that, the context is destroyed and a new one is set up
/// for H.264. Then comes the configuration. Whatever fails, what was made so far is given back.
#[verifier::rlimit(60)]
pub proof fn law_start_sets_a_context_up(counter: AllocIndex, replies: Seq<Reply>)
    requires
        replies.len() >= 9,
    ensures
        ({
            let run = EncStart::start_run(counter, replies);
            let made = crate::trace::calls_of(run.log);
            let (group, ext_group, dmabuf) = (replies[1], replies[2], replies[3]);
            let allocator = MppAllocator {
                group: group.handle,
                ext_group: ext_group.handle,
                index: counter.next,
                dmabuf_alloc: dmabuf.handle,
            };
            let first = seq![
                Call::BufferGroupGet { buf_type: MPP_BUFFER_TYPE_DRM, mode: MPP_BUFFER_INTERNAL },
                Call::BufferGroupGet { buf_type: MPP_BUFFER_TYPE_DRM, mode: MPP_BUFFER_EXTERNAL },
                Call::DmabufAllocatorNew,
                Call::Create,
            ];
            let (calls, out) = first_attempt(replies[4], replies.skip(5), allocator);
            if group.ret != MPP_OK || ext_group.ret != MPP_OK || dmabuf.handle == NULL {
                &&& run.out == Some(Err::<EncoderState, StartError>(StartError::Allocator))
                &&& made == crate::trace::calls_of(crate::script::run(NewAllocator::Begin, counter, replies).log)
            } else {
                &&& run.out == Some(out)
                &&& made == first + calls
            }
        }),
{
    broadcast use crate::trace::group_calls;

    reveal_with_fuel(crate::script::run, 5);
    let r2 = replies.skip(1).skip(1);
    let r3 = r2.skip(1);
    let r4 = r3.skip(1);
    assert(r2[0] == replies[2] && r3[0] == replies[3] && r4[0] == replies[4]);
    if replies[1].ret == MPP_OK && replies[2].ret == MPP_OK && replies[3].handle != NULL {
        let allocator = MppAllocator {
            group: replies[1].handle,
            ext_group: replies[2].handle,
            index: counter.next,
            dmabuf_alloc: replies[3].handle,
        };
        lemma_first_attempt(allocator, counter.advanced(), r4);
        assert(r4.skip(1) =~= replies.skip(5));
    }
}

/// The calls that give back what an encoder holds: the frame in flight, the input buffers, the
/// configuration, the context, the allocator, each by its handle and as far as it is there.
pub open spec fn gives_encoder_back(enc: EncoderState) -> Seq<Call> {
    crate::trace::only_if(enc.in_flight_frame != NULL, Call::FrameDeinit(enc.in_flight_frame))
        + crate::trace::only_if(enc.input_bufs.first != NULL, Call::BufferPut(enc.input_bufs.first))
        + crate::trace::only_if(enc.input_bufs.second != NULL, Call::BufferPut(enc.input_bufs.second)) + seq![
        Call::EncCfgDeinit(enc.cfg),
        Call::Destroy(enc.mpp.ctx),
    ] + gives_allocator_back(enc.allocator)
}

/// Whether from `n` on the log asks the encoder for packets, gives back each one that comes, and stops at
/// the first request that brings none, or after `left` packets; then it releases `frame` and gives the
/// encoder back.
pub open spec fn drains(log: Seq<Event>, n: int, left: nat, enc: EncoderState, frame: MppFrame) -> bool
    decreases left,
{
    &&& 0 <= n < log.len()
    &&& left > 0
    &&& log[n].call == Call::EncodeGetPacket(enc.mpp)
    &&& log[n].reply matches Some(got) && if got.ret != MPP_OK || got.handle == NULL {
        crate::trace::ends_with(log, n + 1, seq![Call::FrameDeinit(frame)] + gives_encoder_back(enc))
    } else if left == 1 {
        crate::trace::ends_with(
            log,
            n + 1,
            seq![Call::PacketDeinit(got.handle), Call::FrameDeinit(frame)] + gives_encoder_back(enc),
        )
    } else {
        &&& n + 1 < log.len()
        &&& log[n + 1].call == Call::PacketDeinit(got.handle)
        &&& drains(log, n + 2, (left - 1) as nat, enc, frame)
    }
}

proof fn lemma_drains_later(before: Seq<Event>, log: Seq<Event>, n: int, left: nat, enc: EncoderState, frame: MppFrame)
    requires
        drains(log, n, left, enc, frame),
    ensures
        drains(before + log, before.len() + n, left, enc, frame),
    decreases left,
{
    let whole = before + log;
    assert(whole[before.len() + n] == log[n]);
    let got = log[n].reply->0;
    if got.ret != MPP_OK || got.handle == NULL || left == 1 {
        assert forall|i: int| 0 <= i < log.len() implies #[trigger] log[i] == whole[before.len() + i] by {}
        let tail = if got.ret != MPP_OK || got.handle == NULL {
            seq![Call::FrameDeinit(frame)] + gives_encoder_back(enc)
        } else {
            seq![Call::PacketDeinit(got.handle), Call::FrameDeinit(frame)] + gives_encoder_back(enc)
        };
        assert forall|i: int| 0 <= i < tail.len() implies (#[trigger] whole[before.len() + n + 1 + i]).call == tail[i] by {
            assert(log[n + 1 + i].call == tail[i]);
        }
    } else {
        assert(whole[before.len() + n + 1] == log[n + 1]);
        lemma_drains_later(before, log, n + 2, (left - 1) as nat, enc, frame);
    }
}

proof fn lemma_teardown_drains(enc: EncoderState, eos_frame: MppFrame, taken: u32, replies: Seq<Reply>)
    requires
        taken < TEARDOWN_POLLS,
        crate::script::run(EncTeardown::Drain { enc, eos_frame, taken }, (), replies).out is Some,
    ensures
        ({
            let run = crate::script::run(EncTeardown::Drain { enc, eos_frame, taken }, (), replies);
            let asked = seq![Event { call: Call::EncodeGetPacket(enc.mpp), reply: Some(replies[0]) }];
            drains(asked + run.log, 0, (TEARDOWN_POLLS - taken) as nat, enc, eos_frame)
        }),
    decreases replies.len(),
{
    let run = crate::script::run(EncTeardown::Drain { enc, eos_frame, taken }, (), replies);
    let asked = seq![Event { call: Call::EncodeGetPacket(enc.mpp), reply: Some(replies[0]) }];
    let log = asked + run.log;
    let rest = replies.skip(1);
    assert(log[0] == asked[0]);
    if replies[0].ret != MPP_OK || replies[0].handle == NULL {
        let tail = seq![Call::FrameDeinit(eos_frame)] + gives_encoder_back(enc);
        assert(crate::trace::ends_with(log, 1, tail));
    } else if taken < TEARDOWN_POLLS - 1 {
        let next = (taken + 1) as u32;
        let after = crate::script::run(EncTeardown::Drain { enc, eos_frame, taken: next }, (), rest);
        assert(after.out is Some && rest.len() > 0);
        lemma_teardown_drains(enc, eos_frame, next, rest);
        let again = seq![Event { call: Call::EncodeGetPacket(enc.mpp), reply: Some(rest[0]) }];
        let head = seq![log[0], log[1]];
        assert(log =~= head + (again + after.log));
        lemma_drains_later(head, again + after.log, 0, (TEARDOWN_POLLS - next) as nat, enc, eos_frame);
    } else {
        let tail = seq![Call::PacketDeinit(replies[0].handle), Call::FrameDeinit(eos_frame)] + gives_encoder_back(enc);
        assert(crate::trace::ends_with(log, 1, tail));
    }
}

/// Tearing the encoder down, from its first call to its last. An empty frame with the end-of-stream mark is
/// made and submitted, as far as it can be; up to ten packets that are left are taken and given back;
/// then the encoder gives back what it holds, each thing by its handle.
pub proof fn law_teardown_ends_the_stream(enc: EncoderState, replies: Seq<Reply>)
    requires
        crate::script::run(EncTeardown::Begin { enc }, (), replies).out is Some,
    ensures
        ({
            let log = crate::script::run(EncTeardown::Begin { enc }, (), replies).log;
            let frame = replies[1].handle;
            &&& log[0].call == Call::FrameInit
            &&& if replies[1].ret != MPP_OK {
                crate::trace::ends_with(log, 1, gives_encoder_back(enc))
            } else {
                let n: int = if enc.api.encode_put_frame {
                    4
                } else {
                    3
                };
                &&& log.len() > n
                &&& log[1].call == (Call::FrameSetEos { frame, eos: 1 })
                &&& log[2].call == (Call::FrameSetBuffer { frame, buffer: NULL })
                &&& enc.api.encode_put_frame ==> log[3].call == (Call::EncodePutFrame { mpp: enc.mpp, frame })
                &&& if enc.api.encode_get_packet {
                    drains(log, n, 10, enc, frame)
                } else {
                    crate::trace::ends_with(log, n, seq![Call::FrameDeinit(frame)] + gives_encoder_back(enc))
                }
            }
        }),
{
    let run = crate::script::run(EncTeardown::Begin { enc }, (), replies);
    let rest = replies.skip(1);
    let made = crate::script::run(EncTeardown::EosFrame { enc }, (), rest);
    assert(made.out is Some && rest.len() > 0);
    assert(run.log =~= seq![run.log[0]] + made.log);
    assert forall|i: int| 0 < i < run.log.len() implies #[trigger] run.log[i] == made.log[i - 1] by {}
    let frame = replies[1].handle;
    if replies[1].ret != MPP_OK {
        assert(crate::trace::ends_with(run.log, 1, gives_encoder_back(enc)));
    } else if enc.api.encode_get_packet {
        let more = rest.skip(1);
        let drain = crate::script::run(EncTeardown::Drain { enc, eos_frame: frame, taken: 0 }, (), more);
        assert(drain.out is Some && more.len() > 0);
        lemma_teardown_drains(enc, frame, 0, more);
        let n: int = if enc.api.encode_put_frame {
            4
        } else {
            3
        };
        let asked = seq![Event { call: Call::EncodeGetPacket(enc.mpp), reply: Some(more[0]) }];
        let head = run.log.take(n);
        assert(run.log =~= head + (asked + drain.log));
        lemma_drains_later(head, asked + drain.log, 0, TEARDOWN_POLLS as nat, enc, frame);
    } else {
        let n: int = if enc.api.encode_put_frame {
            4
        } else {
            3
        };
        assert(crate::trace::ends_with(run.log, n, seq![Call::FrameDeinit(frame)] + gives_encoder_back(enc)));
    }
}

/// Flushing releases the frame in flight and resets the context, where there is one and where it can be
/// reset; nothing of the encoder changes but that no frame is in flight.
pub proof fn law_flush_forgets_the_frame(enc: EncoderState)
    ensures
        enc.flush_calls() == crate::trace::only_if(
            enc.in_flight_frame != NULL,
            Call::FrameDeinit(enc.in_flight_frame),
        ) + crate::trace::only_if(enc.api.reset, Call::Reset(enc.mpp)),
        enc.landed() == (EncoderState { in_flight_frame: NULL, ..enc }),
{
}

} // verus!

//! What holds of starting the encoder and of tearing it down.

use vstd::prelude::*;

use crate::allocator::{AllocIndex, NewAllocator};
use crate::call::{Call, Param, Reply};
use crate::enc::state::{EncStart, EncTeardown, EncoderState, InputBufs, StartError, OUTPUT_TIMEOUT, TEARDOWN_POLLS};
use crate::mpp_ffi::{
    MppFrame, MppPacket, MPP_CTX_ENC, MPP_OK, MPP_SET_OUTPUT_TIMEOUT, MPP_VIDEO_CodingAVC, MPP_VIDEO_CodingHEVC, NULL,
};
use crate::script::Event;

verus! {

impl EncStart {
    /// How starting goes under the given replies.
    pub open spec fn start_run(counter: AllocIndex, replies: Seq<Reply>) -> crate::script::Run<EncStart> {
        crate::script::run(EncStart::Allocator(NewAllocator::Begin), counter, replies)
    }
}

spec fn start_allocator() -> crate::script::Account<EncStart> {
    crate::script::Account {
        weight: crate::allocator::allocator_weight(),
        at: |script: EncStart, state: AllocIndex| true,
        held: |script: EncStart, state: AllocIndex, reply: Reply|
            match script {
                EncStart::Allocator(inner) => inner.owned(reply),
                _ => 3,
            },
        kept: |state: AllocIndex, out: Result<EncoderState, StartError>| 3 * crate::resources::one_if(out is Ok),
    }
}

spec fn start_contexts() -> crate::script::Account<EncStart> {
    crate::script::Account {
        weight: crate::resources::context_weight(),
        at: |script: EncStart, state: AllocIndex| true,
        held: |script: EncStart, state: AllocIndex, reply: Reply|
            match script {
                EncStart::Allocator(_) => 0,
                EncStart::Created { .. } => crate::resources::one_if(reply.ret == MPP_OK),
                EncStart::Recreated { .. } => crate::resources::one_if(reply.ret == MPP_OK),
                _ => 1,
            },
        kept: |state: AllocIndex, out: Result<EncoderState, StartError>| crate::resources::one_if(out is Ok),
    }
}

spec fn start_configs() -> crate::script::Account<EncStart> {
    crate::script::Account {
        weight: crate::resources::config_weight(),
        at: |script: EncStart, state: AllocIndex| true,
        held: |script: EncStart, state: AllocIndex, reply: Reply|
            crate::resources::one_if(script is Cfg && reply.ret == MPP_OK),
        kept: |state: AllocIndex, out: Result<EncoderState, StartError>| crate::resources::one_if(out is Ok),
    }
}

proof fn lemma_start_allocator(counter: AllocIndex, replies: Seq<Reply>)
    requires
        EncStart::start_run(counter, replies).out is Some,
    ensures
        crate::script::total(
            crate::allocator::allocator_weight(),
            EncStart::start_run(counter, replies).log,
        ) == 3 * crate::resources::one_if(EncStart::start_run(counter, replies).out->0 is Ok),
{
    reveal_with_fuel(crate::script::total, 5);
    crate::script::lemma_run_balances(
        start_allocator(),
        EncStart::Allocator(NewAllocator::Begin),
        counter,
        replies,
    );
}

proof fn lemma_start_contexts(counter: AllocIndex, replies: Seq<Reply>)
    requires
        EncStart::start_run(counter, replies).out is Some,
    ensures
        crate::script::total(
            crate::resources::context_weight(),
            EncStart::start_run(counter, replies).log,
        ) == crate::resources::one_if(EncStart::start_run(counter, replies).out->0 is Ok),
{
    reveal_with_fuel(crate::script::total, 5);
    crate::script::lemma_run_balances(start_contexts(), EncStart::Allocator(NewAllocator::Begin), counter, replies);
}

proof fn lemma_start_configs(counter: AllocIndex, replies: Seq<Reply>)
    requires
        EncStart::start_run(counter, replies).out is Some,
    ensures
        crate::script::total(
            crate::resources::config_weight(),
            EncStart::start_run(counter, replies).log,
        ) == crate::resources::one_if(EncStart::start_run(counter, replies).out->0 is Ok),
{
    reveal_with_fuel(crate::script::total, 5);
    crate::script::lemma_run_balances(start_configs(), EncStart::Allocator(NewAllocator::Begin), counter, replies);
}

/// Starting the encoder acquires an allocator, one context and one configuration; where it fails,
/// nothing of them is left.
pub proof fn law_start_holds_all_or_nothing(counter: AllocIndex, replies: Seq<Reply>)
    requires
        EncStart::start_run(counter, replies).out is Some,
    ensures
        ({
            let run = EncStart::start_run(counter, replies);
            let ok = crate::resources::one_if(run.out->0 is Ok);
            &&& crate::script::total(crate::allocator::allocator_weight(), run.log) == 3 * ok
            &&& crate::script::total(crate::resources::context_weight(), run.log) == ok
            &&& crate::script::total(crate::resources::config_weight(), run.log) == ok
        }),
{
    lemma_start_allocator(counter, replies);
    lemma_start_contexts(counter, replies);
    lemma_start_configs(counter, replies);
}

/// The encoder codes H.265 wherever the hardware can be set up for it, else H.264; it starts with no
/// buffers and no frame in flight.
pub proof fn law_hevc_is_preferred(counter: AllocIndex, replies: Seq<Reply>)
    requires
        EncStart::start_run(counter, replies).out matches Some(Ok(_)),
    ensures
        ({
            let enc = EncStart::start_run(counter, replies).out->0->Ok_0;
            &&& enc.codec == if replies[5].ret == MPP_OK {
                MPP_VIDEO_CodingHEVC
            } else {
                MPP_VIDEO_CodingAVC
            }
            &&& enc.in_flight_frame == NULL
            &&& enc.input_bufs == (InputBufs { first: NULL, second: NULL })
        }),
{
    reveal_with_fuel(crate::script::run, 10);
}

/// The weight of giving an encoder back, for each kind of resource.
proof fn lemma_release(enc: EncoderState)
    ensures
        crate::script::batch(crate::resources::context_weight(), enc.release_calls(), None) == -1,
        crate::script::batch(crate::resources::config_weight(), enc.release_calls(), None) == -1,
        crate::script::batch(crate::allocator::allocator_weight(), enc.release_calls(), None) == -3,
        crate::script::batch(crate::resources::frame_weight(), enc.release_calls(), None) == -enc.frames_held(),
        crate::script::batch(crate::resources::packet_weight(), enc.release_calls(), None) == 0,
        crate::script::batch(crate::resources::buffer_weight(), enc.release_calls(), None) == -enc.buffers_held(),
{
    broadcast use crate::script::lemma_batch_add;

    reveal_with_fuel(crate::script::total, 4);
}

impl EncoderState {
    /// The frames that the encoder holds: the one in flight, if any.
    pub open spec fn frames_held(self) -> int {
        crate::resources::one_if(self.in_flight_frame != NULL)
    }

    /// The input buffers that the encoder holds.
    pub open spec fn buffers_held(self) -> int {
        crate::resources::one_if(self.input_bufs.first != NULL) + crate::resources::one_if(
            self.input_bufs.second != NULL,
        )
    }
}

impl EncTeardown {
    /// The encoder that is being torn down.
    pub open spec fn encoder(self) -> EncoderState {
        match self {
            EncTeardown::Begin { enc } => enc,
            EncTeardown::EosFrame { enc } => enc,
            EncTeardown::Drain { enc, .. } => enc,
        }
    }
}

/// The account of a resource of which tearing `enc` down gives back `amount`, and of which `extra`
/// is held on the way.
spec fn teardown_account(
    weight: spec_fn(Event) -> int,
    enc: EncoderState,
    amount: int,
    extra: spec_fn(EncTeardown, Reply) -> int,
) -> crate::script::Account<EncTeardown> {
    crate::script::Account {
        weight,
        at: |script: EncTeardown, state: ()| script.encoder() == enc,
        held: |script: EncTeardown, state: (), reply: Reply| amount + extra(script, reply),
        kept: |state: (), out: ()| 0int,
    }
}

/// What the batches of a teardown weigh, call by call.
proof fn lemma_teardown_batches(weight: spec_fn(Event) -> int, enc: EncoderState)
    ensures
        forall|frame: MppFrame, answer: Reply|
            #![trigger crate::script::batch(
                weight,
                enc.eos_calls(frame) + seq![Call::EncodeGetPacket(enc.mpp)],
                Some(answer),
            )]
            crate::script::batch(
                weight,
                enc.eos_calls(frame) + seq![Call::EncodeGetPacket(enc.mpp)],
                Some(answer),
            ) == crate::script::batch(weight, enc.eos_calls(frame), None) + weight(
                Event { call: Call::EncodeGetPacket(enc.mpp), reply: Some(answer) },
            ),
        forall|frame: MppFrame|
            #![trigger crate::script::batch(
                weight,
                enc.eos_calls(frame) + seq![Call::FrameDeinit(frame)] + enc.release_calls(),
                None,
            )]
            crate::script::batch(
                weight,
                enc.eos_calls(frame) + seq![Call::FrameDeinit(frame)] + enc.release_calls(),
                None,
            ) == crate::script::batch(weight, enc.eos_calls(frame), None) + weight(
                Event { call: Call::FrameDeinit(frame), reply: None },
            ) + crate::script::batch(weight, enc.release_calls(), None),
        forall|frame: MppFrame|
            #![trigger crate::script::batch(weight, seq![Call::FrameDeinit(frame)] + enc.release_calls(), None)]
            crate::script::batch(weight, seq![Call::FrameDeinit(frame)] + enc.release_calls(), None) == weight(
                Event { call: Call::FrameDeinit(frame), reply: None },
            ) + crate::script::batch(weight, enc.release_calls(), None),
        forall|packet: MppPacket, end: Seq<Call>|
            #![trigger crate::script::batch(weight, seq![Call::PacketDeinit(packet)] + end, None)]
            crate::script::batch(weight, seq![Call::PacketDeinit(packet)] + end, None) == weight(
                Event { call: Call::PacketDeinit(packet), reply: None },
            ) + crate::script::batch(weight, end, None),
        forall|frame: MppFrame|
            #![trigger enc.eos_calls(frame)]
            crate::script::batch(weight, enc.eos_calls(frame), None) == weight(
                Event { call: Call::FrameSetEos { frame, eos: 1 }, reply: None },
            ) + weight(Event { call: Call::FrameSetBuffer { frame, buffer: NULL }, reply: None }) + if enc.api.encode_put_frame {
                weight(Event { call: Call::EncodePutFrame { mpp: enc.mpp, frame }, reply: None })
            } else {
                0
            },
{
    broadcast use crate::script::lemma_batch_add;

    reveal_with_fuel(crate::script::total, 3);
}

proof fn lemma_teardown_contexts(enc: EncoderState, replies: Seq<Reply>)
    requires
        crate::script::run(EncTeardown::Begin { enc }, (), replies).out is Some,
    ensures
        crate::script::total(crate::resources::context_weight(), crate::script::run(EncTeardown::Begin { enc }, (), replies).log) == -1,
{
    reveal_with_fuel(crate::script::total, 3);
    lemma_release(enc);
    lemma_teardown_batches(crate::resources::context_weight(), enc);
    crate::script::lemma_run_balances(
        teardown_account(crate::resources::context_weight(), enc, 1, |script: EncTeardown, reply: Reply| 0int),
        EncTeardown::Begin { enc },
        (),
        replies,
    );
}

proof fn lemma_teardown_configs(enc: EncoderState, replies: Seq<Reply>)
    requires
        crate::script::run(EncTeardown::Begin { enc }, (), replies).out is Some,
    ensures
        crate::script::total(crate::resources::config_weight(), crate::script::run(EncTeardown::Begin { enc }, (), replies).log) == -1,
{
    reveal_with_fuel(crate::script::total, 3);
    lemma_release(enc);
    lemma_teardown_batches(crate::resources::config_weight(), enc);
    crate::script::lemma_run_balances(
        teardown_account(crate::resources::config_weight(), enc, 1, |script: EncTeardown, reply: Reply| 0int),
        EncTeardown::Begin { enc },
        (),
        replies,
    );
}

proof fn lemma_teardown_allocator(enc: EncoderState, replies: Seq<Reply>)
    requires
        crate::script::run(EncTeardown::Begin { enc }, (), replies).out is Some,
    ensures
        crate::script::total(crate::allocator::allocator_weight(), crate::script::run(EncTeardown::Begin { enc }, (), replies).log) == -3,
{
    reveal_with_fuel(crate::script::total, 3);
    lemma_release(enc);
    lemma_teardown_batches(crate::allocator::allocator_weight(), enc);
    crate::script::lemma_run_balances(
        teardown_account(crate::allocator::allocator_weight(), enc, 3, |script: EncTeardown, reply: Reply| 0int),
        EncTeardown::Begin { enc },
        (),
        replies,
    );
}

proof fn lemma_teardown_frames(enc: EncoderState, replies: Seq<Reply>)
    requires
        crate::script::run(EncTeardown::Begin { enc }, (), replies).out is Some,
    ensures
        crate::script::total(crate::resources::frame_weight(), crate::script::run(EncTeardown::Begin { enc }, (), replies).log) == -enc.frames_held(),
{
    reveal_with_fuel(crate::script::total, 3);
    lemma_release(enc);
    lemma_teardown_batches(crate::resources::frame_weight(), enc);
    crate::script::lemma_run_balances(
        teardown_account(crate::resources::frame_weight(), enc, enc.frames_held(), |script: EncTeardown, reply: Reply|
                match script {
                    EncTeardown::Begin { .. } => 0int,
                    EncTeardown::EosFrame { .. } => crate::resources::one_if(
                        reply.ret == MPP_OK && reply.handle != NULL,
                    ),
                    EncTeardown::Drain { eos_frame, .. } => crate::resources::one_if(eos_frame != NULL),
                }),
        EncTeardown::Begin { enc },
        (),
        replies,
    );
}

proof fn lemma_teardown_buffers(enc: EncoderState, replies: Seq<Reply>)
    requires
        crate::script::run(EncTeardown::Begin { enc }, (), replies).out is Some,
    ensures
        crate::script::total(crate::resources::buffer_weight(), crate::script::run(EncTeardown::Begin { enc }, (), replies).log) == -enc.buffers_held(),
{
    reveal_with_fuel(crate::script::total, 3);
    lemma_release(enc);
    lemma_teardown_batches(crate::resources::buffer_weight(), enc);
    crate::script::lemma_run_balances(
        teardown_account(crate::resources::buffer_weight(), enc, enc.buffers_held(), |script: EncTeardown, reply: Reply| 0int),
        EncTeardown::Begin { enc },
        (),
        replies,
    );
}

/// Tearing the encoder down gives back its context, its configuration and what its allocator owns.
pub proof fn law_teardown_gives_back_context(enc: EncoderState, replies: Seq<Reply>)
    requires
        crate::script::run(EncTeardown::Begin { enc }, (), replies).out is Some,
    ensures
        ({
            let log = crate::script::run(EncTeardown::Begin { enc }, (), replies).log;
            &&& crate::script::total(crate::resources::context_weight(), log) == -1
            &&& crate::script::total(crate::resources::config_weight(), log) == -1
            &&& crate::script::total(crate::allocator::allocator_weight(), log) == -3
        }),
{
    lemma_teardown_contexts(enc, replies);
    lemma_teardown_configs(enc, replies);
    lemma_teardown_allocator(enc, replies);
}

/// Tearing the encoder down gives back the frame in flight and both input buffers, and the frame
/// that marks the end of the stream is not left behind.
pub proof fn law_teardown_gives_back_frames_and_buffers(enc: EncoderState, replies: Seq<Reply>)
    requires
        crate::script::run(EncTeardown::Begin { enc }, (), replies).out is Some,
    ensures
        ({
            let log = crate::script::run(EncTeardown::Begin { enc }, (), replies).log;
            &&& crate::script::total(crate::resources::frame_weight(), log) == -enc.frames_held()
            &&& crate::script::total(crate::resources::buffer_weight(), log) == -enc.buffers_held()
        }),
{
    lemma_teardown_frames(enc, replies);
    lemma_teardown_buffers(enc, replies);
}

/// Whatever packet the encoder still hands out while it is torn down is given back, as long as it
/// does not write a packet and report a failure at once.
pub proof fn law_teardown_gives_back_packets(enc: EncoderState, replies: Seq<Reply>)
    requires
        crate::script::run(EncTeardown::Begin { enc }, (), replies).out is Some,
        crate::script::as_expected(
            |script: EncTeardown, reply: Reply| script is Drain && reply.handle != NULL ==> reply.ret == MPP_OK,
            EncTeardown::Begin { enc },
            (),
            replies,
        ),
    ensures
        crate::script::total(
            crate::resources::packet_weight(),
            crate::script::run(EncTeardown::Begin { enc }, (), replies).log,
        ) == 0,
{
    reveal_with_fuel(crate::script::total, 3);
    lemma_release(enc);
    lemma_teardown_batches(crate::resources::packet_weight(), enc);
    crate::script::lemma_run_balances_expecting(
        teardown_account(
            crate::resources::packet_weight(),
            enc,
            0,
            |script: EncTeardown, reply: Reply| crate::resources::one_if(script is Drain && reply.handle != NULL),
        ),
        |script: EncTeardown, reply: Reply| script is Drain && reply.handle != NULL ==> reply.ret == MPP_OK,
        EncTeardown::Begin { enc },
        (),
        replies,
    );
}

/// Tearing the encoder down comes to an end: it takes at most ten packets.
pub proof fn law_teardown_ends(enc: EncoderState, replies: Seq<Reply>)
    requires
        replies.len() >= TEARDOWN_POLLS + 2,
    ensures
        crate::script::run(EncTeardown::Begin { enc }, (), replies).out is Some,
{
    let rank = |script: EncTeardown|
        match script {
            EncTeardown::Begin { .. } => (TEARDOWN_POLLS + 1) as nat,
            EncTeardown::EosFrame { .. } => TEARDOWN_POLLS as nat,
            EncTeardown::Drain { taken, .. } => if taken < TEARDOWN_POLLS {
                (TEARDOWN_POLLS - 1 - taken) as nat
            } else {
                0
            },
        };
    crate::script::lemma_run_completes(rank, EncTeardown::Begin { enc }, (), replies);
}

/// Starting the encoder comes to an end.
pub proof fn law_start_ends(counter: AllocIndex, replies: Seq<Reply>)
    requires
        replies.len() >= 9,
    ensures
        EncStart::start_run(counter, replies).out is Some,
{
    let rank = |script: EncStart|
        match script {
            EncStart::Allocator(inner) => match inner {
                NewAllocator::Begin => 8nat,
                NewAllocator::Internal => 7,
                NewAllocator::External { .. } => 6,
                NewAllocator::Dmabuf { .. } => 5,
            },
            EncStart::Created { .. } => 4,
            EncStart::InitHevc { .. } => 3,
            EncStart::Recreated { .. } => 2,
            EncStart::InitAvc { .. } => 1,
            EncStart::Cfg { .. } => 0,
        };
    crate::script::lemma_run_completes(rank, EncStart::Allocator(NewAllocator::Begin), counter, replies);
}

/// An encoder that is started and torn down leaves no context, no configuration and nothing of its
/// allocator behind.
pub proof fn law_teardown_undoes_start(counter: AllocIndex, starting: Seq<Reply>, ending: Seq<Reply>)
    requires
        EncStart::start_run(counter, starting).out matches Some(Ok(_)),
        ({
            let enc = EncStart::start_run(counter, starting).out->0->Ok_0;
            crate::script::run(EncTeardown::Begin { enc }, (), ending).out is Some
        }),
    ensures
        ({
            let start = EncStart::start_run(counter, starting);
            let enc = start.out->0->Ok_0;
            let log = start.log + crate::script::run(EncTeardown::Begin { enc }, (), ending).log;
            &&& crate::script::total(crate::resources::context_weight(), log) == 0
            &&& crate::script::total(crate::resources::config_weight(), log) == 0
            &&& crate::script::total(crate::allocator::allocator_weight(), log) == 0
        }),
{
    let start = EncStart::start_run(counter, starting);
    let enc = start.out->0->Ok_0;
    let end = crate::script::run(EncTeardown::Begin { enc }, (), ending);
    law_start_holds_all_or_nothing(counter, starting);
    law_teardown_gives_back_context(enc, ending);
    crate::script::lemma_total_add(crate::resources::context_weight(), start.log, end.log);
    crate::script::lemma_total_add(crate::resources::config_weight(), start.log, end.log);
    crate::script::lemma_total_add(crate::allocator::allocator_weight(), start.log, end.log);
}

/// Whichever codec it starts with, the encoder waits the same time for a packet, where commands can
/// be given: the context that is kept is told so before it is set up.
pub proof fn law_output_timeout_is_set(counter: AllocIndex, replies: Seq<Reply>)
    requires
        EncStart::start_run(counter, replies).out matches Some(Ok(enc)) && enc.api.control,
    ensures
        ({
            let run = EncStart::start_run(counter, replies);
            let enc = run.out->0->Ok_0;
            exists|i: int|
                0 <= i && i + 1 < run.log.len() && (#[trigger] run.log[i]).call == (Call::Control {
                    mpp: enc.mpp,
                    cmd: MPP_SET_OUTPUT_TIMEOUT,
                    param: Param::I64(OUTPUT_TIMEOUT),
                }) && run.log[i + 1].call == (Call::Init {
                    mpp: enc.mpp,
                    ctx_type: MPP_CTX_ENC,
                    coding: enc.codec,
                })
        }),
{
    reveal_with_fuel(crate::script::run, 10);
    let run = EncStart::start_run(counter, replies);
    let enc = run.out->0->Ok_0;
    let told = Call::Control { mpp: enc.mpp, cmd: MPP_SET_OUTPUT_TIMEOUT, param: Param::I64(OUTPUT_TIMEOUT) };
    if replies[5].ret == MPP_OK {
        assert(run.log[4].call == told);
    } else if replies[4].api.control {
        assert(run.log[8].call == told);
    } else {
        assert(run.log[7].call == told);
    }
}

} // verus!

//! The running encoder: how it is started and torn down.

use vstd::prelude::*;

use crate::allocator::{AllocIndex, MppAllocator, NewAllocator};
use crate::call::{call_when, join, Call, Geometry, Param, Reply};
use crate::mpp_ffi::{
    Mpp, MppApiStruct, MppBuffer, MppEncCfg, MppFrame, MPP_CTX_ENC, MPP_ENC_GET_CFG, MPP_OK, MPP_SET_OUTPUT_TIMEOUT,
    MPP_VIDEO_CodingAVC, MPP_VIDEO_CodingHEVC, NULL,
};
use crate::script::{Script, SpecStep, Step};

verus! {

/// How long the encoder waits for a packet, in milliseconds.
pub const OUTPUT_TIMEOUT: i64 = 100;

/// How many packets are taken from the encoder before it is destroyed.
pub const TEARDOWN_POLLS: u32 = 10;

/// Which of the two input buffers is meant.
#[derive(Clone, Copy, PartialEq, Eq, Debug)]
pub enum Slot {
    First,
    Second,
}

impl Slot {
    pub open spec fn spec_other(self) -> Slot {
        match self {
            Slot::First => Slot::Second,
            Slot::Second => Slot::First,
        }
    }

    pub fn other(self) -> (slot: Slot)
        ensures
            slot == self.spec_other(),
    {
        match self {
            Slot::First => Slot::Second,
            Slot::Second => Slot::First,
        }
    }
}

/// The two input buffers: one is written while the hardware encodes from the other.
#[derive(Clone, Copy, PartialEq, Eq, Debug)]
pub struct InputBufs {
    pub first: MppBuffer,
    pub second: MppBuffer,
}

impl InputBufs {
    pub open spec fn spec_get(self, slot: Slot) -> MppBuffer {
        match slot {
            Slot::First => self.first,
            Slot::Second => self.second,
        }
    }

    pub open spec fn spec_with(self, slot: Slot, buffer: MppBuffer) -> InputBufs {
        match slot {
            Slot::First => InputBufs { first: buffer, second: self.second },
            Slot::Second => InputBufs { first: self.first, second: buffer },
        }
    }

    pub fn get(&self, slot: Slot) -> (buffer: MppBuffer)
        ensures
            buffer == self.spec_get(slot),
    {
        match slot {
            Slot::First => self.first,
            Slot::Second => self.second,
        }
    }

    pub fn set(&mut self, slot: Slot, buffer: MppBuffer)
        ensures
            *final(self) == old(self).spec_with(slot, buffer),
    {
        match slot {
            Slot::First => {
                self.first = buffer;
            },
            Slot::Second => {
                self.second = buffer;
            },
        }
    }
}

/// What the encoder holds while it runs.
#[derive(Debug, PartialEq, Eq)]
pub struct EncoderState {
    pub mpp: Mpp,
    pub api: MppApiStruct,
    pub cfg: MppEncCfg,
    pub allocator: MppAllocator,
    pub input_bufs: InputBufs,
    /// The buffer that the next frame goes into.
    pub slot: Slot,
    /// The frame that was submitted and whose packet has not come yet, or `NULL`.
    pub in_flight_frame: MppFrame,
    pub geometry: Geometry,
    pub codec: i32,
}

/// Why the encoder could not be started.
#[derive(Clone, Copy, PartialEq, Eq, Debug)]
pub enum StartError {
    Allocator,
    Create,
    CreateRetry,
    Init,
    CfgInit,
}

/// A picture size that is not known yet.
pub open spec fn no_geometry() -> Geometry {
    Geometry { width: 0, height: 0, hor_stride: 0, ver_stride: 0 }
}

/// The encoder right after it was started.
pub open spec fn started(
    mpp: Mpp,
    api: MppApiStruct,
    cfg: MppEncCfg,
    allocator: MppAllocator,
    codec: i32,
) -> EncoderState {
    EncoderState {
        mpp,
        api,
        cfg,
        allocator,
        input_bufs: InputBufs { first: NULL, second: NULL },
        slot: Slot::First,
        in_flight_frame: NULL,
        geometry: no_geometry(),
        codec,
    }
}

/// Sets the timeout, where commands can be given, and sets the context up as an encoder.
pub open spec fn init_calls(mpp: Mpp, api: MppApiStruct, timeout: i64, coding: i32) -> Seq<Call> {
    crate::call::when(
        api.control,
        Call::Control { mpp, cmd: MPP_SET_OUTPUT_TIMEOUT, param: Param::I64(timeout) },
    ) + seq![Call::Init { mpp, ctx_type: MPP_CTX_ENC, coding }]
}

fn init_encoder(mpp: Mpp, api: MppApiStruct, timeout: i64, coding: i32) -> (calls: Vec<Call>)
    ensures
        calls@ == init_calls(mpp, api, timeout, coding),
{
    join(
        call_when(api.control, Call::Control { mpp, cmd: MPP_SET_OUTPUT_TIMEOUT, param: Param::I64(timeout) }),
        vec![Call::Init { mpp, ctx_type: MPP_CTX_ENC, coding }],
    )
}

/// Starts the encoder: an allocator, a context for H.265 or else for H.264, a configuration.
pub enum EncStart {
    Allocator(NewAllocator),
    Created { allocator: MppAllocator },
    InitHevc { allocator: MppAllocator, mpp: Mpp, api: MppApiStruct },
    Recreated { allocator: MppAllocator },
    InitAvc { allocator: MppAllocator, mpp: Mpp, api: MppApiStruct },
    Cfg { allocator: MppAllocator, mpp: Mpp, api: MppApiStruct, codec: i32 },
}

impl EncStart {
    pub fn begin() -> (script: EncStart)
        ensures
            script == EncStart::Allocator(NewAllocator::Begin),
    {
        EncStart::Allocator(MppAllocator::new())
    }
}

impl Script for EncStart {
    type State = AllocIndex;

    type Out = Result<EncoderState, StartError>;

    open spec fn next(self, state: AllocIndex, reply: Reply) -> (AllocIndex, SpecStep<Self, Self::Out>) {
        match self {
            EncStart::Allocator(script) => {
                let (after, step) = script.next(state, reply);
                match step {
                    SpecStep::Calls(calls, script) => (after, SpecStep::Calls(calls, EncStart::Allocator(script))),
                    SpecStep::Done(calls, Err(_)) => (after, SpecStep::Done(calls, Err(StartError::Allocator))),
                    SpecStep::Done(calls, Ok(allocator)) => (
                        after,
                        SpecStep::Calls(calls + seq![Call::Create], EncStart::Created { allocator }),
                    ),
                }
            },
            EncStart::Created { allocator } => if reply.ret != MPP_OK {
                (state, SpecStep::Done(allocator.teardown_calls(), Err(StartError::Create)))
            } else {
                let mpp = Mpp { ctx: reply.handle, mpi: reply.mpi };
                (
                    state,
                    SpecStep::Calls(
                        init_calls(mpp, reply.api, OUTPUT_TIMEOUT, MPP_VIDEO_CodingHEVC),
                        EncStart::InitHevc { allocator, mpp, api: reply.api },
                    ),
                )
            },
            EncStart::InitHevc { allocator, mpp, api } => if reply.ret == MPP_OK {
                (
                    state,
                    SpecStep::Calls(
                        seq![Call::EncCfgInit],
                        EncStart::Cfg { allocator, mpp, api, codec: MPP_VIDEO_CodingHEVC },
                    ),
                )
            } else {
                (
                    state,
                    SpecStep::Calls(
                        seq![Call::Destroy(mpp.ctx), Call::Create],
                        EncStart::Recreated { allocator },
                    ),
                )
            },
            EncStart::Recreated { allocator } => if reply.ret != MPP_OK {
                (state, SpecStep::Done(allocator.teardown_calls(), Err(StartError::CreateRetry)))
            } else {
                let mpp = Mpp { ctx: reply.handle, mpi: reply.mpi };
                (
                    state,
                    SpecStep::Calls(
                        init_calls(mpp, reply.api, OUTPUT_TIMEOUT, MPP_VIDEO_CodingAVC),
                        EncStart::InitAvc { allocator, mpp, api: reply.api },
                    ),
                )
            },
            EncStart::InitAvc { allocator, mpp, api } => if reply.ret != MPP_OK {
                (
                    state,
                    SpecStep::Done(
                        seq![Call::Destroy(mpp.ctx)] + allocator.teardown_calls(),
                        Err(StartError::Init),
                    ),
                )
            } else {
                (
                    state,
                    SpecStep::Calls(
                        seq![Call::EncCfgInit],
                        EncStart::Cfg { allocator, mpp, api, codec: MPP_VIDEO_CodingAVC },
                    ),
                )
            },
            EncStart::Cfg { allocator, mpp, api, codec } => if reply.ret != MPP_OK {
                (
                    state,
                    SpecStep::Done(
                        seq![Call::Destroy(mpp.ctx)] + allocator.teardown_calls(),
                        Err(StartError::CfgInit),
                    ),
                )
            } else {
                (
                    state,
                    SpecStep::Done(
                        crate::call::when(
                            api.control,
                            Call::Control { mpp, cmd: MPP_ENC_GET_CFG, param: Param::Handle(reply.handle) },
                        ),
                        Ok(started(mpp, api, reply.handle, allocator, codec)),
                    ),
                )
            },
        }
    }

    fn step(self, state: &mut AllocIndex, reply: Reply) -> (step: Step<Self, Self::Out>) {
        match self {
            EncStart::Allocator(script) => match script.step(state, reply) {
                Step::Calls(calls, script) => Step::Calls(calls, EncStart::Allocator(script)),
                Step::Done(calls, Err(_)) => Step::Done(calls, Err(StartError::Allocator)),
                Step::Done(calls, Ok(allocator)) => Step::Calls(
                    join(calls, vec![Call::Create]),
                    EncStart::Created { allocator },
                ),
            },
            EncStart::Created { allocator } => {
                if reply.ret != MPP_OK {
                    return Step::Done(allocator.teardown(), Err(StartError::Create));
                }
                let mpp = Mpp { ctx: reply.handle, mpi: reply.mpi };
                Step::Calls(
                    init_encoder(mpp, reply.api, OUTPUT_TIMEOUT, MPP_VIDEO_CodingHEVC),
                    EncStart::InitHevc { allocator, mpp, api: reply.api },
                )
            },
            EncStart::InitHevc { allocator, mpp, api } => {
                if reply.ret == MPP_OK {
                    return Step::Calls(
                        vec![Call::EncCfgInit],
                        EncStart::Cfg { allocator, mpp, api, codec: MPP_VIDEO_CodingHEVC },
                    );
                }
                Step::Calls(vec![Call::Destroy(mpp.ctx), Call::Create], EncStart::Recreated { allocator })
            },
            EncStart::Recreated { allocator } => {
                if reply.ret != MPP_OK {
                    return Step::Done(allocator.teardown(), Err(StartError::CreateRetry));
                }
                let mpp = Mpp { ctx: reply.handle, mpi: reply.mpi };
                Step::Calls(
                    init_encoder(mpp, reply.api, OUTPUT_TIMEOUT, MPP_VIDEO_CodingAVC),
                    EncStart::InitAvc { allocator, mpp, api: reply.api },
                )
            },
            EncStart::InitAvc { allocator, mpp, api } => {
                if reply.ret != MPP_OK {
                    return Step::Done(
                        join(vec![Call::Destroy(mpp.ctx)], allocator.teardown()),
                        Err(StartError::Init),
                    );
                }
                Step::Calls(
                    vec![Call::EncCfgInit],
                    EncStart::Cfg { allocator, mpp, api, codec: MPP_VIDEO_CodingAVC },
                )
            },
            EncStart::Cfg { allocator, mpp, api, codec } => {
                if reply.ret != MPP_OK {
                    return Step::Done(
                        join(vec![Call::Destroy(mpp.ctx)], allocator.teardown()),
                        Err(StartError::CfgInit),
                    );
                }
                let cfg = reply.handle;
                Step::Done(
                    call_when(api.control, Call::Control { mpp, cmd: MPP_ENC_GET_CFG, param: Param::Handle(cfg) }),
                    Ok(
                        EncoderState {
                            mpp,
                            api,
                            cfg,
                            allocator,
                            input_bufs: InputBufs { first: NULL, second: NULL },
                            slot: Slot::First,
                            in_flight_frame: NULL,
                            geometry: Geometry { width: 0, height: 0, hor_stride: 0, ver_stride: 0 },
                            codec,
                        },
                    ),
                )
            },
        }
    }
}

impl EncoderState {
    /// The calls that give back what the encoder holds, once it is drained.
    pub open spec fn release_calls(self) -> Seq<Call> {
        crate::call::when(self.in_flight_frame != NULL, Call::FrameDeinit(self.in_flight_frame))
            + crate::call::when(self.input_bufs.first != NULL, Call::BufferPut(self.input_bufs.first))
            + crate::call::when(self.input_bufs.second != NULL, Call::BufferPut(self.input_bufs.second)) + seq![
            Call::EncCfgDeinit(self.cfg),
            Call::Destroy(self.mpp.ctx),
        ] + self.allocator.teardown_calls()
    }

    /// The calls that tell the encoder by an empty frame that the stream has ended.
    pub open spec fn eos_calls(self, frame: MppFrame) -> Seq<Call> {
        seq![Call::FrameSetEos { frame, eos: 1 }, Call::FrameSetBuffer { frame, buffer: NULL }] + crate::call::when(
            self.api.encode_put_frame,
            Call::EncodePutFrame { mpp: self.mpp, frame },
        )
    }

    fn release(self) -> (calls: Vec<Call>)
        ensures
            calls@ == self.release_calls(),
    {
        let frame = call_when(self.in_flight_frame != NULL, Call::FrameDeinit(self.in_flight_frame));
        let first = call_when(self.input_bufs.first != NULL, Call::BufferPut(self.input_bufs.first));
        let second = call_when(self.input_bufs.second != NULL, Call::BufferPut(self.input_bufs.second));
        let context = vec![Call::EncCfgDeinit(self.cfg), Call::Destroy(self.mpp.ctx)];
        join(join(join(join(frame, first), second), context), self.allocator.teardown())
    }
}

/// Tears the encoder down: tells it that the stream has ended, takes packets that are left, then
/// gives back what it holds.
pub enum EncTeardown {
    Begin { enc: EncoderState },
    EosFrame { enc: EncoderState },
    Drain { enc: EncoderState, eos_frame: MppFrame, taken: u32 },
}

impl EncTeardown {
    pub fn begin(enc: EncoderState) -> (script: EncTeardown)
        ensures
            script == (EncTeardown::Begin { enc }),
    {
        EncTeardown::Begin { enc }
    }
}

impl Script for EncTeardown {
    type State = ();

    type Out = ();

    open spec fn next(self, state: (), reply: Reply) -> ((), SpecStep<Self, ()>) {
        match self {
            EncTeardown::Begin { enc } => (
                (),
                SpecStep::Calls(seq![Call::FrameInit], EncTeardown::EosFrame { enc }),
            ),
            EncTeardown::EosFrame { enc } => if reply.ret != MPP_OK {
                ((), SpecStep::Done(enc.release_calls(), ()))
            } else {
                let frame = reply.handle;
                let submit = enc.eos_calls(frame);
                if enc.api.encode_get_packet {
                    (
                        (),
                        SpecStep::Calls(
                            submit + seq![Call::EncodeGetPacket(enc.mpp)],
                            EncTeardown::Drain { enc, eos_frame: frame, taken: 0 },
                        ),
                    )
                } else {
                    ((), SpecStep::Done(submit + seq![Call::FrameDeinit(frame)] + enc.release_calls(), ()))
                }
            },
            EncTeardown::Drain { enc, eos_frame, taken } => {
                let end = seq![Call::FrameDeinit(eos_frame)] + enc.release_calls();
                if reply.ret != MPP_OK || reply.handle == NULL {
                    ((), SpecStep::Done(end, ()))
                } else if taken < TEARDOWN_POLLS - 1 {
                    (
                        (),
                        SpecStep::Calls(
                            seq![Call::PacketDeinit(reply.handle), Call::EncodeGetPacket(enc.mpp)],
                            EncTeardown::Drain { enc, eos_frame, taken: (taken + 1) as u32 },
                        ),
                    )
                } else {
                    ((), SpecStep::Done(seq![Call::PacketDeinit(reply.handle)] + end, ()))
                }
            },
        }
    }

    fn step(self, state: &mut (), reply: Reply) -> (step: Step<Self, ()>) {
        match self {
            EncTeardown::Begin { enc } => Step::Calls(vec![Call::FrameInit], EncTeardown::EosFrame { enc }),
            EncTeardown::EosFrame { enc } => {
                if reply.ret != MPP_OK {
                    return Step::Done(enc.release(), ());
                }
                let frame = reply.handle;
                let submit = join(
                    vec![Call::FrameSetEos { frame, eos: 1 }, Call::FrameSetBuffer { frame, buffer: NULL }],
                    call_when(enc.api.encode_put_frame, Call::EncodePutFrame { mpp: enc.mpp, frame }),
                );
                if enc.api.encode_get_packet {
                    let mpp = enc.mpp;
                    Step::Calls(
                        join(submit, vec![Call::EncodeGetPacket(mpp)]),
                        EncTeardown::Drain { enc, eos_frame: frame, taken: 0 },
                    )
                } else {
                    Step::Done(join(join(submit, vec![Call::FrameDeinit(frame)]), enc.release()), ())
                }
            },
            EncTeardown::Drain { enc, eos_frame, taken } => {
                let packet = reply.handle;
                if reply.ret != MPP_OK || packet == NULL {
                    Step::Done(join(vec![Call::FrameDeinit(eos_frame)], enc.release()), ())
                } else if taken < TEARDOWN_POLLS - 1 {
                    let mpp = enc.mpp;
                    Step::Calls(
                        vec![Call::PacketDeinit(packet), Call::EncodeGetPacket(mpp)],
                        EncTeardown::Drain { enc, eos_frame, taken: taken + 1 },
                    )
                } else {
                    Step::Done(
                        join(
                            vec![Call::PacketDeinit(packet)],
                            join(vec![Call::FrameDeinit(eos_frame)], enc.release()),
                        ),
                        (),
                    )
                }
            },
        }
    }
}

} // verus!

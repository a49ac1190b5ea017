//! The running decoder: how it is started, set up for a stream and torn down.

use vstd::prelude::*;

use crate::call::{call_when, join, Call, Geometry, PacketData, Param, Reply};
use crate::mpp_ffi::{
    Mpp, MppApiStruct, MPP_CTX_DEC, MPP_DEC_SET_DISABLE_ERROR, MPP_DEC_SET_PARSER_FAST_MODE,
    MPP_DEC_SET_PARSER_SPLIT_MODE, MPP_OK, MPP_SET_OUTPUT_TIMEOUT, MPP_VIDEO_CodingAVC, MPP_VIDEO_CodingHEVC,
    MPP_VIDEO_CodingUnused, NULL,
};
use crate::script::{Script, SpecStep, Step};

verus! {

/// How long the decoder waits for a frame, in milliseconds.
pub const OUTPUT_TIMEOUT: i64 = 200;

/// How many frames are taken from the decoder before it is destroyed.
pub const TEARDOWN_POLLS: u32 = 10;

/// What the decoder holds while it runs.
#[derive(Debug, PartialEq, Eq)]
pub struct DecoderState {
    pub mpp: Mpp,
    pub api: MppApiStruct,
    pub codec: i32,
    /// Whether the size of the pictures is known and announced.
    pub negotiated: bool,
    pub geometry: Geometry,
}

/// Makes the context of a decoder.
pub enum DecStart {
    Begin,
    Created,
}

/// A context could not be made.
#[derive(Clone, Copy, PartialEq, Eq, Debug)]
pub struct CreateError;

impl Script for DecStart {
    type State = ();

    type Out = Result<DecoderState, CreateError>;

    open spec fn next(self, state: (), reply: Reply) -> ((), SpecStep<Self, Self::Out>) {
        match self {
            DecStart::Begin => ((), SpecStep::Calls(seq![Call::Create], DecStart::Created)),
            DecStart::Created => if reply.ret != MPP_OK {
                ((), SpecStep::Done(seq![], Err(CreateError)))
            } else {
                (
                    (),
                    SpecStep::Done(
                        seq![],
                        Ok(
                            DecoderState {
                                mpp: Mpp { ctx: reply.handle, mpi: reply.mpi },
                                api: reply.api,
                                codec: MPP_VIDEO_CodingUnused,
                                negotiated: false,
                                geometry: Geometry { width: 0, height: 0, hor_stride: 0, ver_stride: 0 },
                            },
                        ),
                    ),
                )
            },
        }
    }

    fn step(self, state: &mut (), reply: Reply) -> (step: Step<Self, Self::Out>) {
        match self {
            DecStart::Begin => Step::Calls(vec![Call::Create], DecStart::Created),
            DecStart::Created => {
                if reply.ret != MPP_OK {
                    return Step::Done(vec![], Err(CreateError));
                }
                let dec = DecoderState {
                    mpp: Mpp { ctx: reply.handle, mpi: reply.mpi },
                    api: reply.api,
                    codec: MPP_VIDEO_CodingUnused,
                    negotiated: false,
                    geometry: Geometry { width: 0, height: 0, hor_stride: 0, ver_stride: 0 },
                };
                Step::Done(vec![], Ok(dec))
            },
        }
    }
}

/// What the input caps say of the stream.
#[derive(Clone, Copy, Debug)]
pub enum StreamCaps<'a> {
    /// There are none.
    Missing,
    /// They have no structure.
    Empty,
    /// The stream type.
    Named(&'a str),
}

/// Why the decoder could not be set up for a stream.
#[derive(Clone, Copy, PartialEq, Eq, Debug)]
pub enum SetFormatError {
    NoCaps,
    NoStructure,
    UnsupportedCodec,
    NotStarted,
    Init,
}

/// The codec of a stream type.
pub open spec fn codec_named(name: Seq<char>) -> Option<i32> {
    if name == "video/x-h264"@ {
        Some(MPP_VIDEO_CodingAVC)
    } else if name == "video/x-h265"@ {
        Some(MPP_VIDEO_CodingHEVC)
    } else {
        None
    }
}

/// The codec of a stream, or what is wrong with its caps.
pub open spec fn stream_codec(caps: StreamCaps) -> Result<i32, SetFormatError> {
    match caps {
        StreamCaps::Missing => Err(SetFormatError::NoCaps),
        StreamCaps::Empty => Err(SetFormatError::NoStructure),
        StreamCaps::Named(name) => match codec_named(name@) {
            Some(codec) => Ok(codec),
            None => Err(SetFormatError::UnsupportedCodec),
        },
    }
}

/// The codec of a stream.
pub fn codec_of(caps: StreamCaps) -> (codec: Result<i32, SetFormatError>)
    ensures
        codec == stream_codec(caps),
{
    match caps {
        StreamCaps::Missing => Err(SetFormatError::NoCaps),
        StreamCaps::Empty => Err(SetFormatError::NoStructure),
        StreamCaps::Named(name) => {
            let name = name.to_owned();
            if name == "video/x-h264".to_owned() {
                Ok(MPP_VIDEO_CodingAVC)
            } else if name == "video/x-h265".to_owned() {
                Ok(MPP_VIDEO_CodingHEVC)
            } else {
                Err(SetFormatError::UnsupportedCodec)
            }
        },
    }
}

/// The decoder takes what the encoder announces, as the same codec.
pub proof fn law_decoder_takes_encoder_output(codec: i32)
    requires
        codec == MPP_VIDEO_CodingHEVC || codec == MPP_VIDEO_CodingAVC,
    ensures
        codec_named(crate::enc::format::spec_codec_mime(codec)@) == Some(codec),
{
    reveal_strlit("video/x-h264");
    reveal_strlit("video/x-h265");
    assert("video/x-h264"@[11] != "video/x-h265"@[11]);
}

/// Sets the decoder up for a codec.
pub enum DecSetFormat {
    Begin { codec: i32 },
    Init { codec: i32 },
}

impl DecoderState {
    /// Parser modes have to be set before the context is set up.
    pub open spec fn init_calls(self, codec: i32) -> Seq<Call> {
        (if self.api.control {
            seq![
                Call::Control { mpp: self.mpp, cmd: MPP_DEC_SET_PARSER_SPLIT_MODE, param: Param::I32(1) },
                Call::Control { mpp: self.mpp, cmd: MPP_DEC_SET_PARSER_FAST_MODE, param: Param::I32(1) },
            ]
        } else {
            Seq::empty()
        }) + seq![Call::Init { mpp: self.mpp, ctx_type: MPP_CTX_DEC, coding: codec }]
    }

    /// The commands that follow once the context is set up.
    pub open spec fn ready_calls(self) -> Seq<Call> {
        if self.api.control {
            seq![
                Call::Control { mpp: self.mpp, cmd: MPP_DEC_SET_DISABLE_ERROR, param: Param::Null },
                Call::Control { mpp: self.mpp, cmd: MPP_SET_OUTPUT_TIMEOUT, param: Param::I64(OUTPUT_TIMEOUT) },
            ]
        } else {
            Seq::empty()
        }
    }
}

impl Script for DecSetFormat {
    type State = DecoderState;

    type Out = Result<(), SetFormatError>;

    open spec fn next(self, state: DecoderState, reply: Reply) -> (DecoderState, SpecStep<Self, Self::Out>) {
        match self {
            DecSetFormat::Begin { codec } => (
                state,
                SpecStep::Calls(state.init_calls(codec), DecSetFormat::Init { codec }),
            ),
            DecSetFormat::Init { codec } => if reply.ret != MPP_OK {
                (state, SpecStep::Done(seq![], Err(SetFormatError::Init)))
            } else {
                (
                    DecoderState { codec, negotiated: false, ..state },
                    SpecStep::Done(state.ready_calls(), Ok(())),
                )
            },
        }
    }

    fn step(self, state: &mut DecoderState, reply: Reply) -> (step: Step<Self, Self::Out>) {
        let mpp = state.mpp;
        match self {
            DecSetFormat::Begin { codec } => {
                let modes = if state.api.control {
                    vec![
                        Call::Control { mpp, cmd: MPP_DEC_SET_PARSER_SPLIT_MODE, param: Param::I32(1) },
                        Call::Control { mpp, cmd: MPP_DEC_SET_PARSER_FAST_MODE, param: Param::I32(1) },
                    ]
                } else {
                    vec![]
                };
                let init = Call::Init { mpp, ctx_type: MPP_CTX_DEC, coding: codec };
                Step::Calls(join(modes, vec![init]), DecSetFormat::Init { codec })
            },
            DecSetFormat::Init { codec } => {
                if reply.ret != MPP_OK {
                    return Step::Done(vec![], Err(SetFormatError::Init));
                }
                let ready = if state.api.control {
                    vec![
                        Call::Control { mpp, cmd: MPP_DEC_SET_DISABLE_ERROR, param: Param::Null },
                        Call::Control { mpp, cmd: MPP_SET_OUTPUT_TIMEOUT, param: Param::I64(OUTPUT_TIMEOUT) },
                    ]
                } else {
                    vec![]
                };
                state.codec = codec;
                state.negotiated = false;
                Step::Done(ready, Ok(()))
            },
        }
    }
}

/// The calls that end the stream, given what came of making an empty packet.
pub open spec fn eos_calls(mpp: Mpp, api: MppApiStruct, reply: Reply) -> Seq<Call> {
    if reply.ret == MPP_OK {
        seq![Call::PacketSetEos(reply.handle)] + crate::call::when(
            api.decode_put_packet,
            Call::DecodePutPacket { mpp, packet: reply.handle },
        ) + seq![Call::PacketDeinit(reply.handle)]
    } else {
        Seq::empty()
    }
}

/// Ends the stream.
pub(crate) fn send_eos(mpp: Mpp, api: MppApiStruct, reply: Reply) -> (calls: Vec<Call>)
    ensures
        calls@ == eos_calls(mpp, api, reply),
{
    if reply.ret != MPP_OK {
        return vec![];
    }
    let packet = reply.handle;
    let put = call_when(api.decode_put_packet, Call::DecodePutPacket { mpp, packet });
    join(join(vec![Call::PacketSetEos(packet)], put), vec![Call::PacketDeinit(packet)])
}

/// Tears the decoder down: ends the stream, takes frames that are left, then destroys the context.
pub enum DecTeardown {
    Begin { dec: DecoderState },
    EosPacket { dec: DecoderState },
    Drain { dec: DecoderState, taken: u32 },
}

impl DecoderState {
    /// The calls that give the context back.
    pub open spec fn release_calls(self) -> Seq<Call> {
        crate::call::when(self.api.reset, Call::Reset(self.mpp)) + seq![Call::Destroy(self.mpp.ctx)]
    }

    fn release(&self) -> (calls: Vec<Call>)
        ensures
            calls@ == self.release_calls(),
    {
        join(call_when(self.api.reset, Call::Reset(self.mpp)), vec![Call::Destroy(self.mpp.ctx)])
    }
}

impl Script for DecTeardown {
    type State = ();

    type Out = ();

    open spec fn next(self, state: (), reply: Reply) -> ((), SpecStep<Self, ()>) {
        match self {
            DecTeardown::Begin { dec } => (
                (),
                SpecStep::Calls(seq![Call::PacketInit(PacketData::Empty)], DecTeardown::EosPacket { dec }),
            ),
            DecTeardown::EosPacket { dec } => {
                let eos = eos_calls(dec.mpp, dec.api, reply);
                if dec.api.decode_get_frame {
                    (
                        (),
                        SpecStep::Calls(
                            eos + seq![Call::DecodeGetFrame(dec.mpp)],
                            DecTeardown::Drain { dec, taken: 0 },
                        ),
                    )
                } else {
                    ((), SpecStep::Done(eos + dec.release_calls(), ()))
                }
            },
            DecTeardown::Drain { dec, taken } => if reply.ret != MPP_OK || reply.handle == NULL {
                ((), SpecStep::Done(dec.release_calls(), ()))
            } else if taken < TEARDOWN_POLLS - 1 {
                (
                    (),
                    SpecStep::Calls(
                        seq![Call::FrameDeinit(reply.handle), Call::DecodeGetFrame(dec.mpp)],
                        DecTeardown::Drain { dec, taken: (taken + 1) as u32 },
                    ),
                )
            } else {
                ((), SpecStep::Done(seq![Call::FrameDeinit(reply.handle)] + dec.release_calls(), ()))
            },
        }
    }

    fn step(self, state: &mut (), reply: Reply) -> (step: Step<Self, ()>) {
        match self {
            DecTeardown::Begin { dec } => Step::Calls(
                vec![Call::PacketInit(PacketData::Empty)],
                DecTeardown::EosPacket { dec },
            ),
            DecTeardown::EosPacket { dec } => {
                let eos = send_eos(dec.mpp, dec.api, reply);
                if dec.api.decode_get_frame {
                    let mpp = dec.mpp;
                    Step::Calls(
                        join(eos, vec![Call::DecodeGetFrame(mpp)]),
                        DecTeardown::Drain { dec, taken: 0 },
                    )
                } else {
                    Step::Done(join(eos, dec.release()), ())
                }
            },
            DecTeardown::Drain { dec, taken } => {
                let frame = reply.handle;
                if reply.ret != MPP_OK || frame == NULL {
                    Step::Done(dec.release(), ())
                } else if taken < TEARDOWN_POLLS - 1 {
                    let mpp = dec.mpp;
                    Step::Calls(
                        vec![Call::FrameDeinit(frame), Call::DecodeGetFrame(mpp)],
                        DecTeardown::Drain { dec, taken: taken + 1 },
                    )
                } else {
                    Step::Done(join(vec![Call::FrameDeinit(frame)], dec.release()), ())
                }
            },
        }
    }
}

} // verus!

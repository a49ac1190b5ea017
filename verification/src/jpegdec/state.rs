//! The running JPEG decoder: how it is started, set up for pictures of a size and given back.

use vstd::prelude::*;

use crate::call::{call_when, join, Call, Geometry, Param, Reply};
use crate::mpp_ffi::{
    mpp_align, mpp_buffer_group_get_internal, Mpp, MppApiStruct, MppBufferGroup, MPP_ALIGNMENT, MPP_BUFFER_INTERNAL,
    MPP_BUFFER_TYPE_DRM, MPP_CTX_DEC, MPP_DEC_SET_DISABLE_ERROR, MPP_OK, MPP_SET_OUTPUT_TIMEOUT,
    MPP_VIDEO_CodingMJPEG, NULL,
};
use crate::script::{Script, SpecStep, Step};

verus! {

/// How long the decoder waits for a picture, in milliseconds.
pub const OUTPUT_TIMEOUT: i64 = 200;

/// The size of the pictures where the caps do not give one.
pub const DEFAULT_WIDTH: i32 = 1920;

pub const DEFAULT_HEIGHT: i32 = 1080;

/// What the decoder holds while it runs.
#[derive(Debug, PartialEq, Eq)]
pub struct DecoderState {
    pub mpp: Mpp,
    pub api: MppApiStruct,
    pub geometry: Geometry,
    /// Bytes of an output buffer; 0 as long as no format is set.
    pub buf_size: usize,
    pub input_group: MppBufferGroup,
    pub buf_group: MppBufferGroup,
    pub negotiated: bool,
}

/// Makes the context of a decoder.
pub enum JpegStart {
    Begin,
    Created,
}

/// A context could not be made.
#[derive(Clone, Copy, PartialEq, Eq, Debug)]
pub struct CreateError;

impl Script for JpegStart {
    type State = ();

    type Out = Result<DecoderState, CreateError>;

    open spec fn next(self, state: (), reply: Reply) -> ((), SpecStep<Self, Self::Out>) {
        match self {
            JpegStart::Begin => ((), SpecStep::Calls(seq![Call::Create], JpegStart::Created)),
            JpegStart::Created => if reply.ret != MPP_OK {
                ((), SpecStep::Done(seq![], Err(CreateError)))
            } else {
                (
                    (),
                    SpecStep::Done(
                        seq![],
                        Ok(
                            DecoderState {
                                mpp: Mpp { ctx: reply.handle, mpi: reply.mpi },
                                api: reply.api,
                                geometry: Geometry { width: 0, height: 0, hor_stride: 0, ver_stride: 0 },
                                buf_size: 0,
                                input_group: NULL,
                                buf_group: NULL,
                                negotiated: false,
                            },
                        ),
                    ),
                )
            },
        }
    }

    fn step(self, state: &mut (), reply: Reply) -> (step: Step<Self, Self::Out>) {
        match self {
            JpegStart::Begin => Step::Calls(vec![Call::Create], JpegStart::Created),
            JpegStart::Created => {
                if reply.ret != MPP_OK {
                    return Step::Done(vec![], Err(CreateError));
                }
                let dec = DecoderState {
                    mpp: Mpp { ctx: reply.handle, mpi: reply.mpi },
                    api: reply.api,
                    geometry: Geometry { width: 0, height: 0, hor_stride: 0, ver_stride: 0 },
                    buf_size: 0,
                    input_group: NULL,
                    buf_group: NULL,
                    negotiated: false,
                };
                Step::Done(vec![], Ok(dec))
            },
        }
    }
}

/// The size of the pictures and the buffers that they need.
#[derive(Clone, Copy, PartialEq, Eq, Debug)]
pub struct JpegFormat {
    pub geometry: Geometry,
    pub buf_size: usize,
}

/// A side of the picture, or the default where the caps do not give it.
pub open spec fn side(given: Option<i32>, default: i32) -> u32 {
    match given {
        Some(side) => side as u32,
        None => default as u32,
    }
}

/// Whether the sizes stay within the machine's range.
pub open spec fn format_fits(width: Option<i32>, height: Option<i32>) -> bool {
    let w = side(width, DEFAULT_WIDTH);
    let h = side(height, DEFAULT_HEIGHT);
    &&& w + MPP_ALIGNMENT <= u32::MAX
    &&& h + MPP_ALIGNMENT <= u32::MAX
    &&& crate::enc::format::aligned(w) * crate::enc::format::aligned(h) * 2 <= usize::MAX
}

impl JpegFormat {
    /// Whether this is what follows from the caps. Two bytes for each pixel are enough for pictures
    /// that decode with more chroma than NV12 has.
    pub open spec fn follows(self, width: Option<i32>, height: Option<i32>) -> bool {
        let w = side(width, DEFAULT_WIDTH);
        let h = side(height, DEFAULT_HEIGHT);
        &&& self.geometry.width == w
        &&& self.geometry.height == h
        &&& self.geometry.hor_stride == crate::enc::format::aligned(w)
        &&& self.geometry.ver_stride == crate::enc::format::aligned(h)
        &&& self.buf_size == crate::enc::format::aligned(w) * crate::enc::format::aligned(h) * 2
    }

    fn side_or(given: Option<i32>, default: i32) -> (r: u32)
        ensures
            r == side(given, default),
    {
        match given {
            Some(side) => side as u32,
            None => default as u32,
        }
    }

    /// Tests whether the sizes stay within the machine's range.
    pub fn fits(width: Option<i32>, height: Option<i32>) -> (r: bool)
        ensures
            r == format_fits(width, height),
    {
        let w = JpegFormat::side_or(width, DEFAULT_WIDTH);
        let h = JpegFormat::side_or(height, DEFAULT_HEIGHT);
        if w > u32::MAX - MPP_ALIGNMENT || h > u32::MAX - MPP_ALIGNMENT {
            return false;
        }
        let hor_stride = mpp_align(w);
        let ver_stride = mpp_align(h);
        proof {
            crate::enc::format::lemma_aligned(w, hor_stride);
            crate::enc::format::lemma_aligned(h, ver_stride);
            assert(0 <= hor_stride * ver_stride <= 0xffff_ffff * 0xffff_ffff) by (nonlinear_arith)
                requires
                    0 <= hor_stride <= 0xffff_ffff,
                    0 <= ver_stride <= 0xffff_ffff,
            ;
        }
        hor_stride as u128 * ver_stride as u128 * 2 <= usize::MAX as u128
    }

    /// Derives the format.
    pub fn new(width: Option<i32>, height: Option<i32>) -> (format: JpegFormat)
        requires
            format_fits(width, height),
        ensures
            format.follows(width, height),
    {
        let width = JpegFormat::side_or(width, DEFAULT_WIDTH);
        let height = JpegFormat::side_or(height, DEFAULT_HEIGHT);
        let hor_stride = mpp_align(width);
        let ver_stride = mpp_align(height);
        proof {
            crate::enc::format::lemma_aligned(width, hor_stride);
            crate::enc::format::lemma_aligned(height, ver_stride);
            assert(0 <= hor_stride * ver_stride) by (nonlinear_arith)
                requires
                    0 <= hor_stride,
                    0 <= ver_stride,
            ;
        }
        let buf_size = (hor_stride as usize) * (ver_stride as usize) * 2;
        JpegFormat { geometry: Geometry { width, height, hor_stride, ver_stride }, buf_size }
    }
}

/// Why the decoder could not be set up.
#[derive(Clone, Copy, PartialEq, Eq, Debug)]
pub enum SetFormatError {
    NotStarted,
    NoCaps,
    NoStructure,
    Init,
    InputGroup,
    OutputGroup,
}

/// Sets the decoder up for pictures of a size: the context, then new buffer groups for input and
/// output.
pub enum JpegSetFormat {
    Begin { format: JpegFormat },
    Init { format: JpegFormat },
    InputGroup { format: JpegFormat },
    OutputGroup { format: JpegFormat },
}

/// The call for a new group, after the one before was given back.
pub open spec fn regroup_calls(group: MppBufferGroup) -> Seq<Call> {
    crate::call::when(group != NULL, Call::BufferGroupPut(group)) + seq![
        Call::BufferGroupGet { buf_type: MPP_BUFFER_TYPE_DRM, mode: MPP_BUFFER_INTERNAL },
    ]
}

fn regroup(group: MppBufferGroup) -> (calls: Vec<Call>)
    ensures
        calls@ == regroup_calls(group),
{
    join(
        call_when(group != NULL, Call::BufferGroupPut(group)),
        vec![mpp_buffer_group_get_internal(MPP_BUFFER_TYPE_DRM)],
    )
}

impl DecoderState {
    /// The commands that follow once the context is set up.
    pub open spec fn ready_calls(self) -> Seq<Call> {
        if self.api.control {
            seq![
                Call::Control { mpp: self.mpp, cmd: MPP_DEC_SET_DISABLE_ERROR, param: Param::Null },
                Call::Control { mpp: self.mpp, cmd: MPP_SET_OUTPUT_TIMEOUT, param: Param::I64(OUTPUT_TIMEOUT) },
            ]
        } else {
            Seq::empty()
        }
    }

    /// The calls that give back what the decoder holds.
    pub open spec fn release_calls(self) -> Seq<Call> {
        crate::call::when(self.api.reset, Call::Reset(self.mpp)) + crate::call::when(
            self.buf_group != NULL,
            Call::BufferGroupPut(self.buf_group),
        ) + crate::call::when(self.input_group != NULL, Call::BufferGroupPut(self.input_group)) + seq![
            Call::Destroy(self.mpp.ctx),
        ]
    }

    /// Gives back what the decoder holds.
    pub fn release(self) -> (calls: Vec<Call>)
        ensures
            calls@ == self.release_calls(),
    {
        let reset = call_when(self.api.reset, Call::Reset(self.mpp));
        let output = call_when(self.buf_group != NULL, Call::BufferGroupPut(self.buf_group));
        let input = call_when(self.input_group != NULL, Call::BufferGroupPut(self.input_group));
        join(join(join(reset, output), input), vec![Call::Destroy(self.mpp.ctx)])
    }
}

impl Script for JpegSetFormat {
    type State = DecoderState;

    type Out = Result<(), SetFormatError>;

    open spec fn next(self, state: DecoderState, reply: Reply) -> (DecoderState, SpecStep<Self, Self::Out>) {
        match self {
            JpegSetFormat::Begin { format } => (
                state,
                SpecStep::Calls(
                    seq![Call::Init { mpp: state.mpp, ctx_type: MPP_CTX_DEC, coding: MPP_VIDEO_CodingMJPEG }],
                    JpegSetFormat::Init { format },
                ),
            ),
            JpegSetFormat::Init { format } => if reply.ret != MPP_OK {
                (state, SpecStep::Done(seq![], Err(SetFormatError::Init)))
            } else {
                (
                    DecoderState { input_group: NULL, ..state },
                    SpecStep::Calls(
                        state.ready_calls() + regroup_calls(state.input_group),
                        JpegSetFormat::InputGroup { format },
                    ),
                )
            },
            JpegSetFormat::InputGroup { format } => {
                let grouped = DecoderState { input_group: reply.handle, ..state };
                if reply.ret != MPP_OK {
                    (grouped, SpecStep::Done(seq![], Err(SetFormatError::InputGroup)))
                } else {
                    (
                        DecoderState { buf_group: NULL, ..grouped },
                        SpecStep::Calls(
                            regroup_calls(state.buf_group),
                            JpegSetFormat::OutputGroup { format },
                        ),
                    )
                }
            },
            JpegSetFormat::OutputGroup { format } => {
                let grouped = DecoderState { buf_group: reply.handle, ..state };
                if reply.ret != MPP_OK {
                    (grouped, SpecStep::Done(seq![], Err(SetFormatError::OutputGroup)))
                } else {
                    (
                        DecoderState {
                            geometry: format.geometry,
                            buf_size: format.buf_size,
                            negotiated: false,
                            ..grouped
                        },
                        SpecStep::Done(seq![], Ok(())),
                    )
                }
            },
        }
    }

    fn step(self, state: &mut DecoderState, reply: Reply) -> (step: Step<Self, Self::Out>) {
        let mpp = state.mpp;
        match self {
            JpegSetFormat::Begin { format } => Step::Calls(
                vec![Call::Init { mpp, ctx_type: MPP_CTX_DEC, coding: MPP_VIDEO_CodingMJPEG }],
                JpegSetFormat::Init { format },
            ),
            JpegSetFormat::Init { format } => {
                if reply.ret != MPP_OK {
                    return Step::Done(vec![], Err(SetFormatError::Init));
                }
                let ready = if state.api.control {
                    vec![
                        Call::Control { mpp, cmd: MPP_DEC_SET_DISABLE_ERROR, param: Param::Null },
                        Call::Control { mpp, cmd: MPP_SET_OUTPUT_TIMEOUT, param: Param::I64(OUTPUT_TIMEOUT) },
                    ]
                } else {
                    vec![]
                };
                let group = regroup(state.input_group);
                state.input_group = NULL;
                Step::Calls(join(ready, group), JpegSetFormat::InputGroup { format })
            },
            JpegSetFormat::InputGroup { format } => {
                state.input_group = reply.handle;
                if reply.ret != MPP_OK {
                    return Step::Done(vec![], Err(SetFormatError::InputGroup));
                }
                let group = regroup(state.buf_group);
                state.buf_group = NULL;
                Step::Calls(group, JpegSetFormat::OutputGroup { format })
            },
            JpegSetFormat::OutputGroup { format } => {
                state.buf_group = reply.handle;
                if reply.ret != MPP_OK {
                    return Step::Done(vec![], Err(SetFormatError::OutputGroup));
                }
                state.geometry = format.geometry;
                state.buf_size = format.buf_size;
                state.negotiated = false;
                Step::Done(vec![], Ok(()))
            },
        }
    }
}

} // verus!

//! Plain-value picture of the Rockchip MPP interface: handles, command numbers and the records
//! that the scripts read.

#![allow(non_upper_case_globals)]

use vstd::prelude::*;

use crate::call::Call;

verus! {

/// Opaque handles of MPP and GStreamer objects. `NULL` is the null pointer.
pub type MppCtx = usize;

pub type MppApi = usize;

pub type MppFrame = usize;

pub type MppPacket = usize;

pub type MppBuffer = usize;

pub type MppBufferGroup = usize;

pub type MppEncCfg = usize;

pub type MppMeta = usize;

pub type MppTask = usize;

pub type GstAllocator = usize;

pub type GstMemory = usize;

pub type GstBuffer = usize;

pub type MppRet = i32;

pub const NULL: usize = 0;

pub const MPP_OK: MppRet = 0;

// Context types.
pub const MPP_CTX_DEC: i32 = 0;

pub const MPP_CTX_ENC: i32 = 1;

// Codec types.
pub const MPP_VIDEO_CodingUnused: i32 = 0;

pub const MPP_VIDEO_CodingAVC: i32 = 7;

pub const MPP_VIDEO_CodingMJPEG: i32 = 8;

pub const MPP_VIDEO_CodingHEVC: i32 = 0x0100_0004;

// Frame format: NV12.
pub const MPP_FMT_YUV420SP: i32 = 0;

// Buffer type: DRM.
pub const MPP_BUFFER_TYPE_DRM: i32 = 3;

// Control commands, module and context bits followed by the command's offset.
pub const MPP_SET_OUTPUT_TIMEOUT: u32 = 0x0020_0007;

pub const MPP_DEC_SET_INFO_CHANGE_READY: u32 = 0x0031_0003;

pub const MPP_DEC_SET_PARSER_SPLIT_MODE: u32 = 0x0031_0005;

pub const MPP_DEC_SET_PARSER_FAST_MODE: u32 = 0x0031_0006;

pub const MPP_DEC_SET_DISABLE_ERROR: u32 = 0x0031_000b;

pub const MPP_ENC_SET_CFG: u32 = 0x0032_0001;

pub const MPP_ENC_GET_CFG: u32 = 0x0032_0002;

pub const MPP_ENC_SET_HEADER_MODE: u32 = 0x0032_8001;

pub const MPP_ENC_SET_SEI_CFG: u32 = 0x0032_000f;

// Rate control mode: constant bitrate.
pub const MPP_ENC_RC_MODE_CBR: i32 = 1;

// Stream headers are repeated with each IDR frame.
pub const MPP_ENC_HEADER_MODE_EACH_IDR: i32 = 1;

pub const MPP_ENC_SEI_MODE_DISABLE: i32 = 0;

// Who allocates a buffer group's memory.
pub const MPP_BUFFER_INTERNAL: i32 = 0;

pub const MPP_BUFFER_EXTERNAL: i32 = 1;

/// The pixel alignment that the hardware wants of strides.
pub const MPP_ALIGNMENT: u32 = 16;

/// Which entries of the function table that comes with a context are present.
#[derive(Clone, Copy, PartialEq, Eq, Debug)]
pub struct MppApiStruct {
    pub decode_put_packet: bool,
    pub decode_get_frame: bool,
    pub encode_put_frame: bool,
    pub encode_get_packet: bool,
    pub poll: bool,
    pub dequeue: bool,
    pub enqueue: bool,
    pub reset: bool,
    pub control: bool,
}

/// A context and the function table that belongs to it.
#[derive(Clone, Copy, PartialEq, Eq, Debug)]
pub struct Mpp {
    pub ctx: MppCtx,
    pub mpi: MppApi,
}

/// Description of a buffer that is to be imported into a group.
#[derive(Clone, Copy, PartialEq, Eq, Debug)]
pub struct MppBufferInfo {
    pub buf_type: i32,
    pub size: usize,
    pub ptr: usize,
    pub hnd: usize,
    pub fd: i32,
    pub index: i32,
}

impl Default for MppBufferInfo {
    /// An empty description of a DRM buffer, without descriptor or index.
    fn default() -> (info: MppBufferInfo)
        ensures
            info == (MppBufferInfo {
                buf_type: MPP_BUFFER_TYPE_DRM,
                size: 0,
                ptr: NULL,
                hnd: NULL,
                fd: (-1) as i32,
                index: (-1) as i32,
            }),
    {
        MppBufferInfo { buf_type: MPP_BUFFER_TYPE_DRM, size: 0, ptr: NULL, hnd: NULL, fd: -1, index: -1 }
    }
}

/// What the getters of a decoded frame say of it.
#[derive(Clone, Copy, PartialEq, Eq, Debug)]
pub struct FrameInfo {
    pub eos: u32,
    pub info_change: u32,
    pub errinfo: u32,
    pub discard: u32,
    pub width: u32,
    pub height: u32,
    pub hor_stride: u32,
    pub ver_stride: u32,
    pub buffer: MppBuffer,
}

/// Commands, codecs and modes are told apart by their numbers, and the commands of the decoder and of the encoder
/// lie in the ranges of their own.
pub proof fn law_numbers_are_told_apart()
    ensures
        MPP_SET_OUTPUT_TIMEOUT / 0x1_0000 == 0x20,
        MPP_DEC_SET_INFO_CHANGE_READY / 0x1_0000 == 0x31,
        MPP_DEC_SET_PARSER_SPLIT_MODE / 0x1_0000 == 0x31,
        MPP_DEC_SET_PARSER_FAST_MODE / 0x1_0000 == 0x31,
        MPP_DEC_SET_DISABLE_ERROR / 0x1_0000 == 0x31,
        MPP_ENC_SET_CFG / 0x1_0000 == 0x32,
        MPP_ENC_GET_CFG / 0x1_0000 == 0x32,
        MPP_ENC_SET_HEADER_MODE / 0x1_0000 == 0x32,
        MPP_ENC_SET_SEI_CFG / 0x1_0000 == 0x32,
        MPP_DEC_SET_INFO_CHANGE_READY < MPP_DEC_SET_PARSER_SPLIT_MODE < MPP_DEC_SET_PARSER_FAST_MODE
            < MPP_DEC_SET_DISABLE_ERROR,
        MPP_ENC_SET_CFG < MPP_ENC_GET_CFG < MPP_ENC_SET_SEI_CFG < MPP_ENC_SET_HEADER_MODE,
        MPP_VIDEO_CodingUnused < MPP_VIDEO_CodingAVC < MPP_VIDEO_CodingMJPEG < MPP_VIDEO_CodingHEVC,
        MPP_CTX_DEC != MPP_CTX_ENC,
        MPP_BUFFER_INTERNAL != MPP_BUFFER_EXTERNAL,
        NULL == 0 && MPP_OK == 0,
{
}

/// Whether `r` is the smallest multiple of `unit` that is not below `v`.
pub open spec fn is_aligned_up(v: int, unit: int, r: int) -> bool {
    &&& r % unit == 0
    &&& v <= r < v + unit
}

/// Rounds `v` up to the stride alignment.
pub fn mpp_align(v: u32) -> (r: u32)
    requires
        v + MPP_ALIGNMENT <= u32::MAX,
    ensures
        is_aligned_up(v as int, MPP_ALIGNMENT as int, r as int),
{
    assert(forall|x: u32|
        #![trigger x & !15u32]
        (x & !15u32) % 16 == 0 && (x & !15u32) <= x && x - (x & !15u32) < 16) by (bit_vector);
    (v + MPP_ALIGNMENT - 1) & !(MPP_ALIGNMENT - 1)
}

/// The alignment of `v` is one value: whatever is the smallest multiple not below `v` is the same.
pub proof fn law_aligned_up_unique(v: int, unit: int, r: int, s: int)
    requires
        unit > 0,
        is_aligned_up(v, unit, r),
        is_aligned_up(v, unit, s),
    ensures
        r == s,
{
    vstd::arithmetic::div_mod::lemma_fundamental_div_mod(r, unit);
    vstd::arithmetic::div_mod::lemma_fundamental_div_mod(s, unit);
    let a = r / unit;
    let b = s / unit;
    assert(r - s == unit * (a - b)) by (nonlinear_arith)
        requires
            r == unit * a,
            s == unit * b,
    ;
    assert(a == b) by (nonlinear_arith)
        requires
            -unit < unit * (a - b) < unit,
            unit > 0,
    ;
}

/// What aligning means: the next multiple, and no further than one unit away.
pub proof fn law_aligned_up_is_next(v: int, unit: int, r: int)
    requires
        unit > 0,
        is_aligned_up(v, unit, r),
    ensures
        r % unit == 0,
        v <= r < v + unit,
        v % unit == 0 ==> r == v,
{
    if v % unit == 0 {
        law_aligned_up_unique(v, unit, r, v);
    }
}

/// Aligning changes nothing of a value that is aligned already.
pub proof fn law_align_idempotent(v: int, unit: int, r: int, s: int)
    requires
        unit > 0,
        is_aligned_up(v, unit, r),
        is_aligned_up(r, unit, s),
    ensures
        s == r,
{
    law_aligned_up_unique(r, unit, s, r);
}

/// Aligning keeps the order of two values.
pub proof fn law_align_monotone(v: int, w: int, unit: int, r: int, s: int)
    requires
        unit > 0,
        v <= w,
        is_aligned_up(v, unit, r),
        is_aligned_up(w, unit, s),
    ensures
        r <= s,
{
    if s < r {
        law_aligned_up_unique(v, unit, r, s);
    }
}

/// Asks for a group whose buffers MPP allocates itself.
pub fn mpp_buffer_group_get_internal(buf_type: i32) -> (call: Call)
    ensures
        call == (Call::BufferGroupGet { buf_type, mode: MPP_BUFFER_INTERNAL }),
{
    Call::BufferGroupGet { buf_type, mode: MPP_BUFFER_INTERNAL }
}

/// Asks for a group whose buffers are brought in from outside.
pub fn mpp_buffer_group_get_external(buf_type: i32) -> (call: Call)
    ensures
        call == (Call::BufferGroupGet { buf_type, mode: MPP_BUFFER_EXTERNAL }),
{
    Call::BufferGroupGet { buf_type, mode: MPP_BUFFER_EXTERNAL }
}

} // verus!

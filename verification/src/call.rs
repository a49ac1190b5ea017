//! The vocabulary between the scripts and the outside: the calls that scripts ask for and the
//! replies that they get.

use vstd::prelude::*;

use crate::mpp_ffi::{
    FrameInfo, GstAllocator, GstBuffer, GstMemory, Mpp, MppApiStruct, MppBuffer, MppBufferGroup, MppBufferInfo,
    MppCtx, MppEncCfg, MppFrame, MppMeta, MppPacket, MppTask, MPP_OK, NULL,
};

verus! {

/// The argument of a control command.
#[derive(Clone, Copy, PartialEq, Eq, Debug)]
pub enum Param {
    Null,
    I32(i32),
    I64(i64),
    Handle(usize),
}

/// The two task queues of a context.
#[derive(Clone, Copy, PartialEq, Eq, Debug)]
pub enum Port {
    Input,
    Output,
}

/// Keys of the meta data that tasks and frames carry.
#[derive(Clone, Copy, PartialEq, Eq, Debug)]
pub enum MetaKey {
    InputPacket,
    OutputFrame,
}

/// Where a new packet takes its bytes from.
#[derive(Clone, Copy, PartialEq, Eq, Debug)]
pub enum PacketData {
    Empty,
    /// The input buffer that is mapped.
    Input,
}

/// The size of a picture and the layout of the memory that holds it.
#[derive(Clone, Copy, PartialEq, Eq, Debug)]
pub struct Geometry {
    pub width: u32,
    pub height: u32,
    pub hor_stride: u32,
    pub ver_stride: u32,
}

/// One call into MPP, GStreamer or the system.
#[allow(inconsistent_fields)]
#[derive(Clone, Copy, PartialEq, Eq, Debug)]
pub enum Call {
    // Contexts. `Create` replies with `ret`, the context in `handle`, its table in `mpi` and `api`.
    Create,
    Init { mpp: Mpp, ctx_type: i32, coding: i32 },
    Destroy(MppCtx),
    Reset(Mpp),
    Control { mpp: Mpp, cmd: u32, param: Param },
    // Frames.
    FrameInit,
    FrameDeinit(MppFrame),
    FrameSetWidth { frame: MppFrame, width: u32 },
    FrameSetHeight { frame: MppFrame, height: u32 },
    FrameSetHorStride { frame: MppFrame, stride: u32 },
    FrameSetVerStride { frame: MppFrame, stride: u32 },
    FrameSetFmt { frame: MppFrame, fmt: i32 },
    FrameSetBuffer { frame: MppFrame, buffer: MppBuffer },
    FrameSetPts { frame: MppFrame, pts: i64 },
    FrameSetEos { frame: MppFrame, eos: u32 },
    /// Replies with what the frame's getters say, in `info`.
    FrameInspect(MppFrame),
    FrameGetMeta(MppFrame),
    // Packets.
    PacketInit(PacketData),
    PacketInitWithBuffer(MppBuffer),
    PacketDeinit(MppPacket),
    PacketSetPts { packet: MppPacket, pts: i64 },
    PacketSetEos(MppPacket),
    PacketSetLength { packet: MppPacket, length: usize },
    /// Replies with the packet's buffer in `handle` and its length in `size`.
    PacketInspect(MppPacket),
    // Encoder configuration.
    EncCfgInit,
    EncCfgDeinit(MppEncCfg),
    EncCfgSetS32 { cfg: MppEncCfg, key: &'static str, value: i32 },
    EncCfgSetU32 { cfg: MppEncCfg, key: &'static str, value: u32 },
    // Coding.
    EncodePutFrame { mpp: Mpp, frame: MppFrame },
    EncodeGetPacket(Mpp),
    DecodePutPacket { mpp: Mpp, packet: MppPacket },
    DecodeGetFrame(Mpp),
    // Tasks.
    Poll { mpp: Mpp, port: Port },
    Dequeue { mpp: Mpp, port: Port },
    Enqueue { mpp: Mpp, port: Port, task: MppTask },
    TaskMetaSetPacket { task: MppTask, key: MetaKey, packet: MppPacket },
    TaskMetaSetFrame { task: MppTask, key: MetaKey, frame: MppFrame },
    TaskMetaGetFrame { task: MppTask, key: MetaKey },
    MetaSetPacket { meta: MppMeta, key: MetaKey, packet: MppPacket },
    MetaGetPacket { meta: MppMeta, key: MetaKey },
    // Buffers. A descriptor or an index comes back in `ret`.
    BufferGroupGet { buf_type: i32, mode: i32 },
    BufferGroupPut(MppBufferGroup),
    BufferGroupClear(MppBufferGroup),
    BufferGet { group: MppBufferGroup, size: usize },
    BufferPut(MppBuffer),
    BufferIncRef(MppBuffer),
    BufferGetFd(MppBuffer),
    BufferSetIndex { buffer: MppBuffer, index: i32 },
    BufferImport { group: MppBufferGroup, info: MppBufferInfo },
    // DMA memory.
    DmabufAllocatorNew,
    ObjectUnref(GstAllocator),
    Dup(i32),
    Close(i32),
    /// Wraps a descriptor as memory that stays mapped.
    FdAllocatorAlloc { allocator: GstAllocator, fd: i32, size: usize },
    /// Ties a guard of the buffer to the memory's lifetime.
    MemorySetGuard { memory: GstMemory, buffer: MppBuffer },
    // Picture data. A copy replies with the new GStreamer buffer in `handle`, `NULL` if it failed.
    /// Replies with the input buffer in `handle`, `NULL` if there is none.
    InputBuffer,
    /// Maps the input buffer for reading; `ret` is not zero where there is none or it fails.
    MapInput,
    CopyInput { input: GstBuffer, target: MppBuffer, geometry: Geometry },
    CopyToBuffer { buffer: MppBuffer, length: usize },
    CopyPacket { buffer: MppBuffer, length: usize },
    NewEmptyBuffer,
    CopyDecoded { buffer: MppBuffer, geometry: Geometry },
    // The element.
    DropBuffer(GstBuffer),
    OldestFrame,
    SetOutputBuffer { frame: usize, buffer: GstBuffer },
    FinishFrame(usize),
    /// Gives a buffer to the frame that is being handled.
    SetFrameOutput(GstBuffer),
    /// Finishes the frame that is being handled.
    FinishThisFrame,
    /// Runs the script that announces pictures of this size.
    NegotiateOutput { width: u32, height: u32 },
    /// Prepares the output of NV12 pictures of this size.
    SetPictureState { width: u32, height: u32 },
    SetOutputState { mime: &'static str, width: u32, height: u32 },
    Negotiate,
    /// Runs the script that fetches one decoded frame; its result comes back in `frame`.
    TryGetOneFrame,
    /// Runs the script that hands one picture downstream.
    FinishOneFrame(GstBuffer),
    // Time.
    SleepMillis(u64),
    /// Replies with a monotonic time in nanoseconds, in `clock`.
    Now,
}

/// What came of an attempt to fetch one decoded frame.
#[derive(Clone, Copy, PartialEq, Eq, Debug)]
pub enum FrameResult {
    Frame(GstBuffer),
    Eos,
    TryAgain,
    Skip,
}

/// The reply to a call. Fields that the call does not speak of are left as in `Reply::none()`.
#[derive(Clone, Copy, PartialEq, Eq, Debug)]
pub struct Reply {
    /// Status, descriptor or index.
    pub ret: i32,
    /// Pointer that the call returned or wrote.
    pub handle: usize,
    pub mpi: usize,
    pub size: usize,
    pub clock: u64,
    pub api: MppApiStruct,
    pub info: FrameInfo,
    pub frame: FrameResult,
}

impl Reply {
    /// The reply that says nothing: status `MPP_OK`, no pointers.
    pub open spec fn spec_none() -> Reply {
        Reply {
            ret: MPP_OK,
            handle: NULL,
            mpi: NULL,
            size: 0,
            clock: 0,
            api: MppApiStruct {
                decode_put_packet: false,
                decode_get_frame: false,
                encode_put_frame: false,
                encode_get_packet: false,
                poll: false,
                dequeue: false,
                enqueue: false,
                reset: false,
                control: false,
            },
            info: FrameInfo {
                eos: 0,
                info_change: 0,
                errinfo: 0,
                discard: 0,
                width: 0,
                height: 0,
                hor_stride: 0,
                ver_stride: 0,
                buffer: NULL,
            },
            frame: FrameResult::TryAgain,
        }
    }

    pub fn none() -> (reply: Reply)
        ensures
            reply == Reply::spec_none(),
    {
        Reply {
            ret: MPP_OK,
            handle: NULL,
            mpi: NULL,
            size: 0,
            clock: 0,
            api: MppApiStruct {
                decode_put_packet: false,
                decode_get_frame: false,
                encode_put_frame: false,
                encode_get_packet: false,
                poll: false,
                dequeue: false,
                enqueue: false,
                reset: false,
                control: false,
            },
            info: FrameInfo {
                eos: 0,
                info_change: 0,
                errinfo: 0,
                discard: 0,
                width: 0,
                height: 0,
                hor_stride: 0,
                ver_stride: 0,
                buffer: NULL,
            },
            frame: FrameResult::TryAgain,
        }
    }
}

/// What a frame handler answers to GStreamer.
#[derive(Clone, Copy, PartialEq, Eq, Debug)]
pub enum Flow {
    Success,
    NotNegotiated,
    Error,
    /// The flow code that handing the frame downstream returned.
    Downstream(i32),
}

/// A sequence of one call, or of none.
pub open spec fn when(cond: bool, call: Call) -> Seq<Call> {
    if cond {
        seq![call]
    } else {
        Seq::empty()
    }
}

/// The list of `call` alone where `cond` holds, else the empty list.
pub fn call_when(cond: bool, call: Call) -> (calls: Vec<Call>)
    ensures
        calls@ == when(cond, call),
{
    if cond {
        vec![call]
    } else {
        vec![]
    }
}

/// One list of calls after the other.
pub fn join(first: Vec<Call>, second: Vec<Call>) -> (calls: Vec<Call>)
    ensures
        calls@ == first@ + second@,
{
    let mut calls = first;
    let mut rest = second;
    calls.append(&mut rest);
    calls
}

/// The reply that says nothing reports success and hands nothing out.
pub proof fn law_silent_reply()
    ensures
        ({
            let reply = Reply::spec_none();
            &&& reply.ret == MPP_OK
            &&& reply.handle == NULL && reply.mpi == NULL && reply.size == 0 && reply.clock == 0
            &&& !reply.api.control && !reply.api.reset && !reply.api.poll
            &&& reply.info.buffer == NULL && reply.info.eos == 0 && reply.info.errinfo == 0
            &&& !(reply.frame is Frame)
        }),
{
}

} // verus!

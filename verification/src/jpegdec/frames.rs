//! The way of a picture through the JPEG decoder.
//!
//! Packet and output frame travel together in a task: the task is taken from the input queue,
//! filled and put back, then taken from the output queue with the decoded frame in it and put back
//! again.

use vstd::prelude::*;

use crate::call::{call_when, join, Call, Flow, Geometry, MetaKey, Port, Reply};
use crate::jpegdec::state::DecoderState;
use crate::mpp_ffi::{GstBuffer, MppBuffer, MppFrame, MppPacket, MppTask, MPP_OK, NULL};
use crate::output::{Entry, NegotiateOutput};
use crate::script::{Script, SpecStep, Step};

verus! {

/// A decoded picture: its frame, and the buffer that the frame holds.
#[derive(Clone, Copy, PartialEq, Eq, Debug)]
pub struct Picture {
    pub frame: MppFrame,
    pub buffer: MppBuffer,
}

/// What came of decoding a picture.
#[derive(Clone, Copy, PartialEq, Eq, Debug)]
pub enum Decoded {
    /// There is nothing to hand on.
    Answer(Flow),
    /// A picture of the size that was announced is there.
    Ready(Picture),
    /// A picture of a new size is there. The size is announced first, with the state unlocked.
    NewSize(AnnouncePicture),
}

impl Decoded {
    /// The picture that is there.
    pub open spec fn picture(self) -> Option<Picture> {
        match self {
            Decoded::Answer(_) => None,
            Decoded::Ready(picture) => Some(picture),
            Decoded::NewSize(script) => Some(script.picture),
        }
    }
}

/// Announces the size of a picture; the picture is then copied out.
#[derive(Clone, Copy, PartialEq, Eq, Debug)]
pub struct AnnouncePicture {
    pub script: NegotiateOutput,
    pub picture: Picture,
}

impl Script for AnnouncePicture {
    type State = ();

    type Out = Picture;

    open spec fn next(self, state: (), reply: Reply) -> ((), SpecStep<Self, Picture>) {
        let (_, step) = self.script.next((), reply);
        match step {
            SpecStep::Calls(calls, script) => (
                (),
                SpecStep::Calls(calls, AnnouncePicture { script, picture: self.picture }),
            ),
            SpecStep::Done(calls, _) => ((), SpecStep::Done(calls, self.picture)),
        }
    }

    fn step(self, state: &mut (), reply: Reply) -> (step: Step<Self, Picture>) {
        match self.script.step(state, reply) {
            Step::Calls(calls, script) => Step::Calls(calls, AnnouncePicture { script, picture: self.picture }),
            Step::Done(calls, _) => Step::Done(calls, self.picture),
        }
    }
}

/// Decodes one picture.
pub enum JpegDecode {
    Begin { length: usize },
    InputBuffer { length: usize },
    Packet { length: usize, buffer: MppBuffer },
    PollInput { packet: MppPacket },
    DequeueInput { packet: MppPacket },
    OutputBuffer { packet: MppPacket, task: MppTask },
    OutputFrame { packet: MppPacket, task: MppTask, buffer: MppBuffer },
    FrameMeta { packet: MppPacket, task: MppTask, frame: MppFrame },
    EnqueueInput { packet: MppPacket, frame: MppFrame },
    PollOutput { packet: MppPacket },
    DequeueOutput { packet: MppPacket },
    TaskFrame { task: MppTask },
    DecodedMeta { task: MppTask, frame: MppFrame },
    MetaPacket { task: MppTask, frame: MppFrame },
    Inspected { frame: MppFrame },
}

impl DecoderState {
    /// The state once size and layout of the pictures are taken from a frame.
    pub open spec fn sized(self, info: crate::mpp_ffi::FrameInfo) -> DecoderState {
        DecoderState { geometry: crate::dec::frames::reported(info), negotiated: true, ..self }
    }

    /// Whether a frame of this size needs the output to be negotiated.
    pub open spec fn needs_negotiation(self, info: crate::mpp_ffi::FrameInfo) -> bool {
        !self.negotiated || info.width != self.geometry.width || info.height != self.geometry.height
    }
}

impl Script for JpegDecode {
    type State = DecoderState;

    type Out = Decoded;

    open spec fn next(self, state: DecoderState, reply: Reply) -> (DecoderState, SpecStep<Self, Decoded>) {
        let mpp = state.mpp;
        let error = Decoded::Answer(Flow::Error);
        let nothing = Decoded::Answer(Flow::Success);
        match self {
            JpegDecode::Begin { length } => (
                state,
                SpecStep::Calls(
                    seq![Call::BufferGet { group: state.input_group, size: length }],
                    JpegDecode::InputBuffer { length },
                ),
            ),
            JpegDecode::InputBuffer { length } => if reply.ret != MPP_OK {
                (state, SpecStep::Done(seq![], error))
            } else {
                (
                    state,
                    SpecStep::Calls(
                        seq![
                            Call::CopyToBuffer { buffer: reply.handle, length },
                            Call::PacketInitWithBuffer(reply.handle),
                        ],
                        JpegDecode::Packet { length, buffer: reply.handle },
                    ),
                )
            },
            JpegDecode::Packet { length, buffer } => if reply.ret != MPP_OK {
                (state, SpecStep::Done(seq![Call::BufferPut(buffer)], error))
            } else {
                let packet = reply.handle;
                let filled = seq![Call::PacketSetLength { packet, length }, Call::BufferPut(buffer)];
                if state.api.poll && state.api.dequeue && state.api.enqueue {
                    (
                        state,
                        SpecStep::Calls(
                            filled + seq![Call::Poll { mpp, port: Port::Input }],
                            JpegDecode::PollInput { packet },
                        ),
                    )
                } else {
                    (state, SpecStep::Done(filled, error))
                }
            },
            JpegDecode::PollInput { packet } => if reply.ret != MPP_OK {
                (state, SpecStep::Done(seq![Call::PacketDeinit(packet)], error))
            } else {
                (
                    state,
                    SpecStep::Calls(
                        seq![Call::Dequeue { mpp, port: Port::Input }],
                        JpegDecode::DequeueInput { packet },
                    ),
                )
            },
            JpegDecode::DequeueInput { packet } => if reply.ret != MPP_OK || reply.handle == NULL {
                (state, SpecStep::Done(seq![Call::PacketDeinit(packet)], error))
            } else {
                let task = reply.handle;
                (
                    state,
                    SpecStep::Calls(
                        seq![
                            Call::TaskMetaSetPacket { task, key: MetaKey::InputPacket, packet },
                            Call::BufferGet { group: state.buf_group, size: state.buf_size },
                        ],
                        JpegDecode::OutputBuffer { packet, task },
                    ),
                )
            },
            JpegDecode::OutputBuffer { packet, task } => if reply.ret != MPP_OK {
                (state, SpecStep::Done(seq![Call::PacketDeinit(packet)], error))
            } else {
                (
                    state,
                    SpecStep::Calls(
                        seq![Call::FrameInit],
                        JpegDecode::OutputFrame { packet, task, buffer: reply.handle },
                    ),
                )
            },
            JpegDecode::OutputFrame { packet, task, buffer } => {
                let frame = reply.handle;
                (
                    state,
                    SpecStep::Calls(
                        seq![
                            Call::FrameSetBuffer { frame, buffer },
                            Call::BufferPut(buffer),
                            Call::FrameGetMeta(frame),
                        ],
                        JpegDecode::FrameMeta { packet, task, frame },
                    ),
                )
            },
            JpegDecode::FrameMeta { packet, task, frame } => (
                state,
                SpecStep::Calls(
                    crate::call::when(
                        reply.handle != NULL,
                        Call::MetaSetPacket { meta: reply.handle, key: MetaKey::InputPacket, packet },
                    ) + seq![
                        Call::TaskMetaSetFrame { task, key: MetaKey::OutputFrame, frame },
                        Call::Enqueue { mpp, port: Port::Input, task },
                    ],
                    JpegDecode::EnqueueInput { packet, frame },
                ),
            ),
            JpegDecode::EnqueueInput { packet, frame } => if reply.ret != MPP_OK {
                (
                    state,
                    SpecStep::Done(seq![Call::FrameDeinit(frame), Call::PacketDeinit(packet)], error),
                )
            } else {
                (
                    state,
                    SpecStep::Calls(
                        seq![Call::Poll { mpp, port: Port::Output }],
                        JpegDecode::PollOutput { packet },
                    ),
                )
            },
            JpegDecode::PollOutput { packet } => if reply.ret != MPP_OK {
                (state, SpecStep::Done(seq![Call::PacketDeinit(packet)], error))
            } else {
                (
                    state,
                    SpecStep::Calls(
                        seq![Call::Dequeue { mpp, port: Port::Output }],
                        JpegDecode::DequeueOutput { packet },
                    ),
                )
            },
            JpegDecode::DequeueOutput { packet } => if reply.ret != MPP_OK || reply.handle == NULL {
                (state, SpecStep::Done(seq![Call::PacketDeinit(packet)], error))
            } else {
                (
                    state,
                    SpecStep::Calls(
                        seq![Call::TaskMetaGetFrame { task: reply.handle, key: MetaKey::OutputFrame }],
                        JpegDecode::TaskFrame { task: reply.handle },
                    ),
                )
            },
            JpegDecode::TaskFrame { task } => if reply.handle == NULL {
                (state, SpecStep::Done(seq![Call::Enqueue { mpp, port: Port::Output, task }], nothing))
            } else {
                (
                    state,
                    SpecStep::Calls(
                        seq![Call::FrameGetMeta(reply.handle)],
                        JpegDecode::DecodedMeta { task, frame: reply.handle },
                    ),
                )
            },
            JpegDecode::DecodedMeta { task, frame } => if reply.handle != NULL {
                (
                    state,
                    SpecStep::Calls(
                        seq![Call::MetaGetPacket { meta: reply.handle, key: MetaKey::InputPacket }],
                        JpegDecode::MetaPacket { task, frame },
                    ),
                )
            } else {
                (
                    state,
                    SpecStep::Calls(
                        seq![Call::Enqueue { mpp, port: Port::Output, task }, Call::FrameInspect(frame)],
                        JpegDecode::Inspected { frame },
                    ),
                )
            },
            JpegDecode::MetaPacket { task, frame } => (
                state,
                SpecStep::Calls(
                    crate::call::when(reply.handle != NULL, Call::PacketDeinit(reply.handle)) + seq![
                        Call::Enqueue { mpp, port: Port::Output, task },
                        Call::FrameInspect(frame),
                    ],
                    JpegDecode::Inspected { frame },
                ),
            ),
            JpegDecode::Inspected { frame } => {
                let info = reply.info;
                if info.errinfo != 0 || info.discard != 0 {
                    (state, SpecStep::Done(seq![Call::FrameDeinit(frame)], nothing))
                } else {
                    let picture = Picture { frame, buffer: info.buffer };
                    let script = NegotiateOutput::Begin { width: info.width, height: info.height };
                    (
                        state.sized(info),
                        SpecStep::Done(
                            seq![],
                            if state.needs_negotiation(info) {
                                Decoded::NewSize(AnnouncePicture { script, picture })
                            } else {
                                Decoded::Ready(picture)
                            },
                        ),
                    )
                }
            },
        }
    }

    fn step(self, state: &mut DecoderState, reply: Reply) -> (step: Step<Self, Decoded>) {
        let mpp = state.mpp;
        let error = Decoded::Answer(Flow::Error);
        let nothing = Decoded::Answer(Flow::Success);
        let ok = reply.ret == MPP_OK;
        let handle = reply.handle;
        match self {
            JpegDecode::Begin { length } => Step::Calls(
                vec![Call::BufferGet { group: state.input_group, size: length }],
                JpegDecode::InputBuffer { length },
            ),
            JpegDecode::InputBuffer { length } => {
                if !ok {
                    return Step::Done(vec![], error);
                }
                let buffer = handle;
                Step::Calls(
                    vec![Call::CopyToBuffer { buffer, length }, Call::PacketInitWithBuffer(buffer)],
                    JpegDecode::Packet { length, buffer },
                )
            },
            JpegDecode::Packet { length, buffer } => {
                if !ok {
                    return Step::Done(vec![Call::BufferPut(buffer)], error);
                }
                let packet = handle;
                let filled = vec![Call::PacketSetLength { packet, length }, Call::BufferPut(buffer)];
                if !state.api.poll || !state.api.dequeue || !state.api.enqueue {
                    return Step::Done(filled, error);
                }
                Step::Calls(
                    join(filled, vec![Call::Poll { mpp, port: Port::Input }]),
                    JpegDecode::PollInput { packet },
                )
            },
            JpegDecode::PollInput { packet } => {
                if !ok {
                    return Step::Done(vec![Call::PacketDeinit(packet)], error);
                }
                Step::Calls(
                    vec![Call::Dequeue { mpp, port: Port::Input }],
                    JpegDecode::DequeueInput { packet },
                )
            },
            JpegDecode::DequeueInput { packet } => {
                let task = handle;
                if !ok || task == NULL {
                    return Step::Done(vec![Call::PacketDeinit(packet)], error);
                }
                Step::Calls(
                    vec![
                        Call::TaskMetaSetPacket { task, key: MetaKey::InputPacket, packet },
                        Call::BufferGet { group: state.buf_group, size: state.buf_size },
                    ],
                    JpegDecode::OutputBuffer { packet, task },
                )
            },
            JpegDecode::OutputBuffer { packet, task } => {
                if !ok {
                    return Step::Done(vec![Call::PacketDeinit(packet)], error);
                }
                Step::Calls(vec![Call::FrameInit], JpegDecode::OutputFrame { packet, task, buffer: handle })
            },
            JpegDecode::OutputFrame { packet, task, buffer } => {
                let frame = handle;
                Step::Calls(
                    vec![
                        Call::FrameSetBuffer { frame, buffer },
                        Call::BufferPut(buffer),
                        Call::FrameGetMeta(frame),
                    ],
                    JpegDecode::FrameMeta { packet, task, frame },
                )
            },
            JpegDecode::FrameMeta { packet, task, frame } => {
                let meta = handle;
                let link = call_when(
                    meta != NULL,
                    Call::MetaSetPacket { meta, key: MetaKey::InputPacket, packet },
                );
                Step::Calls(
                    join(
                        link,
                        vec![
                            Call::TaskMetaSetFrame { task, key: MetaKey::OutputFrame, frame },
                            Call::Enqueue { mpp, port: Port::Input, task },
                        ],
                    ),
                    JpegDecode::EnqueueInput { packet, frame },
                )
            },
            JpegDecode::EnqueueInput { packet, frame } => {
                if !ok {
                    return Step::Done(vec![Call::FrameDeinit(frame), Call::PacketDeinit(packet)], error);
                }
                Step::Calls(vec![Call::Poll { mpp, port: Port::Output }], JpegDecode::PollOutput { packet })
            },
            JpegDecode::PollOutput { packet } => {
                if !ok {
                    return Step::Done(vec![Call::PacketDeinit(packet)], error);
                }
                Step::Calls(
                    vec![Call::Dequeue { mpp, port: Port::Output }],
                    JpegDecode::DequeueOutput { packet },
                )
            },
            JpegDecode::DequeueOutput { packet } => {
                let task = handle;
                if !ok || task == NULL {
                    return Step::Done(vec![Call::PacketDeinit(packet)], error);
                }
                Step::Calls(
                    vec![Call::TaskMetaGetFrame { task, key: MetaKey::OutputFrame }],
                    JpegDecode::TaskFrame { task },
                )
            },
            JpegDecode::TaskFrame { task } => {
                let frame = handle;
                if frame == NULL {
                    return Step::Done(vec![Call::Enqueue { mpp, port: Port::Output, task }], nothing);
                }
                Step::Calls(vec![Call::FrameGetMeta(frame)], JpegDecode::DecodedMeta { task, frame })
            },
            JpegDecode::DecodedMeta { task, frame } => {
                let meta = handle;
                if meta != NULL {
                    return Step::Calls(
                        vec![Call::MetaGetPacket { meta, key: MetaKey::InputPacket }],
                        JpegDecode::MetaPacket { task, frame },
                    );
                }
                Step::Calls(
                    vec![Call::Enqueue { mpp, port: Port::Output, task }, Call::FrameInspect(frame)],
                    JpegDecode::Inspected { frame },
                )
            },
            JpegDecode::MetaPacket { task, frame } => {
                let packet = call_when(handle != NULL, Call::PacketDeinit(handle));
                Step::Calls(
                    join(
                        packet,
                        vec![Call::Enqueue { mpp, port: Port::Output, task }, Call::FrameInspect(frame)],
                    ),
                    JpegDecode::Inspected { frame },
                )
            },
            JpegDecode::Inspected { frame } => {
                let info = reply.info;
                if info.errinfo != 0 || info.discard != 0 {
                    return Step::Done(vec![Call::FrameDeinit(frame)], nothing);
                }
                let picture = Picture { frame, buffer: info.buffer };
                let decoded = if !state.negotiated || info.width != state.geometry.width || info.height
                    != state.geometry.height {
                    let script = NegotiateOutput::begin(info.width, info.height);
                    Decoded::NewSize(AnnouncePicture { script, picture })
                } else {
                    Decoded::Ready(picture)
                };
                state.geometry = Geometry {
                    width: info.width,
                    height: info.height,
                    hor_stride: info.hor_stride,
                    ver_stride: info.ver_stride,
                };
                state.negotiated = true;
                Step::Done(vec![], decoded)
            },
        }
    }
}

/// Copies a decoded picture out.
pub enum JpegDeliver {
    Begin { picture: Picture },
    Copied { frame: MppFrame },
}

impl Script for JpegDeliver {
    type State = DecoderState;

    type Out = Entry<FinishPicture>;

    open spec fn next(self, state: DecoderState, reply: Reply) -> (DecoderState, SpecStep<Self, Self::Out>) {
        match self {
            JpegDeliver::Begin { picture } => if picture.buffer == NULL {
                (
                    state,
                    SpecStep::Done(seq![Call::FrameDeinit(picture.frame)], Entry::Answer(Flow::Success)),
                )
            } else {
                (
                    state,
                    SpecStep::Calls(
                        seq![Call::CopyDecoded { buffer: picture.buffer, geometry: state.geometry }],
                        JpegDeliver::Copied { frame: picture.frame },
                    ),
                )
            },
            JpegDeliver::Copied { frame } => (
                state,
                SpecStep::Done(
                    seq![Call::FrameDeinit(frame)],
                    if reply.handle == NULL {
                        Entry::Answer(Flow::Success)
                    } else {
                        Entry::Run(FinishPicture::Begin { buffer: reply.handle })
                    },
                ),
            ),
        }
    }

    fn step(self, state: &mut DecoderState, reply: Reply) -> (step: Step<Self, Self::Out>) {
        match self {
            JpegDeliver::Begin { picture } => {
                if picture.buffer == NULL {
                    return Step::Done(vec![Call::FrameDeinit(picture.frame)], Entry::Answer(Flow::Success));
                }
                Step::Calls(
                    vec![Call::CopyDecoded { buffer: picture.buffer, geometry: state.geometry }],
                    JpegDeliver::Copied { frame: picture.frame },
                )
            },
            JpegDeliver::Copied { frame } => {
                let entry = if reply.handle == NULL {
                    Entry::Answer(Flow::Success)
                } else {
                    Entry::Run(FinishPicture::Begin { buffer: reply.handle })
                };
                Step::Done(vec![Call::FrameDeinit(frame)], entry)
            },
        }
    }
}

/// Hands a picture downstream with the frame that it was decoded from, once the state is unlocked.
#[derive(Clone, Copy, PartialEq, Eq, Debug)]
pub enum FinishPicture {
    Begin { buffer: GstBuffer },
    Finished,
}

impl Script for FinishPicture {
    type State = ();

    type Out = Flow;

    open spec fn next(self, state: (), reply: Reply) -> ((), SpecStep<Self, Flow>) {
        match self {
            FinishPicture::Begin { buffer } => (
                (),
                SpecStep::Calls(
                    seq![Call::SetFrameOutput(buffer), Call::FinishThisFrame],
                    FinishPicture::Finished,
                ),
            ),
            FinishPicture::Finished => ((), SpecStep::Done(seq![], Flow::Downstream(reply.ret))),
        }
    }

    fn step(self, state: &mut (), reply: Reply) -> (step: Step<Self, Flow>) {
        match self {
            FinishPicture::Begin { buffer } => Step::Calls(
                vec![Call::SetFrameOutput(buffer), Call::FinishThisFrame],
                FinishPicture::Finished,
            ),
            FinishPicture::Finished => Step::Done(vec![], Flow::Downstream(reply.ret)),
        }
    }
}

} // verus!

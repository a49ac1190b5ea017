//! The way of a frame through the encoder.
//!
//! A frame is submitted without waiting for its packet. The packet is fetched when the next frame
//! comes, or at the end of the stream; so at most one frame is in flight, and it is encoded from
//! one input buffer while the next frame is written into the other.

use vstd::prelude::*;

use crate::call::{call_when, join, Call, Flow, Reply};
use crate::enc::state::EncoderState;
use crate::mpp_ffi::{GstBuffer, MppFrame, MppPacket, MPP_FMT_YUV420SP, MPP_OK, NULL};
use crate::output::Deliver;
use crate::script::{Script, SpecStep, Step};

verus! {

/// How often a packet is asked for before the frame is given up.
pub const MAX_POLL_ATTEMPTS: u32 = 5;

/// Fetches the packet of the frame in flight as a GStreamer buffer.
pub enum PollPending {
    Begin,
    Polled { attempts: u32 },
    Inspected { packet: MppPacket },
    Copied { packet: MppPacket },
}

impl EncoderState {
    /// The state without a frame in flight.
    pub open spec fn landed(self) -> EncoderState {
        EncoderState { in_flight_frame: NULL, ..self }
    }
}

impl Script for PollPending {
    type State = EncoderState;

    type Out = Result<GstBuffer, Flow>;

    open spec fn next(self, state: EncoderState, reply: Reply) -> (EncoderState, SpecStep<Self, Self::Out>) {
        let release = Call::FrameDeinit(state.in_flight_frame);
        match self {
            PollPending::Begin => if state.api.encode_get_packet {
                (
                    state,
                    SpecStep::Calls(
                        seq![Call::EncodeGetPacket(state.mpp)],
                        PollPending::Polled { attempts: 1 },
                    ),
                )
            } else {
                (state, SpecStep::Done(seq![], Err(Flow::Error)))
            },
            PollPending::Polled { attempts } => if reply.handle != NULL {
                (
                    state.landed(),
                    SpecStep::Calls(
                        seq![release, Call::PacketInspect(reply.handle)],
                        PollPending::Inspected { packet: reply.handle },
                    ),
                )
            } else if attempts < MAX_POLL_ATTEMPTS {
                (
                    state,
                    SpecStep::Calls(
                        seq![Call::EncodeGetPacket(state.mpp)],
                        PollPending::Polled { attempts: (attempts + 1) as u32 },
                    ),
                )
            } else {
                (state.landed(), SpecStep::Done(seq![release], Err(Flow::Error)))
            },
            PollPending::Inspected { packet } => (
                state,
                SpecStep::Calls(
                    seq![
                        if reply.handle != NULL && reply.size > 0 {
                            Call::CopyPacket { buffer: reply.handle, length: reply.size }
                        } else {
                            Call::NewEmptyBuffer
                        },
                    ],
                    PollPending::Copied { packet },
                ),
            ),
            PollPending::Copied { packet } => (
                state,
                SpecStep::Done(seq![Call::PacketDeinit(packet)], Ok(reply.handle)),
            ),
        }
    }

    fn step(self, state: &mut EncoderState, reply: Reply) -> (step: Step<Self, Self::Out>) {
        match self {
            PollPending::Begin => {
                if !state.api.encode_get_packet {
                    return Step::Done(vec![], Err(Flow::Error));
                }
                Step::Calls(vec![Call::EncodeGetPacket(state.mpp)], PollPending::Polled { attempts: 1 })
            },
            PollPending::Polled { attempts } => {
                let packet = reply.handle;
                if packet == NULL && attempts < MAX_POLL_ATTEMPTS {
                    return Step::Calls(
                        vec![Call::EncodeGetPacket(state.mpp)],
                        PollPending::Polled { attempts: attempts + 1 },
                    );
                }
                let release = Call::FrameDeinit(state.in_flight_frame);
                state.in_flight_frame = NULL;
                if packet == NULL {
                    return Step::Done(vec![release], Err(Flow::Error));
                }
                Step::Calls(vec![release, Call::PacketInspect(packet)], PollPending::Inspected { packet })
            },
            PollPending::Inspected { packet } => {
                let copy = if reply.handle != NULL && reply.size > 0 {
                    Call::CopyPacket { buffer: reply.handle, length: reply.size }
                } else {
                    Call::NewEmptyBuffer
                };
                Step::Calls(vec![copy], PollPending::Copied { packet })
            },
            PollPending::Copied { packet } => Step::Done(vec![Call::PacketDeinit(packet)], Ok(reply.handle)),
        }
    }
}

/// Takes a frame: fetches the packet of the one before, copies the input, submits the frame.
pub enum EncHandleFrame {
    Begin { pts: Option<i64> },
    Pending { pts: Option<i64>, script: PollPending },
    Input { pts: Option<i64>, previous: Option<GstBuffer> },
    Copied { pts: Option<i64>, previous: Option<GstBuffer> },
    Frame { pts: Option<i64>, previous: Option<GstBuffer> },
    Submitted { frame: MppFrame, previous: Option<GstBuffer> },
}

/// What is left to do after a frame was taken and the state was unlocked.
pub enum AfterFrame {
    Answer(Flow),
    /// The buffer of the frame before goes downstream.
    Deliver(Deliver),
}

/// Drops a buffer that is not handed on.
pub open spec fn drop_calls(buffer: Option<GstBuffer>) -> Seq<Call> {
    match buffer {
        Some(buffer) => seq![Call::DropBuffer(buffer)],
        None => Seq::empty(),
    }
}

fn drop_buffer(buffer: Option<GstBuffer>) -> (calls: Vec<Call>)
    ensures
        calls@ == drop_calls(buffer),
{
    match buffer {
        Some(buffer) => vec![Call::DropBuffer(buffer)],
        None => vec![],
    }
}

impl EncoderState {
    /// The calls that fill a new frame in.
    pub open spec fn frame_calls(self, frame: MppFrame, pts: Option<i64>) -> Seq<Call> {
        seq![
            Call::FrameSetWidth { frame, width: self.geometry.width },
            Call::FrameSetHeight { frame, height: self.geometry.height },
            Call::FrameSetHorStride { frame, stride: self.geometry.hor_stride },
            Call::FrameSetVerStride { frame, stride: self.geometry.ver_stride },
            Call::FrameSetFmt { frame, fmt: MPP_FMT_YUV420SP },
            Call::FrameSetBuffer { frame, buffer: self.input_bufs.spec_get(self.slot) },
            Call::FrameSetEos { frame, eos: 0 },
        ] + match pts {
            Some(pts) => seq![Call::FrameSetPts { frame, pts }],
            None => Seq::empty(),
        }
    }

    fn fill_frame(&self, frame: MppFrame, pts: Option<i64>) -> (calls: Vec<Call>)
        ensures
            calls@ == self.frame_calls(frame, pts),
    {
        let stamp = match pts {
            Some(pts) => vec![Call::FrameSetPts { frame, pts }],
            None => vec![],
        };
        join(
            vec![
                Call::FrameSetWidth { frame, width: self.geometry.width },
                Call::FrameSetHeight { frame, height: self.geometry.height },
                Call::FrameSetHorStride { frame, stride: self.geometry.hor_stride },
                Call::FrameSetVerStride { frame, stride: self.geometry.ver_stride },
                Call::FrameSetFmt { frame, fmt: MPP_FMT_YUV420SP },
                Call::FrameSetBuffer { frame, buffer: self.input_bufs.get(self.slot) },
                Call::FrameSetEos { frame, eos: 0 },
            ],
            stamp,
        )
    }

    /// The state after a frame was submitted: it is in flight, and the next one goes into the other
    /// buffer.
    pub open spec fn submitted(self, frame: MppFrame) -> EncoderState {
        EncoderState { in_flight_frame: frame, slot: self.slot.spec_other(), ..self }
    }

    /// What one step of fetching the pending packet means for the frame that waits behind it.
    pub open spec fn after_poll(
        pts: Option<i64>,
        step: SpecStep<PollPending, Result<GstBuffer, Flow>>,
    ) -> SpecStep<EncHandleFrame, AfterFrame> {
        match step {
            SpecStep::Calls(calls, script) => SpecStep::Calls(calls, EncHandleFrame::Pending { pts, script }),
            SpecStep::Done(calls, Err(flow)) => SpecStep::Done(calls, AfterFrame::Answer(flow)),
            SpecStep::Done(calls, Ok(buffer)) => SpecStep::Calls(
                calls + seq![Call::InputBuffer],
                EncHandleFrame::Input { pts, previous: Some(buffer) },
            ),
        }
    }
}

fn go_on_after_poll(pts: Option<i64>, step: Step<PollPending, Result<GstBuffer, Flow>>) -> (r: Step<
    EncHandleFrame,
    AfterFrame,
>)
    ensures
        r@ == EncoderState::after_poll(pts, step@),
{
    match step {
        Step::Calls(calls, script) => Step::Calls(calls, EncHandleFrame::Pending { pts, script }),
        Step::Done(calls, Err(flow)) => Step::Done(calls, AfterFrame::Answer(flow)),
        Step::Done(calls, Ok(buffer)) => Step::Calls(
            join(calls, vec![Call::InputBuffer]),
            EncHandleFrame::Input { pts, previous: Some(buffer) },
        ),
    }
}

impl Script for EncHandleFrame {
    type State = EncoderState;

    type Out = AfterFrame;

    open spec fn next(self, state: EncoderState, reply: Reply) -> (EncoderState, SpecStep<Self, AfterFrame>) {
        match self {
            EncHandleFrame::Begin { pts } => if state.in_flight_frame != NULL {
                let (after, step) = PollPending::Begin.next(state, reply);
                (after, EncoderState::after_poll(pts, step))
            } else {
                (
                    state,
                    SpecStep::Calls(seq![Call::InputBuffer], EncHandleFrame::Input { pts, previous: None }),
                )
            },
            EncHandleFrame::Pending { pts, script } => {
                let (after, step) = script.next(state, reply);
                (after, EncoderState::after_poll(pts, step))
            },
            EncHandleFrame::Input { pts, previous } => if reply.handle == NULL {
                (state, SpecStep::Done(drop_calls(previous), AfterFrame::Answer(Flow::Error)))
            } else {
                (
                    state,
                    SpecStep::Calls(
                        seq![
                            Call::CopyInput {
                                input: reply.handle,
                                target: state.input_bufs.spec_get(state.slot),
                                geometry: state.geometry,
                            },
                        ],
                        EncHandleFrame::Copied { pts, previous },
                    ),
                )
            },
            EncHandleFrame::Copied { pts, previous } => if reply.ret != MPP_OK {
                (state, SpecStep::Done(drop_calls(previous), AfterFrame::Answer(Flow::Error)))
            } else {
                (state, SpecStep::Calls(seq![Call::FrameInit], EncHandleFrame::Frame { pts, previous }))
            },
            EncHandleFrame::Frame { pts, previous } => {
                let frame = reply.handle;
                if reply.ret != MPP_OK {
                    (state, SpecStep::Done(drop_calls(previous), AfterFrame::Answer(Flow::Error)))
                } else if !state.api.encode_put_frame {
                    (
                        state,
                        SpecStep::Done(
                            state.frame_calls(frame, pts) + seq![Call::FrameDeinit(frame)] + drop_calls(previous),
                            AfterFrame::Answer(Flow::Error),
                        ),
                    )
                } else {
                    (
                        state,
                        SpecStep::Calls(
                            state.frame_calls(frame, pts) + seq![Call::EncodePutFrame { mpp: state.mpp, frame }],
                            EncHandleFrame::Submitted { frame, previous },
                        ),
                    )
                }
            },
            EncHandleFrame::Submitted { frame, previous } => if reply.ret != MPP_OK {
                (
                    state,
                    SpecStep::Done(
                        seq![Call::FrameDeinit(frame)] + drop_calls(previous),
                        AfterFrame::Answer(Flow::Error),
                    ),
                )
            } else {
                (
                    state.submitted(frame),
                    SpecStep::Done(
                        seq![],
                        match previous {
                            Some(buffer) => AfterFrame::Deliver(Deliver::Begin { buffer, missing: Flow::Error }),
                            None => AfterFrame::Answer(Flow::Success),
                        },
                    ),
                )
            },
        }
    }

    fn step(self, state: &mut EncoderState, reply: Reply) -> (step: Step<Self, AfterFrame>) {
        match self {
            EncHandleFrame::Begin { pts } => {
                if state.in_flight_frame != NULL {
                    let step = PollPending::Begin.step(state, reply);
                    return go_on_after_poll(pts, step);
                }
                Step::Calls(vec![Call::InputBuffer], EncHandleFrame::Input { pts, previous: None })
            },
            EncHandleFrame::Pending { pts, script } => {
                let step = script.step(state, reply);
                go_on_after_poll(pts, step)
            },
            EncHandleFrame::Input { pts, previous } => {
                if reply.handle == NULL {
                    return Step::Done(drop_buffer(previous), AfterFrame::Answer(Flow::Error));
                }
                let copy = Call::CopyInput {
                    input: reply.handle,
                    target: state.input_bufs.get(state.slot),
                    geometry: state.geometry,
                };
                Step::Calls(vec![copy], EncHandleFrame::Copied { pts, previous })
            },
            EncHandleFrame::Copied { pts, previous } => {
                if reply.ret != MPP_OK {
                    return Step::Done(drop_buffer(previous), AfterFrame::Answer(Flow::Error));
                }
                Step::Calls(vec![Call::FrameInit], EncHandleFrame::Frame { pts, previous })
            },
            EncHandleFrame::Frame { pts, previous } => {
                if reply.ret != MPP_OK {
                    return Step::Done(drop_buffer(previous), AfterFrame::Answer(Flow::Error));
                }
                let frame = reply.handle;
                let fill = state.fill_frame(frame, pts);
                if !state.api.encode_put_frame {
                    return Step::Done(
                        join(join(fill, vec![Call::FrameDeinit(frame)]), drop_buffer(previous)),
                        AfterFrame::Answer(Flow::Error),
                    );
                }
                Step::Calls(
                    join(fill, vec![Call::EncodePutFrame { mpp: state.mpp, frame }]),
                    EncHandleFrame::Submitted { frame, previous },
                )
            },
            EncHandleFrame::Submitted { frame, previous } => {
                if reply.ret != MPP_OK {
                    return Step::Done(
                        join(vec![Call::FrameDeinit(frame)], drop_buffer(previous)),
                        AfterFrame::Answer(Flow::Error),
                    );
                }
                state.in_flight_frame = frame;
                state.slot = state.slot.other();
                let after = match previous {
                    Some(buffer) => AfterFrame::Deliver(Deliver::begin(buffer, Flow::Error)),
                    None => AfterFrame::Answer(Flow::Success),
                };
                Step::Done(vec![], after)
            },
        }
    }
}

/// Fetches the last packet at the end of the stream.
pub enum EncFinish {
    Begin,
    Pending { script: PollPending },
}

/// What fetching the last packet comes to.
pub open spec fn last_packet(step: SpecStep<PollPending, Result<GstBuffer, Flow>>) -> SpecStep<EncFinish, AfterFrame> {
    match step {
        SpecStep::Calls(calls, script) => SpecStep::Calls(calls, EncFinish::Pending { script }),
        SpecStep::Done(calls, Err(flow)) => SpecStep::Done(calls, AfterFrame::Answer(flow)),
        SpecStep::Done(calls, Ok(buffer)) => SpecStep::Done(
            calls,
            AfterFrame::Deliver(Deliver::Begin { buffer, missing: Flow::Success }),
        ),
    }
}

fn go_on_at_end(step: Step<PollPending, Result<GstBuffer, Flow>>) -> (r: Step<EncFinish, AfterFrame>)
    ensures
        r@ == last_packet(step@),
{
    match step {
        Step::Calls(calls, script) => Step::Calls(calls, EncFinish::Pending { script }),
        Step::Done(calls, Err(flow)) => Step::Done(calls, AfterFrame::Answer(flow)),
        Step::Done(calls, Ok(buffer)) => Step::Done(
            calls,
            AfterFrame::Deliver(Deliver::begin(buffer, Flow::Success)),
        ),
    }
}

impl Script for EncFinish {
    type State = EncoderState;

    type Out = AfterFrame;

    open spec fn next(self, state: EncoderState, reply: Reply) -> (EncoderState, SpecStep<Self, AfterFrame>) {
        match self {
            EncFinish::Begin => if state.in_flight_frame == NULL {
                (state, SpecStep::Done(seq![], AfterFrame::Answer(Flow::Success)))
            } else {
                let (after, step) = PollPending::Begin.next(state, reply);
                (after, last_packet(step))
            },
            EncFinish::Pending { script } => {
                let (after, step) = script.next(state, reply);
                (after, last_packet(step))
            },
        }
    }

    fn step(self, state: &mut EncoderState, reply: Reply) -> (step: Step<Self, AfterFrame>) {
        match self {
            EncFinish::Begin => {
                if state.in_flight_frame == NULL {
                    return Step::Done(vec![], AfterFrame::Answer(Flow::Success));
                }
                let step = PollPending::Begin.step(state, reply);
                go_on_at_end(step)
            },
            EncFinish::Pending { script } => {
                let step = script.step(state, reply);
                go_on_at_end(step)
            },
        }
    }
}

impl EncoderState {
    /// The calls that forget what the encoder is working on.
    pub open spec fn flush_calls(self) -> Seq<Call> {
        crate::call::when(self.in_flight_frame != NULL, Call::FrameDeinit(self.in_flight_frame))
            + crate::call::when(self.api.reset, Call::Reset(self.mpp))
    }

    /// Forgets what the encoder is working on.
    pub fn flush(&mut self) -> (calls: Vec<Call>)
        ensures
            calls@ == old(self).flush_calls(),
            *final(self) == old(self).landed(),
    {
        let release = call_when(self.in_flight_frame != NULL, Call::FrameDeinit(self.in_flight_frame));
        self.in_flight_frame = NULL;
        join(release, call_when(self.api.reset, Call::Reset(self.mpp)))
    }
}

} // verus!

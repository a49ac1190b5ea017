//! The way of packets and frames through the decoder.

use vstd::prelude::*;

use crate::call::{call_when, join, Call, Flow, FrameResult, Geometry, PacketData, Param, Reply};
use crate::dec::state::{send_eos, DecoderState};
use crate::mpp_ffi::{FrameInfo, MppFrame, MppPacket, MPP_DEC_SET_INFO_CHANGE_READY, MPP_OK, NULL};
use crate::output::Entry;
use crate::script::{Script, SpecStep, Step};

verus! {

/// How often a packet is offered again while the decoder's queue is full.
pub const MAX_RETRIES: u32 = 1000;

/// How long to wait before something is tried again, in milliseconds.
pub const RETRY_DELAY: u64 = 2;

/// How long the decoder is drained at the end of a stream, in nanoseconds.
pub const DRAIN_TIME: u64 = 5_000_000_000;

/// Submits the input as a packet. Once the packet is accepted, and only then, the frames that are
/// ready are handed on.
pub enum SubmitPacket {
    Begin { pts: Option<i64> },
    Mapped { pts: Option<i64> },
    Packet { pts: Option<i64> },
    Offered { packet: MppPacket, retries: u32 },
}

/// The calls that stamp a packet.
pub open spec fn stamp_calls(packet: MppPacket, pts: Option<i64>) -> Seq<Call> {
    match pts {
        Some(pts) => seq![Call::PacketSetPts { packet, pts }],
        None => Seq::empty(),
    }
}

fn stamp(packet: MppPacket, pts: Option<i64>) -> (calls: Vec<Call>)
    ensures
        calls@ == stamp_calls(packet, pts),
{
    match pts {
        Some(pts) => vec![Call::PacketSetPts { packet, pts }],
        None => vec![],
    }
}

impl Script for SubmitPacket {
    type State = DecoderState;

    type Out = Entry<PollDecoded>;

    open spec fn next(self, state: DecoderState, reply: Reply) -> (DecoderState, SpecStep<Self, Self::Out>) {
        let failed = SpecStep::Done(seq![], Entry::Answer(Flow::Error));
        match self {
            SubmitPacket::Begin { pts } => (
                state,
                SpecStep::Calls(seq![Call::MapInput], SubmitPacket::Mapped { pts }),
            ),
            SubmitPacket::Mapped { pts } => if reply.ret != MPP_OK {
                (state, failed)
            } else {
                (
                    state,
                    SpecStep::Calls(seq![Call::PacketInit(PacketData::Input)], SubmitPacket::Packet { pts }),
                )
            },
            SubmitPacket::Packet { pts } => {
                let packet = reply.handle;
                if reply.ret != MPP_OK {
                    (state, failed)
                } else if !state.api.decode_put_packet {
                    (state, SpecStep::Done(stamp_calls(packet, pts), Entry::Answer(Flow::Error)))
                } else {
                    (
                        state,
                        SpecStep::Calls(
                            stamp_calls(packet, pts) + seq![Call::DecodePutPacket { mpp: state.mpp, packet }],
                            SubmitPacket::Offered { packet, retries: 0 },
                        ),
                    )
                }
            },
            SubmitPacket::Offered { packet, retries } => if reply.ret == MPP_OK {
                (state, SpecStep::Done(seq![Call::PacketDeinit(packet)], Entry::Run(PollDecoded::Begin)))
            } else if retries < MAX_RETRIES {
                (
                    state,
                    SpecStep::Calls(
                        seq![
                            Call::SleepMillis(RETRY_DELAY),
                            Call::DecodePutPacket { mpp: state.mpp, packet },
                        ],
                        SubmitPacket::Offered { packet, retries: (retries + 1) as u32 },
                    ),
                )
            } else {
                (state, SpecStep::Done(seq![Call::PacketDeinit(packet)], Entry::Answer(Flow::Error)))
            },
        }
    }

    fn step(self, state: &mut DecoderState, reply: Reply) -> (step: Step<Self, Self::Out>) {
        match self {
            SubmitPacket::Begin { pts } => Step::Calls(vec![Call::MapInput], SubmitPacket::Mapped { pts }),
            SubmitPacket::Mapped { pts } => {
                if reply.ret != MPP_OK {
                    return Step::Done(vec![], Entry::Answer(Flow::Error));
                }
                Step::Calls(vec![Call::PacketInit(PacketData::Input)], SubmitPacket::Packet { pts })
            },
            SubmitPacket::Packet { pts } => {
                if reply.ret != MPP_OK {
                    return Step::Done(vec![], Entry::Answer(Flow::Error));
                }
                let packet = reply.handle;
                if !state.api.decode_put_packet {
                    return Step::Done(stamp(packet, pts), Entry::Answer(Flow::Error));
                }
                let put = Call::DecodePutPacket { mpp: state.mpp, packet };
                Step::Calls(join(stamp(packet, pts), vec![put]), SubmitPacket::Offered { packet, retries: 0 })
            },
            SubmitPacket::Offered { packet, retries } => {
                if reply.ret == MPP_OK {
                    return Step::Done(vec![Call::PacketDeinit(packet)], Entry::Run(PollDecoded::Begin));
                }
                if retries >= MAX_RETRIES {
                    return Step::Done(vec![Call::PacketDeinit(packet)], Entry::Answer(Flow::Error));
                }
                let put = Call::DecodePutPacket { mpp: state.mpp, packet };
                Step::Calls(
                    vec![Call::SleepMillis(RETRY_DELAY), put],
                    SubmitPacket::Offered { packet, retries: retries + 1 },
                )
            },
        }
    }
}

/// Fetches one decoded frame and copies its picture out.
pub enum TryGetFrame {
    Begin,
    Fetched,
    Inspected { frame: MppFrame },
    Copied { frame: MppFrame },
}

/// The size and layout that a frame reports.
pub open spec fn reported(info: FrameInfo) -> Geometry {
    Geometry {
        width: info.width,
        height: info.height,
        hor_stride: info.hor_stride,
        ver_stride: info.ver_stride,
    }
}

impl DecoderState {
    /// The state once the size of the pictures is taken from a frame.
    pub open spec fn sized(self, info: FrameInfo) -> DecoderState {
        DecoderState { geometry: reported(info), negotiated: true, ..self }
    }

    /// Takes the size of the pictures from a frame.
    fn take_size(&mut self, info: FrameInfo)
        ensures
            *final(self) == old(self).sized(info),
    {
        self.geometry = Geometry {
            width: info.width,
            height: info.height,
            hor_stride: info.hor_stride,
            ver_stride: info.ver_stride,
        };
        self.negotiated = true;
    }
}

impl Script for TryGetFrame {
    type State = DecoderState;

    type Out = FrameResult;

    open spec fn next(self, state: DecoderState, reply: Reply) -> (DecoderState, SpecStep<Self, FrameResult>) {
        match self {
            TryGetFrame::Begin => (
                state,
                SpecStep::Calls(seq![Call::DecodeGetFrame(state.mpp)], TryGetFrame::Fetched),
            ),
            TryGetFrame::Fetched => if reply.ret != MPP_OK || reply.handle == NULL {
                (state, SpecStep::Done(seq![], FrameResult::TryAgain))
            } else {
                (
                    state,
                    SpecStep::Calls(
                        seq![Call::FrameInspect(reply.handle)],
                        TryGetFrame::Inspected { frame: reply.handle },
                    ),
                )
            },
            TryGetFrame::Inspected { frame } => {
                let info = reply.info;
                let announce = Call::NegotiateOutput { width: info.width, height: info.height };
                if info.eos != 0 {
                    (state, SpecStep::Done(seq![Call::FrameDeinit(frame)], FrameResult::Eos))
                } else if info.info_change != 0 {
                    (
                        state.sized(info),
                        SpecStep::Done(
                            crate::call::when(
                                state.api.control,
                                Call::Control {
                                    mpp: state.mpp,
                                    cmd: MPP_DEC_SET_INFO_CHANGE_READY,
                                    param: Param::Null,
                                },
                            ) + seq![Call::FrameDeinit(frame), announce],
                            FrameResult::Skip,
                        ),
                    )
                } else if info.errinfo != 0 || info.discard != 0 || info.buffer == NULL {
                    (state, SpecStep::Done(seq![Call::FrameDeinit(frame)], FrameResult::Skip))
                } else if !state.negotiated {
                    (
                        state.sized(info),
                        SpecStep::Calls(
                            seq![announce, Call::CopyDecoded { buffer: info.buffer, geometry: reported(info) }],
                            TryGetFrame::Copied { frame },
                        ),
                    )
                } else {
                    (
                        state,
                        SpecStep::Calls(
                            seq![Call::CopyDecoded { buffer: info.buffer, geometry: state.geometry }],
                            TryGetFrame::Copied { frame },
                        ),
                    )
                }
            },
            TryGetFrame::Copied { frame } => (
                state,
                SpecStep::Done(
                    seq![Call::FrameDeinit(frame)],
                    if reply.handle == NULL {
                        FrameResult::Skip
                    } else {
                        FrameResult::Frame(reply.handle)
                    },
                ),
            ),
        }
    }

    fn step(self, state: &mut DecoderState, reply: Reply) -> (step: Step<Self, FrameResult>) {
        match self {
            TryGetFrame::Begin => Step::Calls(vec![Call::DecodeGetFrame(state.mpp)], TryGetFrame::Fetched),
            TryGetFrame::Fetched => {
                let frame = reply.handle;
                if reply.ret != MPP_OK || frame == NULL {
                    return Step::Done(vec![], FrameResult::TryAgain);
                }
                Step::Calls(vec![Call::FrameInspect(frame)], TryGetFrame::Inspected { frame })
            },
            TryGetFrame::Inspected { frame } => {
                let info = reply.info;
                let announce = Call::NegotiateOutput { width: info.width, height: info.height };
                if info.eos != 0 {
                    return Step::Done(vec![Call::FrameDeinit(frame)], FrameResult::Eos);
                }
                if info.info_change != 0 {
                    state.take_size(info);
                    let ready = Call::Control {
                        mpp: state.mpp,
                        cmd: MPP_DEC_SET_INFO_CHANGE_READY,
                        param: Param::Null,
                    };
                    return Step::Done(
                        join(call_when(state.api.control, ready), vec![Call::FrameDeinit(frame), announce]),
                        FrameResult::Skip,
                    );
                }
                if info.errinfo != 0 || info.discard != 0 || info.buffer == NULL {
                    return Step::Done(vec![Call::FrameDeinit(frame)], FrameResult::Skip);
                }
                let first = !state.negotiated;
                if first {
                    state.take_size(info);
                }
                let copy = Call::CopyDecoded { buffer: info.buffer, geometry: state.geometry };
                let calls = if first {
                    vec![announce, copy]
                } else {
                    vec![copy]
                };
                Step::Calls(calls, TryGetFrame::Copied { frame })
            },
            TryGetFrame::Copied { frame } => {
                let result = if reply.handle == NULL {
                    FrameResult::Skip
                } else {
                    FrameResult::Frame(reply.handle)
                };
                Step::Done(vec![Call::FrameDeinit(frame)], result)
            },
        }
    }
}

/// Hands on the frames that are ready.
#[derive(Clone, Copy, PartialEq, Eq, Debug)]
pub enum PollDecoded {
    Begin,
    Tried,
}

impl Script for PollDecoded {
    type State = ();

    type Out = Flow;

    open spec fn next(self, state: (), reply: Reply) -> ((), SpecStep<Self, Flow>) {
        match self {
            PollDecoded::Begin => ((), SpecStep::Calls(seq![Call::TryGetOneFrame], PollDecoded::Tried)),
            PollDecoded::Tried => match reply.frame {
                FrameResult::Frame(buffer) => (
                    (),
                    SpecStep::Calls(
                        seq![Call::FinishOneFrame(buffer), Call::TryGetOneFrame],
                        PollDecoded::Tried,
                    ),
                ),
                FrameResult::Skip => ((), SpecStep::Calls(seq![Call::TryGetOneFrame], PollDecoded::Tried)),
                FrameResult::TryAgain | FrameResult::Eos => ((), SpecStep::Done(seq![], Flow::Success)),
            },
        }
    }

    fn step(self, state: &mut (), reply: Reply) -> (step: Step<Self, Flow>) {
        match self {
            PollDecoded::Begin => Step::Calls(vec![Call::TryGetOneFrame], PollDecoded::Tried),
            PollDecoded::Tried => match reply.frame {
                FrameResult::Frame(buffer) => Step::Calls(
                    vec![Call::FinishOneFrame(buffer), Call::TryGetOneFrame],
                    PollDecoded::Tried,
                ),
                FrameResult::Skip => Step::Calls(vec![Call::TryGetOneFrame], PollDecoded::Tried),
                FrameResult::TryAgain | FrameResult::Eos => Step::Done(vec![], Flow::Success),
            },
        }
    }
}

/// Tells the decoder that the stream has ended. The frames that are left are then handed on.
pub enum SendEos {
    Begin,
    Packet,
}

impl Script for SendEos {
    type State = DecoderState;

    type Out = Drain;

    open spec fn next(self, state: DecoderState, reply: Reply) -> (DecoderState, SpecStep<Self, Drain>) {
        match self {
            SendEos::Begin => (
                state,
                SpecStep::Calls(seq![Call::PacketInit(PacketData::Empty)], SendEos::Packet),
            ),
            SendEos::Packet => (
                state,
                SpecStep::Done(crate::dec::state::eos_calls(state.mpp, state.api, reply), Drain::Begin),
            ),
        }
    }

    fn step(self, state: &mut DecoderState, reply: Reply) -> (step: Step<Self, Drain>) {
        match self {
            SendEos::Begin => Step::Calls(vec![Call::PacketInit(PacketData::Empty)], SendEos::Packet),
            SendEos::Packet => Step::Done(send_eos(state.mpp, state.api, reply), Drain::Begin),
        }
    }
}

/// Hands on the frames that are left, until the end of the stream comes out or the time is up.
#[derive(Clone, Copy, PartialEq, Eq, Debug)]
pub enum Drain {
    Begin,
    Started,
    Clock { start: u64 },
    Tried { start: u64 },
}

impl Script for Drain {
    type State = ();

    type Out = Flow;

    open spec fn next(self, state: (), reply: Reply) -> ((), SpecStep<Self, Flow>) {
        match self {
            Drain::Begin => ((), SpecStep::Calls(seq![Call::Now], Drain::Started)),
            Drain::Started => ((), SpecStep::Calls(seq![Call::Now], Drain::Clock { start: reply.clock })),
            Drain::Clock { start } => if reply.clock >= start + DRAIN_TIME {
                ((), SpecStep::Done(seq![], Flow::Success))
            } else {
                ((), SpecStep::Calls(seq![Call::TryGetOneFrame], Drain::Tried { start }))
            },
            Drain::Tried { start } => match reply.frame {
                FrameResult::Frame(buffer) => (
                    (),
                    SpecStep::Calls(seq![Call::FinishOneFrame(buffer), Call::Now], Drain::Clock { start }),
                ),
                FrameResult::Eos => ((), SpecStep::Done(seq![], Flow::Success)),
                FrameResult::TryAgain => (
                    (),
                    SpecStep::Calls(seq![Call::SleepMillis(RETRY_DELAY), Call::Now], Drain::Clock { start }),
                ),
                FrameResult::Skip => ((), SpecStep::Calls(seq![Call::Now], Drain::Clock { start })),
            },
        }
    }

    fn step(self, state: &mut (), reply: Reply) -> (step: Step<Self, Flow>) {
        match self {
            Drain::Begin => Step::Calls(vec![Call::Now], Drain::Started),
            Drain::Started => Step::Calls(vec![Call::Now], Drain::Clock { start: reply.clock }),
            Drain::Clock { start } => {
                if reply.clock >= start && reply.clock - start >= DRAIN_TIME {
                    return Step::Done(vec![], Flow::Success);
                }
                Step::Calls(vec![Call::TryGetOneFrame], Drain::Tried { start })
            },
            Drain::Tried { start } => match reply.frame {
                FrameResult::Frame(buffer) => Step::Calls(
                    vec![Call::FinishOneFrame(buffer), Call::Now],
                    Drain::Clock { start },
                ),
                FrameResult::Eos => Step::Done(vec![], Flow::Success),
                FrameResult::TryAgain => Step::Calls(
                    vec![Call::SleepMillis(RETRY_DELAY), Call::Now],
                    Drain::Clock { start },
                ),
                FrameResult::Skip => Step::Calls(vec![Call::Now], Drain::Clock { start }),
            },
        }
    }
}

} // verus!

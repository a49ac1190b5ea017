//! Setting the encoder up for an input format.

use vstd::prelude::*;

use crate::allocator::AllocBuffer;
use crate::call::{call_when, join, Call, Geometry, Param, Reply};
use crate::enc::format::{codec_mime, EncFormat};
use crate::enc::state::{EncoderState, Slot};
use crate::mpp_ffi::{
    MPP_ENC_HEADER_MODE_EACH_IDR, MPP_ENC_SEI_MODE_DISABLE, MPP_ENC_SET_CFG, MPP_ENC_SET_HEADER_MODE,
    MPP_ENC_SET_SEI_CFG, MPP_OK, NULL,
};
use crate::script::{Script, SpecStep, Step};

verus! {

/// Why the encoder could not be set up for a format.
#[derive(Clone, Copy, PartialEq, Eq, Debug)]
pub enum SetFormatError {
    NotStarted,
    /// The input buffer of this slot could not be allocated.
    InputBuffer(Slot),
    /// The configuration was refused with this status.
    SetCfg(i32),
    SetOutputState,
    Negotiate,
}

/// Sets the encoder up for a format: new input buffers, a new configuration, then the output
/// format.
pub enum EncSetFormat {
    Begin { format: EncFormat },
    Buffer { format: EncFormat, slot: Slot, script: AllocBuffer },
    Configured { format: EncFormat },
    OutputState,
    Negotiated,
}

impl EncoderState {
    /// The state after the buffer of a slot was given up.
    pub open spec fn without_buffer(self, slot: Slot) -> EncoderState {
        EncoderState { input_bufs: self.input_bufs.spec_with(slot, NULL), ..self }
    }

    /// The calls that give the buffer of a slot up and ask for a new one.
    pub open spec fn replace_buffer_calls(self, slot: Slot, size: usize) -> Seq<Call> {
        crate::call::when(
            self.input_bufs.spec_get(slot) != NULL,
            Call::BufferPut(self.input_bufs.spec_get(slot)),
        ) + seq![Call::BufferGet { group: self.allocator.group, size }]
    }

    /// Gives the buffer of a slot up and asks for a new one.
    fn replace_buffer(&mut self, slot: Slot, format: EncFormat) -> (step: Step<
        EncSetFormat,
        Result<(), SetFormatError>,
    >)
        ensures
            *final(self) == old(self).without_buffer(slot),
            step@ == (SpecStep::<EncSetFormat, Result<(), SetFormatError>>::Calls(
                old(self).replace_buffer_calls(slot, format.frame_size),
                EncSetFormat::Buffer { format, slot, script: AllocBuffer::Got { index: old(self).allocator.index } },
            )),
    {
        let buffer = self.input_bufs.get(slot);
        let put = call_when(buffer != NULL, Call::BufferPut(buffer));
        self.input_bufs.set(slot, NULL);
        match self.allocator.alloc_buffer(format.frame_size).step(&mut (), Reply::none()) {
            Step::Calls(calls, script) => Step::Calls(
                join(put, calls),
                EncSetFormat::Buffer { format, slot, script },
            ),
            Step::Done(calls, _) => Step::Done(join(put, calls), Err(SetFormatError::InputBuffer(slot))),
        }
    }

    /// The calls that put the configuration into force, where commands can be given.
    pub open spec fn configure_calls(self, format: EncFormat) -> Seq<Call> {
        format.config_calls(self.cfg) + if self.api.control {
            seq![
                Call::Control {
                    mpp: self.mpp,
                    cmd: MPP_ENC_SET_SEI_CFG,
                    param: Param::I32(MPP_ENC_SEI_MODE_DISABLE),
                },
                Call::Control {
                    mpp: self.mpp,
                    cmd: MPP_ENC_SET_HEADER_MODE,
                    param: Param::I32(MPP_ENC_HEADER_MODE_EACH_IDR),
                },
                Call::Control { mpp: self.mpp, cmd: MPP_ENC_SET_CFG, param: Param::Handle(self.cfg) },
            ]
        } else {
            Seq::empty()
        }
    }

    fn configure(&self, format: EncFormat) -> (calls: Vec<Call>)
        ensures
            calls@ == self.configure_calls(format),
    {
        let mpp = self.mpp;
        let commands = if self.api.control {
            vec![
                Call::Control { mpp, cmd: MPP_ENC_SET_SEI_CFG, param: Param::I32(MPP_ENC_SEI_MODE_DISABLE) },
                Call::Control {
                    mpp,
                    cmd: MPP_ENC_SET_HEADER_MODE,
                    param: Param::I32(MPP_ENC_HEADER_MODE_EACH_IDR),
                },
                Call::Control { mpp, cmd: MPP_ENC_SET_CFG, param: Param::Handle(self.cfg) },
            ]
        } else {
            vec![]
        };
        join(format.config(self.cfg), commands)
    }

    /// The call that announces the encoder's output.
    pub open spec fn output_state_call(self, format: EncFormat) -> Call {
        Call::SetOutputState {
            mime: crate::enc::format::spec_codec_mime(self.codec),
            width: format.width,
            height: format.height,
        }
    }
}

impl Script for EncSetFormat {
    type State = EncoderState;

    type Out = Result<(), SetFormatError>;

    open spec fn next(self, state: EncoderState, reply: Reply) -> (EncoderState, SpecStep<Self, Self::Out>) {
        match self {
            EncSetFormat::Begin { format } => {
                let sized = EncoderState { geometry: format.geometry(), ..state };
                (
                    sized.without_buffer(Slot::First),
                    SpecStep::Calls(
                        sized.replace_buffer_calls(Slot::First, format.frame_size),
                        EncSetFormat::Buffer {
                            format,
                            slot: Slot::First,
                            script: AllocBuffer::Got { index: state.allocator.index },
                        },
                    ),
                )
            },
            EncSetFormat::Buffer { format, slot, script } => {
                let (_, step) = script.next((), reply);
                match step {
                    SpecStep::Calls(calls, script) => (
                        state,
                        SpecStep::Calls(calls, EncSetFormat::Buffer { format, slot, script }),
                    ),
                    SpecStep::Done(calls, Err(_)) => (
                        state,
                        SpecStep::Done(calls, Err(SetFormatError::InputBuffer(slot))),
                    ),
                    SpecStep::Done(calls, Ok((buffer, _))) => {
                        let filled = EncoderState {
                            input_bufs: state.input_bufs.spec_with(slot, buffer),
                            ..state
                        };
                        match slot {
                            Slot::First => (
                                filled.without_buffer(Slot::Second),
                                SpecStep::Calls(
                                    filled.replace_buffer_calls(Slot::Second, format.frame_size),
                                    EncSetFormat::Buffer {
                                        format,
                                        slot: Slot::Second,
                                        script: AllocBuffer::Got { index: state.allocator.index },
                                    },
                                ),
                            ),
                            Slot::Second => {
                                let ready = EncoderState { slot: Slot::First, ..filled };
                                if state.api.control {
                                    (
                                        ready,
                                        SpecStep::Calls(
                                            ready.configure_calls(format),
                                            EncSetFormat::Configured { format },
                                        ),
                                    )
                                } else {
                                    (
                                        ready,
                                        SpecStep::Calls(
                                            ready.configure_calls(format) + seq![ready.output_state_call(format)],
                                            EncSetFormat::OutputState,
                                        ),
                                    )
                                }
                            },
                        }
                    },
                }
            },
            EncSetFormat::Configured { format } => if reply.ret != MPP_OK {
                (state, SpecStep::Done(seq![], Err(SetFormatError::SetCfg(reply.ret))))
            } else {
                (
                    state,
                    SpecStep::Calls(seq![state.output_state_call(format)], EncSetFormat::OutputState),
                )
            },
            EncSetFormat::OutputState => if reply.ret != MPP_OK {
                (state, SpecStep::Done(seq![], Err(SetFormatError::SetOutputState)))
            } else {
                (state, SpecStep::Calls(seq![Call::Negotiate], EncSetFormat::Negotiated))
            },
            EncSetFormat::Negotiated => if reply.ret != MPP_OK {
                (state, SpecStep::Done(seq![], Err(SetFormatError::Negotiate)))
            } else {
                (state, SpecStep::Done(seq![], Ok(())))
            },
        }
    }

    fn step(self, state: &mut EncoderState, reply: Reply) -> (step: Step<Self, Self::Out>) {
        match self {
            EncSetFormat::Begin { format } => {
                state.geometry = Geometry {
                    width: format.width,
                    height: format.height,
                    hor_stride: format.hor_stride,
                    ver_stride: format.ver_stride,
                };
                state.replace_buffer(Slot::First, format)
            },
            EncSetFormat::Buffer { format, slot, script } => match script.step(&mut (), reply) {
                Step::Calls(calls, script) => Step::Calls(calls, EncSetFormat::Buffer { format, slot, script }),
                Step::Done(calls, Err(_)) => Step::Done(calls, Err(SetFormatError::InputBuffer(slot))),
                Step::Done(_, Ok((buffer, _))) => {
                    state.input_bufs.set(slot, buffer);
                    match slot {
                        Slot::First => state.replace_buffer(Slot::Second, format),
                        Slot::Second => {
                            state.slot = Slot::First;
                            let calls = state.configure(format);
                            if state.api.control {
                                Step::Calls(calls, EncSetFormat::Configured { format })
                            } else {
                                let announce = Call::SetOutputState {
                                    mime: codec_mime(state.codec),
                                    width: format.width,
                                    height: format.height,
                                };
                                Step::Calls(join(calls, vec![announce]), EncSetFormat::OutputState)
                            }
                        },
                    }
                },
            },
            EncSetFormat::Configured { format } => {
                if reply.ret != MPP_OK {
                    return Step::Done(vec![], Err(SetFormatError::SetCfg(reply.ret)));
                }
                let announce = Call::SetOutputState {
                    mime: codec_mime(state.codec),
                    width: format.width,
                    height: format.height,
                };
                Step::Calls(vec![announce], EncSetFormat::OutputState)
            },
            EncSetFormat::OutputState => {
                if reply.ret != MPP_OK {
                    return Step::Done(vec![], Err(SetFormatError::SetOutputState));
                }
                Step::Calls(vec![Call::Negotiate], EncSetFormat::Negotiated)
            },
            EncSetFormat::Negotiated => {
                if reply.ret != MPP_OK {
                    return Step::Done(vec![], Err(SetFormatError::Negotiate));
                }
                Step::Done(vec![], Ok(()))
            },
        }
    }
}

} // verus!

//! What holds of setting the encoder up for a format.

use vstd::prelude::*;

use crate::allocator::AllocBuffer;
use crate::call::{Call, Reply};
use crate::enc::configure::{EncSetFormat, SetFormatError};
use crate::enc::format::EncFormat;
use crate::enc::state::{EncoderState, Slot};
use crate::mpp_ffi::{MPP_OK, NULL};
use crate::script::Event;

verus! {

/// The account of the input buffers: at each point the slot that is being filled is empty.
spec fn format_buffers() -> crate::script::Account<EncSetFormat> {
    crate::script::Account {
        weight: crate::resources::buffer_weight(),
        at: |script: EncSetFormat, state: EncoderState|
            match script {
                EncSetFormat::Buffer { slot, script, .. } => state.input_bufs.spec_get(slot) == NULL && !(
                script is Begin),
                _ => true,
            },
        held: |script: EncSetFormat, state: EncoderState, reply: Reply|
            state.buffers_held() + match script {
                EncSetFormat::Buffer { script: AllocBuffer::Got { .. }, .. } => crate::resources::one_if(
                    reply.ret == MPP_OK && reply.handle != NULL,
                ),
                EncSetFormat::Buffer { script: AllocBuffer::Fd { buffer }, .. } => crate::resources::one_if(
                    buffer != NULL,
                ),
                _ => 0,
            },
        kept: |state: EncoderState, out: Result<(), SetFormatError>| state.buffers_held(),
    }
}

/// The configuration touches no buffer.
proof fn lemma_configure_weighs_nothing(state: EncoderState, format: EncFormat)
    ensures
        forall|answer: Reply|
            #[trigger] crate::script::batch(
                crate::resources::buffer_weight(),
                state.configure_calls(format),
                Some(answer),
            ) == 0,
        forall|answer: Reply|
            #[trigger] crate::script::batch(
                crate::resources::buffer_weight(),
                state.configure_calls(format) + seq![state.output_state_call(format)],
                Some(answer),
            ) == 0,
{
    let weight = crate::resources::buffer_weight();
    let calls = state.configure_calls(format);
    let announced = calls + seq![state.output_state_call(format)];
    assert forall|answer: Reply| #[trigger] crate::script::batch(weight, calls, Some(answer)) == 0 by {
        crate::script::lemma_batch_nothing(weight, calls, Some(answer));
    }
    assert forall|answer: Reply| #[trigger] crate::script::batch(weight, announced, Some(answer)) == 0 by {
        crate::script::lemma_batch_nothing(weight, announced, Some(answer));
    }
}

/// Giving a buffer up and asking for a new one weighs what the answer hands out, less the old one.
proof fn lemma_replace_weight(state: EncoderState, slot: Slot, size: usize)
    ensures
        forall|answer: Reply|
            #[trigger] crate::script::batch(
                crate::resources::buffer_weight(),
                state.replace_buffer_calls(slot, size),
                Some(answer),
            ) == crate::resources::one_if(answer.ret == MPP_OK && answer.handle != NULL) - crate::resources::one_if(
                state.input_bufs.spec_get(slot) != NULL,
            ),
{
    broadcast use crate::script::group_batch;

}

proof fn lemma_format_buffers_step(script: EncSetFormat, state: EncoderState, reply: Reply)
    requires
        (format_buffers().at)(script, state),
    ensures
        format_buffers().step_balances(crate::script::anything(), script, state, reply),
{
    broadcast use crate::script::lemma_batch_short;

    match script {
        EncSetFormat::Begin { format } => {
            let sized = EncoderState { geometry: format.geometry(), ..state };
            lemma_replace_weight(sized, Slot::First, format.frame_size);
        },
        EncSetFormat::Buffer { format, slot, script } => match script {
            AllocBuffer::Begin { .. } => {},
            AllocBuffer::Got { .. } => {},
            AllocBuffer::Fd { buffer } => {
                let filled = EncoderState { input_bufs: state.input_bufs.spec_with(slot, buffer), ..state };
                let ready = EncoderState { slot: Slot::First, ..filled };
                lemma_replace_weight(filled, Slot::Second, format.frame_size);
                lemma_configure_weighs_nothing(ready, format);
            },
        },
        EncSetFormat::Configured { .. } => {},
        EncSetFormat::OutputState => {},
        EncSetFormat::Negotiated => {},
    }
}

/// Setting a format up loses no input buffer: what was there is given back, and what is allocated
/// is held by the encoder afterwards, whether it succeeds or not.
pub proof fn law_set_format_keeps_buffers(format: EncFormat, state: EncoderState, replies: Seq<Reply>)
    requires
        crate::script::run(EncSetFormat::Begin { format }, state, replies).out is Some,
    ensures
        ({
            let run = crate::script::run(EncSetFormat::Begin { format }, state, replies);
            state.buffers_held() + crate::script::total(crate::resources::buffer_weight(), run.log)
                == run.state.buffers_held()
        }),
{
    assert forall|script: EncSetFormat, st: EncoderState, reply: Reply|
        (format_buffers().at)(script, st) implies #[trigger] format_buffers().step_balances(
        crate::script::anything(),
        script,
        st,
        reply,
    ) by {
        lemma_format_buffers_step(script, st, reply);
    }
    crate::script::lemma_run_balances(format_buffers(), EncSetFormat::Begin { format }, state, replies);
}

spec fn format_conduct(format: EncFormat, state: EncoderState) -> crate::script::Conduct<EncSetFormat> {
    crate::script::Conduct {
        at: |script: EncSetFormat, st: EncoderState|
            {
                &&& match script {
                    EncSetFormat::Begin { format: f } => f == format,
                    EncSetFormat::Buffer { format: f, script: alloc_script, .. } => f == format && !(
                    alloc_script is Begin),
                    EncSetFormat::Configured { format: f } => f == format && st.slot == Slot::First,
                    _ => st.slot == Slot::First,
                }
                &&& !(script is Begin) ==> st.geometry == format.geometry()
                &&& (st.codec, st.in_flight_frame, st.mpp, st.cfg, st.allocator, st.api) == (
                    state.codec,
                    state.in_flight_frame,
                    state.mpp,
                    state.cfg,
                    state.allocator,
                    state.api,
                )
            },
        allowed: |event: Event|
            match event.call {
                Call::SetOutputState { mime, width, height } => {
                    &&& mime == crate::enc::format::spec_codec_mime(state.codec)
                    &&& width == format.width
                    &&& height == format.height
                },
                Call::BufferGet { group, size } => group == state.allocator.group && size == format.frame_size,
                _ => true,
            },
        ends: |st: EncoderState, out: Result<(), SetFormatError>|
            {
                &&& st.geometry == format.geometry()
                &&& out is Ok ==> st.slot == Slot::First
                &&& st.in_flight_frame == state.in_flight_frame
            },
    }
}

proof fn lemma_format_conduct_step(
    format: EncFormat,
    state: EncoderState,
    script: EncSetFormat,
    st: EncoderState,
    reply: Reply,
)
    requires
        (format_conduct(format, state).at)(script, st),
    ensures
        format_conduct(format, state).step_keeps(script, st, reply),
{
    match script {
        EncSetFormat::Begin { .. } => {},
        EncSetFormat::Buffer { format: f, slot, script: alloc_script } => match alloc_script {
            AllocBuffer::Begin { .. } => {},
            AllocBuffer::Got { .. } => {},
            AllocBuffer::Fd { buffer } => {},
        },
        EncSetFormat::Configured { .. } => {},
        EncSetFormat::OutputState => {},
        EncSetFormat::Negotiated => {},
    }
}

/// Setting a format up takes the picture's geometry over, asks for buffers of the format's size
/// only, announces the stream type of the encoder's codec at the picture's size, and starts with
/// the first buffer. It leaves a frame in flight alone.
pub proof fn law_set_format_follows_format(format: EncFormat, state: EncoderState, replies: Seq<Reply>)
    requires
        crate::script::run(EncSetFormat::Begin { format }, state, replies).out is Some,
    ensures
        ({
            let run = crate::script::run(EncSetFormat::Begin { format }, state, replies);
            &&& forall|i: int|
                0 <= i < run.log.len() ==> match (#[trigger] run.log[i]).call {
                    Call::SetOutputState { mime, width, height } => {
                        &&& mime == crate::enc::format::spec_codec_mime(state.codec)
                        &&& width == format.width
                        &&& height == format.height
                    },
                    Call::BufferGet { group, size } => group == state.allocator.group && size == format.frame_size,
                    _ => true,
                }
            &&& run.state.geometry == format.geometry()
            &&& run.out->0 is Ok ==> run.state.slot == Slot::First
            &&& run.state.in_flight_frame == state.in_flight_frame
        }),
{
    let conduct = format_conduct(format, state);
    assert forall|script: EncSetFormat, st: EncoderState, reply: Reply|
        (conduct.at)(script, st) implies #[trigger] conduct.step_keeps(script, st, reply) by {
        lemma_format_conduct_step(format, state, script, st, reply);
    }
    crate::script::lemma_run_conduct(conduct, EncSetFormat::Begin { format }, state, replies);
}

/// Setting a format up comes to an end.
pub proof fn law_set_format_ends(format: EncFormat, state: EncoderState, replies: Seq<Reply>)
    requires
        replies.len() >= 8,
    ensures
        crate::script::run(EncSetFormat::Begin { format }, state, replies).out is Some,
{
    let rank = |script: EncSetFormat|
        match script {
            EncSetFormat::Begin { .. } => 7nat,
            EncSetFormat::Buffer { slot, script: alloc_script, .. } => {
                let within = match alloc_script {
                    AllocBuffer::Begin { .. } => 2nat,
                    AllocBuffer::Got { .. } => 1,
                    AllocBuffer::Fd { .. } => 0,
                };
                match slot {
                    Slot::First => 5 + within,
                    Slot::Second => 3 + within,
                }
            },
            EncSetFormat::Configured { .. } => 2,
            EncSetFormat::OutputState => 1,
            EncSetFormat::Negotiated => 0,
        };
    crate::script::lemma_run_completes(rank, EncSetFormat::Begin { format }, state, replies);
}

} // verus!

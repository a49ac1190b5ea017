//! What the outside hands out and wants back, as weights of events: positive where something is
//! acquired, negative where it is given back.

use vstd::prelude::*;

use crate::call::{Call, Reply};
use crate::mpp_ffi::{MPP_OK, NULL};
use crate::script::Event;

verus! {

/// Whether a reply says that the call succeeded.
pub open spec fn succeeded(reply: Option<Reply>) -> bool {
    reply matches Some(reply) && reply.ret == MPP_OK
}

/// Whether a reply hands out a pointer.
pub open spec fn hands_out(reply: Option<Reply>) -> bool {
    reply matches Some(reply) && reply.handle != NULL
}

/// One where the condition holds, else none.
pub open spec fn one_if(cond: bool) -> int {
    if cond {
        1
    } else {
        0
    }
}

/// Contexts of MPP.
pub open spec fn context_weight() -> spec_fn(Event) -> int {
    |event: Event|
        match event.call {
            Call::Create => one_if(succeeded(event.reply)),
            Call::Destroy(_) => -1,
            _ => 0,
        }
}

/// Encoder configurations.
pub open spec fn config_weight() -> spec_fn(Event) -> int {
    |event: Event|
        match event.call {
            Call::EncCfgInit => one_if(succeeded(event.reply)),
            Call::EncCfgDeinit(_) => -1,
            _ => 0,
        }
}

/// Frames of MPP that are ours.
pub open spec fn frame_weight() -> spec_fn(Event) -> int {
    |event: Event|
        match event.call {
            Call::FrameInit => one_if(succeeded(event.reply) && hands_out(event.reply)),
            Call::DecodeGetFrame(_) => one_if(succeeded(event.reply) && hands_out(event.reply)),
            Call::FrameDeinit(frame) => -one_if(frame != NULL),
            _ => 0,
        }
}

/// Packets of MPP that are ours. The encoder hands a packet out wherever it writes a pointer.
pub open spec fn packet_weight() -> spec_fn(Event) -> int {
    |event: Event|
        match event.call {
            Call::PacketInit(_) => one_if(succeeded(event.reply)),
            Call::EncodeGetPacket(_) => one_if(hands_out(event.reply)),
            Call::PacketDeinit(_) => -1,
            _ => 0,
        }
}

/// References to MPP buffers.
pub open spec fn buffer_weight() -> spec_fn(Event) -> int {
    |event: Event|
        match event.call {
            Call::BufferGet { .. } => one_if(succeeded(event.reply) && hands_out(event.reply)),
            Call::BufferPut(buffer) => -one_if(buffer != NULL),
            _ => 0,
        }
}

/// Buffer groups that a decoder keeps; a group counts wherever a pointer to it was written.
pub open spec fn group_weight() -> spec_fn(Event) -> int {
    |event: Event|
        match event.call {
            Call::BufferGroupGet { .. } => one_if(hands_out(event.reply)),
            Call::BufferGroupPut(_) => -1,
            _ => 0,
        }
}

/// Pictures and packets that were copied for GStreamer and not handed on yet.
pub open spec fn picture_weight() -> spec_fn(Event) -> int {
    |event: Event|
        match event.call {
            Call::CopyPacket { .. } => 1,
            Call::NewEmptyBuffer => 1,
            Call::CopyDecoded { .. } => one_if(hands_out(event.reply)),
            Call::TryGetOneFrame => one_if(
                event.reply matches Some(reply) && reply.frame is Frame,
            ),
            Call::FinishOneFrame(_) => -1,
            Call::SetOutputBuffer { .. } => -1,
            Call::SetFrameOutput(_) => -1,
            Call::DropBuffer(_) => -1,
            _ => 0,
        }
}

} // verus!

//! What holds of the way of a frame through the encoder.

use vstd::prelude::*;

use crate::call::{Call, Flow, Reply};
use crate::enc::frames::{AfterFrame, EncFinish, EncHandleFrame, PollPending, MAX_POLL_ATTEMPTS};
use crate::enc::state::EncoderState;
use crate::mpp_ffi::{GstBuffer, MppFrame, MPP_OK, NULL};
use crate::script::Event;

verus! {

impl PollPending {
    /// The packets that are ours at this point, given the reply that is about to be taken.
    pub open spec fn packets_held(self, reply: Reply) -> int {
        match self {
            PollPending::Begin => 0,
            PollPending::Polled { .. } => crate::resources::one_if(reply.handle != NULL),
            PollPending::Inspected { .. } => 1,
            PollPending::Copied { .. } => 1,
        }
    }

    /// Whether the frame that was in flight is released already.
    pub open spec fn released(self) -> bool {
        self is Inspected || self is Copied
    }
}

spec fn handle_at() -> spec_fn(EncHandleFrame, EncoderState) -> bool {
    |script: EncHandleFrame, state: EncoderState|
        match script {
            EncHandleFrame::Begin { .. } => true,
            EncHandleFrame::Pending { script, .. } => script.released() ==> state.in_flight_frame == NULL,
            _ => state.in_flight_frame == NULL,
        }
}

spec fn handle_frames() -> crate::script::Account<EncHandleFrame> {
    crate::script::Account {
        weight: crate::resources::frame_weight(),
        at: handle_at(),
        held: |script: EncHandleFrame, state: EncoderState, reply: Reply|
            match script {
                EncHandleFrame::Frame { .. } => crate::resources::one_if(reply.ret == MPP_OK && reply.handle != NULL),
                EncHandleFrame::Submitted { frame, .. } => crate::resources::one_if(frame != NULL),
                _ => state.frames_held(),
            },
        kept: |state: EncoderState, out: AfterFrame| state.frames_held(),
    }
}

spec fn handle_packets() -> crate::script::Account<EncHandleFrame> {
    crate::script::Account {
        weight: crate::resources::packet_weight(),
        at: |script: EncHandleFrame, state: EncoderState| true,
        held: |script: EncHandleFrame, state: EncoderState, reply: Reply|
            match script {
                EncHandleFrame::Pending { script, .. } => script.packets_held(reply),
                _ => 0,
            },
        kept: |state: EncoderState, out: AfterFrame| 0int,
    }
}

spec fn handle_pictures() -> crate::script::Account<EncHandleFrame> {
    crate::script::Account {
        weight: crate::resources::picture_weight(),
        at: |script: EncHandleFrame, state: EncoderState| true,
        held: |script: EncHandleFrame, state: EncoderState, reply: Reply|
            match script {
                EncHandleFrame::Begin { .. } => 0,
                EncHandleFrame::Pending { script, .. } => crate::resources::one_if(script is Copied),
                EncHandleFrame::Input { previous, .. } => crate::resources::one_if(previous is Some),
                EncHandleFrame::Copied { previous, .. } => crate::resources::one_if(previous is Some),
                EncHandleFrame::Frame { previous, .. } => crate::resources::one_if(previous is Some),
                EncHandleFrame::Submitted { previous, .. } => crate::resources::one_if(previous is Some),
            },
        kept: |state: EncoderState, out: AfterFrame| crate::resources::one_if(out is Deliver),
    }
}

/// A batch that fills a frame in weighs what the calls after that weigh, where filling in weighs
/// nothing.
proof fn lemma_fill_batch(
    weight: spec_fn(Event) -> int,
    state: EncoderState,
    frame: MppFrame,
    pts: Option<i64>,
    end: Seq<Call>,
    answer: Option<Reply>,
)
    requires
        forall|i: int, reply: Option<Reply>|
            #![trigger weight(Event { call: state.frame_calls(frame, pts)[i], reply })]
            0 <= i < state.frame_calls(frame, pts).len() ==> weight(
                Event { call: state.frame_calls(frame, pts)[i], reply },
            ) == 0,
    ensures
        crate::script::batch(weight, state.frame_calls(frame, pts) + end, answer) == crate::script::batch(
            weight,
            end,
            answer,
        ),
{
    crate::script::lemma_batch_add(weight, state.frame_calls(frame, pts), end, answer);
    crate::script::lemma_batch_nothing(
        weight,
        state.frame_calls(frame, pts),
        if end.len() > 0 {
            None
        } else {
            answer
        },
    );
}

/// What the longer batches of taking a frame weigh, where filling a frame in weighs nothing.
pub(crate) proof fn lemma_handle_batches(weight: spec_fn(Event) -> int, state: EncoderState)
    requires
        forall|frame: MppFrame, pts: Option<i64>, i: int, answer: Option<Reply>|
            #![trigger weight(Event { call: state.frame_calls(frame, pts)[i], reply: answer })]
            0 <= i < state.frame_calls(frame, pts).len() ==> weight(
                Event { call: state.frame_calls(frame, pts)[i], reply: answer },
            ) == 0,
    ensures
        forall|calls: Seq<Call>, answer: Reply|
            #![trigger crate::script::batch(weight, calls + seq![Call::InputBuffer], Some(answer))]
            crate::script::batch(weight, calls + seq![Call::InputBuffer], Some(answer)) == crate::script::batch(
                weight,
                calls,
                None,
            ) + weight(Event { call: Call::InputBuffer, reply: Some(answer) }),
        forall|frame: MppFrame, pts: Option<i64>, answer: Reply|
            #![trigger crate::script::batch(
                weight,
                state.frame_calls(frame, pts) + seq![Call::EncodePutFrame { mpp: state.mpp, frame }],
                Some(answer),
            )]
            crate::script::batch(
                weight,
                state.frame_calls(frame, pts) + seq![Call::EncodePutFrame { mpp: state.mpp, frame }],
                Some(answer),
            ) == weight(Event { call: Call::EncodePutFrame { mpp: state.mpp, frame }, reply: Some(answer) }),
        forall|frame: MppFrame, pts: Option<i64>, drops: Seq<Call>|
            #![trigger crate::script::batch(
                weight,
                state.frame_calls(frame, pts) + seq![Call::FrameDeinit(frame)] + drops,
                None,
            )]
            crate::script::batch(
                weight,
                state.frame_calls(frame, pts) + seq![Call::FrameDeinit(frame)] + drops,
                None,
            ) == weight(Event { call: Call::FrameDeinit(frame), reply: None }) + crate::script::batch(
                weight,
                drops,
                None,
            ),
{
    broadcast use crate::script::lemma_batch_short;

    assert forall|calls: Seq<Call>, answer: Reply|
        #![trigger crate::script::batch(weight, calls + seq![Call::InputBuffer], Some(answer))]
        crate::script::batch(weight, calls + seq![Call::InputBuffer], Some(answer)) == crate::script::batch(
            weight,
            calls,
            None,
        ) + weight(Event { call: Call::InputBuffer, reply: Some(answer) }) by {
        crate::script::lemma_batch_add(weight, calls, seq![Call::InputBuffer], Some(answer));
    }
    assert forall|frame: MppFrame, pts: Option<i64>, answer: Reply|
        #![trigger crate::script::batch(
            weight,
            state.frame_calls(frame, pts) + seq![Call::EncodePutFrame { mpp: state.mpp, frame }],
            Some(answer),
        )]
        crate::script::batch(
            weight,
            state.frame_calls(frame, pts) + seq![Call::EncodePutFrame { mpp: state.mpp, frame }],
            Some(answer),
        ) == weight(Event { call: Call::EncodePutFrame { mpp: state.mpp, frame }, reply: Some(answer) }) by {
        let put = seq![Call::EncodePutFrame { mpp: state.mpp, frame }];
        lemma_fill_batch(weight, state, frame, pts, put, Some(answer));
    }
    assert forall|frame: MppFrame, pts: Option<i64>, drops: Seq<Call>|
        #![trigger crate::script::batch(
            weight,
            state.frame_calls(frame, pts) + seq![Call::FrameDeinit(frame)] + drops,
            None,
        )]
        crate::script::batch(
            weight,
            state.frame_calls(frame, pts) + seq![Call::FrameDeinit(frame)] + drops,
            None,
        ) == weight(Event { call: Call::FrameDeinit(frame), reply: None }) + crate::script::batch(
            weight,
            drops,
            None,
        ) by {
        let deinit = seq![Call::FrameDeinit(frame)];
        lemma_fill_batch(weight, state, frame, pts, deinit, None);
        crate::script::lemma_batch_add(weight, state.frame_calls(frame, pts) + deinit, drops, None);
    }
}

proof fn lemma_handle_frames_step(script: EncHandleFrame, state: EncoderState, reply: Reply)
    requires
        handle_at()(script, state),
    ensures
        handle_frames().step_balances(crate::script::anything(), script, state, reply),
{
    broadcast use crate::script::lemma_batch_short;

    let weight = crate::resources::frame_weight();
    match script {
        EncHandleFrame::Begin { .. } => {},
        EncHandleFrame::Pending { .. } => {
            lemma_handle_batches(weight, state);
        },
        EncHandleFrame::Input { .. } => {},
        EncHandleFrame::Copied { .. } => {},
        EncHandleFrame::Frame { .. } => {
            lemma_handle_batches(weight, state);
        },
        EncHandleFrame::Submitted { frame, previous } => {
            let drops = crate::enc::frames::drop_calls(previous);
            crate::script::lemma_batch_add(weight, seq![Call::FrameDeinit(frame)], drops, None);
        },
    }
}

proof fn lemma_handle_frames(pts: Option<i64>, state: EncoderState, replies: Seq<Reply>)
    requires
        crate::script::run(EncHandleFrame::Begin { pts }, state, replies).out is Some,
    ensures
        ({
            let run = crate::script::run(EncHandleFrame::Begin { pts }, state, replies);
            state.frames_held() + crate::script::total(crate::resources::frame_weight(), run.log)
                == run.state.frames_held()
        }),
{
    assert forall|script: EncHandleFrame, st: EncoderState, reply: Reply|
        handle_at()(script, st) implies #[trigger] handle_frames().step_balances(
        crate::script::anything(),
        script,
        st,
        reply,
    ) by {
        lemma_handle_frames_step(script, st, reply);
    }
    crate::script::lemma_run_balances(handle_frames(), EncHandleFrame::Begin { pts }, state, replies);
}

proof fn lemma_handle_packets_step(script: EncHandleFrame, state: EncoderState, reply: Reply)
    ensures
        handle_packets().step_balances(crate::script::anything(), script, state, reply),
{
    broadcast use crate::script::lemma_batch_short;

    let weight = crate::resources::packet_weight();
    match script {
        EncHandleFrame::Begin { .. } => {},
        EncHandleFrame::Pending { .. } => {
            lemma_handle_batches(weight, state);
        },
        EncHandleFrame::Input { .. } => {},
        EncHandleFrame::Copied { .. } => {},
        EncHandleFrame::Frame { .. } => {
            lemma_handle_batches(weight, state);
        },
        EncHandleFrame::Submitted { frame, previous } => {
            let drops = crate::enc::frames::drop_calls(previous);
            crate::script::lemma_batch_add(weight, seq![Call::FrameDeinit(frame)], drops, None);
        },
    }
}

proof fn lemma_handle_packets(pts: Option<i64>, state: EncoderState, replies: Seq<Reply>)
    requires
        crate::script::run(EncHandleFrame::Begin { pts }, state, replies).out is Some,
    ensures
        crate::script::total(
            crate::resources::packet_weight(),
            crate::script::run(EncHandleFrame::Begin { pts }, state, replies).log,
        ) == 0,
{
    assert forall|script: EncHandleFrame, st: EncoderState, reply: Reply| #[trigger]
        handle_packets().step_balances(crate::script::anything(), script, st, reply) by {
        lemma_handle_packets_step(script, st, reply);
    }
    crate::script::lemma_run_balances(handle_packets(), EncHandleFrame::Begin { pts }, state, replies);
}

proof fn lemma_handle_pictures_step(script: EncHandleFrame, state: EncoderState, reply: Reply)
    ensures
        handle_pictures().step_balances(crate::script::anything(), script, state, reply),
{
    broadcast use crate::script::lemma_batch_short;

    let weight = crate::resources::picture_weight();
    match script {
        EncHandleFrame::Begin { .. } => {},
        EncHandleFrame::Pending { .. } => {
            lemma_handle_batches(weight, state);
        },
        EncHandleFrame::Input { .. } => {},
        EncHandleFrame::Copied { .. } => {},
        EncHandleFrame::Frame { .. } => {
            lemma_handle_batches(weight, state);
        },
        EncHandleFrame::Submitted { frame, previous } => {
            let drops = crate::enc::frames::drop_calls(previous);
            crate::script::lemma_batch_add(weight, seq![Call::FrameDeinit(frame)], drops, None);
        },
    }
}

proof fn lemma_handle_pictures(pts: Option<i64>, state: EncoderState, replies: Seq<Reply>)
    requires
        crate::script::run(EncHandleFrame::Begin { pts }, state, replies).out is Some,
    ensures
        ({
            let run = crate::script::run(EncHandleFrame::Begin { pts }, state, replies);
            crate::script::total(crate::resources::picture_weight(), run.log) == crate::resources::one_if(
                run.out->0 is Deliver,
            )
        }),
{
    assert forall|script: EncHandleFrame, st: EncoderState, reply: Reply| #[trigger]
        handle_pictures().step_balances(crate::script::anything(), script, st, reply) by {
        lemma_handle_pictures_step(script, st, reply);
    }
    crate::script::lemma_run_balances(handle_pictures(), EncHandleFrame::Begin { pts }, state, replies);
}

/// Taking a frame loses nothing: of the frames of MPP that were made or in flight, exactly the one
/// that is in flight afterwards is left; every packet is given back; a buffer that was copied out of
/// a packet goes downstream or is dropped.
pub proof fn law_handle_frame_loses_nothing(pts: Option<i64>, state: EncoderState, replies: Seq<Reply>)
    requires
        crate::script::run(EncHandleFrame::Begin { pts }, state, replies).out is Some,
    ensures
        ({
            let run = crate::script::run(EncHandleFrame::Begin { pts }, state, replies);
            &&& state.frames_held() + crate::script::total(crate::resources::frame_weight(), run.log)
                == run.state.frames_held()
            &&& crate::script::total(crate::resources::packet_weight(), run.log) == 0
            &&& crate::script::total(crate::resources::picture_weight(), run.log) == crate::resources::one_if(
                run.out->0 is Deliver,
            )
        }),
{
    lemma_handle_frames(pts, state, replies);
    lemma_handle_packets(pts, state, replies);
    lemma_handle_pictures(pts, state, replies);
}

spec fn finish_frames() -> crate::script::Account<EncFinish> {
    crate::script::Account {
        weight: crate::resources::frame_weight(),
        at: |script: EncFinish, state: EncoderState| true,
        held: |script: EncFinish, state: EncoderState, reply: Reply| state.frames_held(),
        kept: |state: EncoderState, out: AfterFrame| state.frames_held(),
    }
}

spec fn finish_packets() -> crate::script::Account<EncFinish> {
    crate::script::Account {
        weight: crate::resources::packet_weight(),
        at: |script: EncFinish, state: EncoderState| true,
        held: |script: EncFinish, state: EncoderState, reply: Reply|
            match script {
                EncFinish::Begin => 0,
                EncFinish::Pending { script } => script.packets_held(reply),
            },
        kept: |state: EncoderState, out: AfterFrame| 0int,
    }
}

spec fn finish_pictures() -> crate::script::Account<EncFinish> {
    crate::script::Account {
        weight: crate::resources::picture_weight(),
        at: |script: EncFinish, state: EncoderState| true,
        held: |script: EncFinish, state: EncoderState, reply: Reply|
            match script {
                EncFinish::Begin => 0,
                EncFinish::Pending { script } => crate::resources::one_if(script is Copied),
            },
        kept: |state: EncoderState, out: AfterFrame| crate::resources::one_if(out is Deliver),
    }
}

/// The end of the stream loses nothing: the frame in flight is released unless it stays in flight,
/// every packet is given back, and what was copied out of the last packet goes downstream.
pub proof fn law_finish_loses_nothing(state: EncoderState, replies: Seq<Reply>)
    requires
        crate::script::run(EncFinish::Begin, state, replies).out is Some,
    ensures
        ({
            let run = crate::script::run(EncFinish::Begin, state, replies);
            &&& state.frames_held() + crate::script::total(crate::resources::frame_weight(), run.log)
                == run.state.frames_held()
            &&& crate::script::total(crate::resources::packet_weight(), run.log) == 0
            &&& crate::script::total(crate::resources::picture_weight(), run.log) == crate::resources::one_if(
                run.out->0 is Deliver,
            )
        }),
{
    broadcast use crate::script::lemma_batch_short;

    crate::script::lemma_run_balances(finish_frames(), EncFinish::Begin, state, replies);
    crate::script::lemma_run_balances(finish_packets(), EncFinish::Begin, state, replies);
    crate::script::lemma_run_balances(finish_pictures(), EncFinish::Begin, state, replies);
}

/// After the end of the stream no frame is in flight, unless one is and packets cannot be fetched at
/// all.
pub proof fn law_finish_lands(state: EncoderState, replies: Seq<Reply>)
    requires
        crate::script::run(EncFinish::Begin, state, replies).out is Some,
        state.api.encode_get_packet || state.in_flight_frame == NULL,
    ensures
        crate::script::run(EncFinish::Begin, state, replies).state == state.landed(),
{
    let conduct = crate::script::Conduct {
        at: |script: EncFinish, st: EncoderState|
            match script {
                EncFinish::Begin => st == state,
                EncFinish::Pending { script } => if script.released() {
                    st == state.landed()
                } else {
                    script is Polled && st == state
                },
            },
        allowed: |event: Event| true,
        ends: |st: EncoderState, out: AfterFrame| st == state.landed(),
    };
    crate::script::lemma_run_conduct(conduct, EncFinish::Begin, state, replies);
}

/// Flushing releases the frame in flight, once.
pub proof fn law_flush_lands(state: EncoderState)
    ensures
        state.frames_held() + crate::script::batch(crate::resources::frame_weight(), state.flush_calls(), None) == 0,
        state.landed().frames_held() == 0,
{
    broadcast use crate::script::group_batch;

}

/// A frame whose packet does not come within five attempts is given up: the frame is released, and
/// the answer is an error.
pub proof fn law_poll_gives_up(state: EncoderState, replies: Seq<Reply>)
    requires
        state.api.encode_get_packet,
        replies.len() > MAX_POLL_ATTEMPTS,
        forall|i: int| 1 <= i <= MAX_POLL_ATTEMPTS ==> (#[trigger] replies[i]).handle == NULL,
    ensures
        ({
            let run = crate::script::run(PollPending::Begin, state, replies);
            &&& run.out == Some(Err::<GstBuffer, Flow>(Flow::Error))
            &&& run.state == state.landed()
            &&& run.log.len() == MAX_POLL_ATTEMPTS + 1
            &&& forall|i: int|
                0 <= i < MAX_POLL_ATTEMPTS ==> (#[trigger] run.log[i]).call == Call::EncodeGetPacket(state.mpp)
            &&& run.log[MAX_POLL_ATTEMPTS as int].call == Call::FrameDeinit(state.in_flight_frame)
        }),
{
    reveal_with_fuel(crate::script::run, 7);
    let rest = replies.skip(1).skip(1).skip(1).skip(1).skip(1);
    assert(rest[0] == replies[5]);
}

/// Taking a frame comes to an end.
pub proof fn law_handle_frame_ends(pts: Option<i64>, state: EncoderState, replies: Seq<Reply>)
    requires
        replies.len() >= MAX_POLL_ATTEMPTS + 7,
    ensures
        crate::script::run(EncHandleFrame::Begin { pts }, state, replies).out is Some,
{
    let rank = |script: EncHandleFrame|
        match script {
            EncHandleFrame::Begin { .. } => (MAX_POLL_ATTEMPTS + 6) as nat,
            EncHandleFrame::Pending { script, .. } => match script {
                PollPending::Begin => (MAX_POLL_ATTEMPTS + 6) as nat,
                PollPending::Polled { attempts } => if attempts < MAX_POLL_ATTEMPTS {
                    (MAX_POLL_ATTEMPTS - attempts + 6) as nat
                } else {
                    6
                },
                PollPending::Inspected { .. } => 5,
                PollPending::Copied { .. } => 4,
            },
            EncHandleFrame::Input { .. } => 3,
            EncHandleFrame::Copied { .. } => 2,
            EncHandleFrame::Frame { .. } => 1,
            EncHandleFrame::Submitted { .. } => 0,
        };
    crate::script::lemma_run_completes(rank, EncHandleFrame::Begin { pts }, state, replies);
}

/// The end of the stream is reached after a bounded number of calls.
pub proof fn law_finish_ends(state: EncoderState, replies: Seq<Reply>)
    requires
        replies.len() >= MAX_POLL_ATTEMPTS + 3,
    ensures
        crate::script::run(EncFinish::Begin, state, replies).out is Some,
{
    let rank = |script: EncFinish|
        match script {
            EncFinish::Begin => (MAX_POLL_ATTEMPTS + 2) as nat,
            EncFinish::Pending { script } => match script {
                PollPending::Begin => (MAX_POLL_ATTEMPTS + 2) as nat,
                PollPending::Polled { attempts } => if attempts < MAX_POLL_ATTEMPTS {
                    (MAX_POLL_ATTEMPTS - attempts + 2) as nat
                } else {
                    2
                },
                PollPending::Inspected { .. } => 1,
                PollPending::Copied { .. } => 0,
            },
        };
    crate::script::lemma_run_completes(rank, EncFinish::Begin, state, replies);
}

/// The conduct of taking a frame with regard to the input buffers.
spec fn turns(state: EncoderState) -> crate::script::Conduct<EncHandleFrame> {
    crate::script::Conduct {
        at: |script: EncHandleFrame, st: EncoderState|
            st.input_bufs == state.input_bufs && st.slot == state.slot && st.geometry == state.geometry,
        allowed: |event: Event|
            match event.call {
                Call::CopyInput { target, geometry, .. } => target == state.input_bufs.spec_get(state.slot) && geometry
                    == state.geometry,
                Call::FrameSetBuffer { buffer, .. } => buffer == state.input_bufs.spec_get(state.slot),
                _ => true,
            },
        ends: |st: EncoderState, out: AfterFrame|
            {
                &&& st.input_bufs == state.input_bufs
                &&& st.slot == match out {
                    AfterFrame::Deliver(_) => state.slot.spec_other(),
                    AfterFrame::Answer(Flow::Success) => state.slot.spec_other(),
                    AfterFrame::Answer(_) => state.slot,
                }
            },
    }
}

proof fn lemma_turns_step(state: EncoderState, script: EncHandleFrame, st: EncoderState, reply: Reply)
    requires
        (turns(state).at)(script, st),
    ensures
        turns(state).step_keeps(script, st, reply),
{
    match script {
        EncHandleFrame::Begin { .. } => {},
        EncHandleFrame::Pending { script, .. } => match script {
            PollPending::Begin => {},
            PollPending::Polled { .. } => {},
            PollPending::Inspected { .. } => {},
            PollPending::Copied { .. } => {},
        },
        EncHandleFrame::Input { .. } => {},
        EncHandleFrame::Copied { .. } => {},
        EncHandleFrame::Frame { .. } => {},
        EncHandleFrame::Submitted { .. } => {},
    }
}

/// The two input buffers take turns: a frame is written into one of them and encoded from the same
/// one, and the next frame goes into the other if and only if this one was submitted.
pub proof fn law_input_buffers_alternate(pts: Option<i64>, state: EncoderState, replies: Seq<Reply>)
    requires
        crate::script::run(EncHandleFrame::Begin { pts }, state, replies).out is Some,
    ensures
        ({
            let run = crate::script::run(EncHandleFrame::Begin { pts }, state, replies);
            let buffer = state.input_bufs.spec_get(state.slot);
            &&& forall|i: int|
                0 <= i < run.log.len() ==> match #[trigger] run.log[i].call {
                    Call::CopyInput { target, geometry, .. } => target == buffer && geometry == state.geometry,
                    Call::FrameSetBuffer { buffer: b, .. } => b == buffer,
                    _ => true,
                }
            &&& run.state.input_bufs == state.input_bufs
            &&& run.state.slot == match run.out->0 {
                AfterFrame::Deliver(_) => state.slot.spec_other(),
                AfterFrame::Answer(Flow::Success) => state.slot.spec_other(),
                AfterFrame::Answer(_) => state.slot,
            }
        }),
{
    assert forall|script: EncHandleFrame, st: EncoderState, reply: Reply|
        (turns(state).at)(script, st) implies #[trigger] turns(state).step_keeps(script, st, reply) by {
        lemma_turns_step(state, script, st, reply);
    }
    crate::script::lemma_run_conduct(turns(state), EncHandleFrame::Begin { pts }, state, replies);
}

} // verus!

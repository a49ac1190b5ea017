//! What holds of frames that go through the encoder one after the other.

use vstd::prelude::*;

use crate::allocator::AllocIndex;
use crate::call::{Call, Flow, Reply};
use crate::enc::configure::EncSetFormat;
use crate::enc::format::EncFormat;
use crate::enc::frames::{AfterFrame, EncHandleFrame, PollPending};
use crate::enc::state::{EncStart, EncoderState, Slot};
use crate::mpp_ffi::{GstBuffer, Mpp, MppFrame, MPP_OK, NULL};
use crate::output::Deliver;
use crate::script::Event;

verus! {

/// Whether a frame was submitted.
pub open spec fn submitted(out: AfterFrame) -> bool {
    out is Deliver || out == AfterFrame::Answer(Flow::Success)
}

/// Expects that a frame that is taken is not the null pointer.
pub open spec fn frame_is_made() -> spec_fn(EncHandleFrame, Reply) -> bool {
    |script: EncHandleFrame, reply: Reply|
        script matches EncHandleFrame::Submitted { frame, .. } ==> reply.ret == MPP_OK ==> frame != NULL
}

/// One frame that is handed to the encoder: its time stamp, the replies while it is taken, and those
/// while the buffer of the frame before goes downstream.
pub ghost struct FrameCall {
    pub pts: Option<i64>,
    pub replies: Seq<Reply>,
    pub delivery: Seq<Reply>,
}

impl FrameCall {
    /// How taking the frame goes.
    pub open spec fn taking(self, state: EncoderState) -> crate::script::Run<EncHandleFrame> {
        crate::script::run(EncHandleFrame::Begin { pts: self.pts }, state, self.replies)
    }

    /// How the delivery of a buffer goes.
    pub open spec fn delivering(self, script: Deliver) -> crate::script::Run<Deliver> {
        crate::script::run(script, (), self.delivery)
    }

    /// All that happens.
    pub open spec fn log(self, state: EncoderState) -> Seq<Event> {
        let taking = self.taking(state);
        match taking.out {
            Some(AfterFrame::Deliver(script)) => taking.log + self.delivering(script).log,
            _ => taking.log,
        }
    }

    /// What the element answers.
    pub open spec fn answer(self, state: EncoderState) -> Option<Flow> {
        match self.taking(state).out {
            Some(AfterFrame::Deliver(script)) => self.delivering(script).out,
            Some(AfterFrame::Answer(flow)) => Some(flow),
            None => None,
        }
    }

    /// Whether the frame goes through: it is submitted, and a buffer that was fetched goes to a frame
    /// that waits for it.
    pub open spec fn goes_through(self, state: EncoderState) -> bool {
        &&& self.taking(state).out matches Some(out) && submitted(out)
        &&& match self.answer(state) {
            Some(Flow::Success) => true,
            Some(Flow::Downstream(_)) => true,
            _ => false,
        }
        &&& crate::script::as_expected(
            frame_is_made(),
            EncHandleFrame::Begin { pts: self.pts },
            state,
            self.replies,
        )
    }
}

/// The encoder before the call at `k`.
pub open spec fn before(state: EncoderState, calls: Seq<FrameCall>, k: nat) -> EncoderState
    decreases k,
{
    if k == 0 {
        state
    } else {
        let previous = (k - 1) as nat;
        calls[k - 1].taking(before(state, calls, previous)).state
    }
}

/// All that happens in the first `n` calls.
pub open spec fn whole_log(state: EncoderState, calls: Seq<FrameCall>, n: nat) -> Seq<Event>
    decreases n,
{
    if n == 0 {
        Seq::empty()
    } else {
        let previous = (n - 1) as nat;
        whole_log(state, calls, previous) + calls[n - 1].log(before(state, calls, previous))
    }
}

/// The slot that the frame at `k` is written into.
pub open spec fn turn(k: nat) -> Slot {
    if k % 2 == 0 {
        Slot::First
    } else {
        Slot::Second
    }
}

/// How many frames were finished.
pub open spec fn finishes() -> spec_fn(Event) -> int {
    |event: Event| crate::resources::one_if(event.call is FinishFrame)
}

/// How many frames the encoder took.
pub open spec fn submissions() -> spec_fn(Event) -> int {
    |event: Event|
        crate::resources::one_if(event.call is EncodePutFrame && crate::resources::succeeded(event.reply))
}

/// The buffer of the frame before, where it is known at this point of the script.
spec fn carried(script: EncHandleFrame, reply: Reply) -> Option<GstBuffer> {
    match script {
        EncHandleFrame::Begin { .. } => None,
        EncHandleFrame::Pending { script, .. } => if script is Copied {
            Some(reply.handle)
        } else {
            None
        },
        EncHandleFrame::Input { previous, .. } => previous,
        EncHandleFrame::Copied { previous, .. } => previous,
        EncHandleFrame::Frame { previous, .. } => previous,
        EncHandleFrame::Submitted { previous, .. } => previous,
    }
}

/// Whether a buffer of the frame before is or will be there.
spec fn fetches(script: EncHandleFrame, state: EncoderState) -> bool {
    match script {
        EncHandleFrame::Begin { .. } => state.in_flight_frame != NULL,
        EncHandleFrame::Pending { .. } => true,
        EncHandleFrame::Input { previous, .. } => previous is Some,
        EncHandleFrame::Copied { previous, .. } => previous is Some,
        EncHandleFrame::Frame { previous, .. } => previous is Some,
        EncHandleFrame::Submitted { previous, .. } => previous is Some,
    }
}

/// Whether the packet of the frame before is still to be copied, and the frame to be released.
spec fn polls(script: EncHandleFrame) -> bool {
    match script {
        EncHandleFrame::Begin { .. } => true,
        EncHandleFrame::Pending { script, .. } => !script.released(),
        _ => false,
    }
}

/// Whether the packet of the frame before is still to be copied.
spec fn copies(script: EncHandleFrame) -> bool {
    match script {
        EncHandleFrame::Begin { .. } => true,
        EncHandleFrame::Pending { script, .. } => !(script is Copied),
        _ => false,
    }
}

/// What may happen on the way to a submission that ends with `out` and with `frame` in flight, from
/// a point on where `released` is still in flight.
pub open spec fn fits(event: Event, released: usize, frame: usize, out: AfterFrame) -> bool {
    match event.call {
        Call::FrameDeinit(f) => f == released,
        Call::EncodePutFrame { frame: f, .. } => f == frame,
        Call::CopyPacket { .. } => event.reply matches Some(reply) && out == AfterFrame::Deliver(
            Deliver::Begin { buffer: reply.handle, missing: Flow::Error },
        ),
        Call::NewEmptyBuffer => event.reply matches Some(reply) && out == AfterFrame::Deliver(
            Deliver::Begin { buffer: reply.handle, missing: Flow::Error },
        ),
        Call::FinishFrame(_) => false,
        _ => true,
    }
}

/// The same from a point on where nothing is to be released, or copied, any more.
spec fn fits_at(script: EncHandleFrame, event: Event, released: usize, frame: usize, out: AfterFrame) -> bool {
    &&& fits(event, released, frame, out)
    &&& !polls(script) ==> !(event.call is FrameDeinit)
    &&& !copies(script) ==> !(event.call is CopyPacket) && !(event.call is NewEmptyBuffer)
}

proof fn lemma_submission(script: EncHandleFrame, state: EncoderState, replies: Seq<Reply>)
    requires
        crate::script::run(script, state, replies).out matches Some(out) && submitted(out),
        crate::script::as_expected(frame_is_made(), script, state, replies),
    ensures
        ({
            let run = crate::script::run(script, state, replies);
            let out = run.out->0;
            let frame = run.state.in_flight_frame;
            &&& out is Deliver <==> fetches(script, state)
            &&& out matches AfterFrame::Deliver(deliver) ==> deliver matches Deliver::Begin { missing, .. } && missing
                == Flow::Error
            &&& carried(script, replies[0]) matches Some(buffer) ==> out == AfterFrame::Deliver(
                Deliver::Begin { buffer, missing: Flow::Error },
            )
            &&& script matches EncHandleFrame::Submitted { frame: f, .. } ==> f == frame
            &&& frame != NULL
            &&& forall|i: int|
                0 <= i < run.log.len() ==> fits_at(script, #[trigger] run.log[i], state.in_flight_frame, frame, out)
        }),
    decreases replies.len(),
{
    let run = crate::script::run(script, state, replies);
    let out = run.out->0;
    let frame = run.state.in_flight_frame;
    match crate::script::Script::next(script, state, replies[0]) {
        (after, crate::script::SpecStep::Calls(calls, script2)) => {
            let rest = replies.skip(1);
            let tail = crate::script::run(script2, after, rest);
            assert(tail.out is Some && rest.len() > 0);
            lemma_submission(script2, after, rest);
            let head = crate::script::events(calls, Some(rest[0]));
            assert(run.log == head + tail.log);
            lemma_submission_step(script, state, replies[0], rest[0], frame, out);
            assert forall|i: int| 0 <= i < run.log.len() implies fits_at(
                script,
                #[trigger] run.log[i],
                state.in_flight_frame,
                frame,
                out,
            ) by {
                if i < head.len() {
                    assert(run.log[i] == head[i]);
                } else {
                    assert(run.log[i] == tail.log[i - head.len()]);
                    assert(fits_at(script2, tail.log[i - head.len()], after.in_flight_frame, frame, out));
                }
            }
        },
        _ => {},
    }
}

proof fn lemma_submission_step(
    script: EncHandleFrame,
    state: EncoderState,
    reply: Reply,
    answer: Reply,
    frame: usize,
    out: AfterFrame,
)
    requires
        crate::script::Script::next(script, state, reply).1 matches crate::script::SpecStep::Calls(_, script2) && {
            &&& script2 matches EncHandleFrame::Submitted { frame: f, .. } ==> f == frame
            &&& carried(script2, answer) matches Some(buffer) ==> out == AfterFrame::Deliver(
                Deliver::Begin { buffer, missing: Flow::Error },
            )
        },
    ensures
        ({
            let (after, step) = crate::script::Script::next(script, state, reply);
            let script2 = step->Calls_1;
            let head = crate::script::events(step->Calls_0, Some(answer));
            &&& forall|i: int|
                0 <= i < head.len() ==> fits_at(script, #[trigger] head[i], state.in_flight_frame, frame, out)
            &&& polls(script2) ==> polls(script) && after.in_flight_frame == state.in_flight_frame
            &&& copies(script2) ==> copies(script)
            &&& fetches(script2, after) == fetches(script, state)
            &&& carried(script, reply) is Some ==> carried(script2, answer) == carried(script, reply)
        }),
{
    match script {
        EncHandleFrame::Begin { .. } => {},
        EncHandleFrame::Pending { script, .. } => match script {
            PollPending::Begin => {},
            PollPending::Polled { .. } => {},
            PollPending::Inspected { .. } => {},
            PollPending::Copied { .. } => {},
        },
        EncHandleFrame::Input { .. } => {},
        EncHandleFrame::Copied { .. } => {},
        EncHandleFrame::Frame { .. } => {},
        EncHandleFrame::Submitted { .. } => {},
    }
}

spec fn handle_submissions() -> crate::script::Account<EncHandleFrame> {
    crate::script::Account {
        weight: submissions(),
        at: |script: EncHandleFrame, state: EncoderState| true,
        held: |script: EncHandleFrame, state: EncoderState, reply: Reply|
            crate::resources::one_if(script is Submitted && reply.ret == MPP_OK),
        kept: |state: EncoderState, out: AfterFrame| crate::resources::one_if(submitted(out)),
    }
}

proof fn lemma_handle_submissions_step(script: EncHandleFrame, state: EncoderState, reply: Reply)
    ensures
        handle_submissions().step_balances(crate::script::anything(), script, state, reply),
{
    broadcast use crate::script::lemma_batch_short;

    match script {
        EncHandleFrame::Begin { .. } => {},
        EncHandleFrame::Pending { .. } => {
            crate::enc::frame_laws::lemma_handle_batches(submissions(), state);
        },
        EncHandleFrame::Input { .. } => {},
        EncHandleFrame::Copied { .. } => {},
        EncHandleFrame::Frame { .. } => {
            crate::enc::frame_laws::lemma_handle_batches(submissions(), state);
        },
        EncHandleFrame::Submitted { frame, previous } => {
            let drops = crate::enc::frames::drop_calls(previous);
            crate::script::lemma_batch_add(submissions(), seq![Call::FrameDeinit(frame)], drops, None);
        },
    }
}

proof fn lemma_handle_submissions(call: FrameCall, state: EncoderState)
    requires
        call.taking(state).out is Some,
    ensures
        crate::script::total(submissions(), call.taking(state).log) == crate::resources::one_if(
            submitted(call.taking(state).out->0),
        ),
{
    assert forall|script: EncHandleFrame, st: EncoderState, reply: Reply| #[trigger]
        handle_submissions().step_balances(crate::script::anything(), script, st, reply) by {
        lemma_handle_submissions_step(script, st, reply);
    }
    let script = EncHandleFrame::Begin { pts: call.pts };
    crate::script::lemma_run_balances(handle_submissions(), script, state, call.replies);
}

/// Whether at `j` a packet is fetched, `frame` is released, and what the packet holds is copied into
/// `buffer`; for a packet without data that is an empty buffer.
pub open spec fn takes_packet(log: Seq<Event>, j: int, mpp: Mpp, frame: MppFrame, buffer: GstBuffer) -> bool {
    &&& 0 <= j && j + 3 < log.len()
    &&& log[j].call == Call::EncodeGetPacket(mpp)
    &&& log[j].reply matches Some(fetched) && fetched.handle != NULL && log[j + 2].call == Call::PacketInspect(
        fetched.handle,
    )
    &&& log[j + 1].call == Call::FrameDeinit(frame)
    &&& log[j + 2].reply matches Some(packet) && log[j + 3].call == if packet.handle != NULL && packet.size > 0 {
        Call::CopyPacket { buffer: packet.handle, length: packet.size }
    } else {
        Call::NewEmptyBuffer
    }
    &&& log[j + 3].reply matches Some(copied) && copied.handle == buffer
}

/// From a point on where a packet was asked for, one is taken.
proof fn lemma_packet_taken(pts: Option<i64>, attempts: u32, state: EncoderState, replies: Seq<Reply>) -> (j: int)
    requires
        ({
            let script = EncHandleFrame::Pending { pts, script: PollPending::Polled { attempts } };
            &&& crate::script::run(script, state, replies).out matches Some(out) && submitted(out)
            &&& crate::script::as_expected(frame_is_made(), script, state, replies)
        }),
    ensures
        ({
            let script = EncHandleFrame::Pending { pts, script: PollPending::Polled { attempts } };
            let run = crate::script::run(script, state, replies);
            let asked = crate::script::events(seq![Call::EncodeGetPacket(state.mpp)], Some(replies[0]));
            run.out matches Some(AfterFrame::Deliver(Deliver::Begin { buffer, .. })) && takes_packet(
                asked + run.log,
                j,
                state.mpp,
                state.in_flight_frame,
                buffer,
            )
        }),
    decreases replies.len(),
{
    let script = EncHandleFrame::Pending { pts, script: PollPending::Polled { attempts } };
    let run = crate::script::run(script, state, replies);
    let asked = crate::script::events(seq![Call::EncodeGetPacket(state.mpp)], Some(replies[0]));
    let rest = replies.skip(1);
    lemma_submission(script, state, replies);
    if replies[0].handle != NULL {
        let inspected = EncHandleFrame::Pending { pts, script: PollPending::Inspected { packet: replies[0].handle } };
        let copied = EncHandleFrame::Pending { pts, script: PollPending::Copied { packet: replies[0].handle } };
        let released = seq![Call::FrameDeinit(state.in_flight_frame), Call::PacketInspect(replies[0].handle)];
        let first = crate::script::events(released, Some(rest[0]));
        let tail = crate::script::run(inspected, state.landed(), rest);
        assert(run.log == first + tail.log);
        assert(tail.out is Some && rest.len() > 0);
        let last = crate::script::run(copied, state.landed(), rest.skip(1));
        assert(last.out is Some && rest.skip(1).len() > 0);
        assert(crate::script::as_expected(frame_is_made(), inspected, state.landed(), rest));
        lemma_submission(copied, state.landed(), rest.skip(1));
        assert(tail.log.len() > 0 && tail.log[0].reply == Some(rest[1]));
        assert((asked + run.log)[3] == tail.log[0]);
        0
    } else {
        let next = EncHandleFrame::Pending { pts, script: PollPending::Polled { attempts: (attempts + 1) as u32 } };
        let tail = crate::script::run(next, state, rest);
        assert(tail.out is Some && rest.len() > 0);
        let j = lemma_packet_taken(pts, (attempts + 1) as u32, state, rest);
        let again = crate::script::events(seq![Call::EncodeGetPacket(state.mpp)], Some(rest[0]));
        assert(run.log == again + tail.log);
        assert(asked + run.log == asked + (again + tail.log));
        j + 1
    }
}

/// A frame that is taken while another is in flight takes the packet of that one.
proof fn lemma_packet_of_the_one_before(call: FrameCall, state: EncoderState)
    requires
        state.in_flight_frame != NULL,
        call.goes_through(state),
    ensures
        call.taking(state).out matches Some(AfterFrame::Deliver(Deliver::Begin { buffer, .. })) && exists|j: int|
            #[trigger] takes_packet(call.taking(state).log, j, state.mpp, state.in_flight_frame, buffer),
{
    let begin = EncHandleFrame::Begin { pts: call.pts };
    let polled = EncHandleFrame::Pending { pts: call.pts, script: PollPending::Polled { attempts: 1 } };
    let rest = call.replies.skip(1);
    let run = call.taking(state);
    lemma_submission(begin, state, call.replies);
    let tail = crate::script::run(polled, state, rest);
    assert(tail.out is Some && rest.len() > 0);
    let j = lemma_packet_taken(call.pts, 1, state, rest);
    let asked = crate::script::events(seq![Call::EncodeGetPacket(state.mpp)], Some(rest[0]));
    assert(run.log == asked + tail.log);
}

/// Whether a delivery hands `buffer` to the oldest waiting frame and finishes that frame, with the
/// answer that finishing it gave.
pub open spec fn delivers(log: Seq<Event>, answer: Option<Flow>, buffer: GstBuffer) -> bool {
    &&& log.len() == 3
    &&& log[0].call == Call::OldestFrame
    &&& log[0].reply matches Some(oldest) && log[1].call == (Call::SetOutputBuffer {
        frame: oldest.handle,
        buffer,
    }) && log[2].call == Call::FinishFrame(oldest.handle)
    &&& log[2].reply matches Some(finished) && answer == Some(Flow::Downstream(finished.ret))
}

proof fn lemma_delivery(call: FrameCall, buffer: GstBuffer)
    requires
        call.delivering(Deliver::Begin { buffer, missing: Flow::Error }).out matches Some(Flow::Success)
            || call.delivering(Deliver::Begin { buffer, missing: Flow::Error }).out matches Some(Flow::Downstream(_)),
    ensures
        ({
            let run = call.delivering(Deliver::Begin { buffer, missing: Flow::Error });
            &&& delivers(run.log, run.out, buffer)
            &&& crate::script::total(finishes(), run.log) == 1
            &&& crate::script::total(submissions(), run.log) == 0
        }),
{
    reveal_with_fuel(crate::script::run, 4);
    reveal_with_fuel(crate::script::total, 4);
}

/// What the call at `k` does: it submits its frame, once, from the input buffer whose turn it is. The
/// first call finishes no frame and answers well at once. Every other releases the frame that the
/// call before it submitted, and finishes the oldest waiting frame, once, with the buffer that was
/// copied out of that frame's packet.
pub open spec fn in_turn(state: EncoderState, calls: Seq<FrameCall>, k: nat) -> bool {
    let call = calls[k as int];
    let st = before(state, calls, k);
    let taking = call.taking(st);
    let frame = before(state, calls, k + 1).in_flight_frame;
    let buffer = state.input_bufs.spec_get(turn(k));
    &&& st.slot == turn(k)
    &&& crate::script::total(submissions(), call.log(st)) == 1
    &&& crate::script::total(finishes(), call.log(st)) == crate::resources::one_if(k > 0)
    &&& frame != NULL
    &&& forall|i: int|
        0 <= i < taking.log.len() ==> fits(#[trigger] taking.log[i], st.in_flight_frame, frame, taking.out->0)
            && match taking.log[i].call {
            Call::CopyInput { target, .. } => target == buffer,
            Call::FrameSetBuffer { buffer: b, .. } => b == buffer,
            _ => true,
        }
    &&& k == 0 ==> call.answer(st) == Some(Flow::Success)
    &&& k > 0 ==> match taking.out {
        Some(AfterFrame::Deliver(Deliver::Begin { buffer: b, missing })) => {
            let delivery = call.delivering(Deliver::Begin { buffer: b, missing });
            &&& delivers(delivery.log, call.answer(st), b)
            &&& exists|j: int| #[trigger] takes_packet(taking.log, j, st.mpp, st.in_flight_frame, b)
            &&& crate::script::total(crate::resources::picture_weight(), taking.log) == 1
        },
        _ => false,
    }
}

proof fn lemma_in_turn(state: EncoderState, calls: Seq<FrameCall>, k: nat)
    requires
        k < calls.len(),
        before(state, calls, k).slot == turn(k),
        before(state, calls, k).input_bufs == state.input_bufs,
        before(state, calls, k).frames_held() == crate::resources::one_if(k > 0),
        calls[k as int].goes_through(before(state, calls, k)),
    ensures
        in_turn(state, calls, k),
        before(state, calls, k + 1).slot == turn(k + 1),
        before(state, calls, k + 1).input_bufs == state.input_bufs,
        before(state, calls, k + 1).frames_held() == 1,
{
    let call = calls[k as int];
    let st = before(state, calls, k);
    let taking = call.taking(st);
    assert(before(state, calls, k + 1) == taking.state);
    let begin = EncHandleFrame::Begin { pts: call.pts };
    lemma_submission(begin, st, call.replies);
    crate::enc::frame_laws::law_input_buffers_alternate(call.pts, st, call.replies);
    crate::enc::frame_laws::law_handle_frame_loses_nothing(call.pts, st, call.replies);
    lemma_handle_submissions(call, st);
    let frame = taking.state.in_flight_frame;
    assert forall|i: int| 0 <= i < taking.log.len() implies finishes()(#[trigger] taking.log[i]) == 0 by {
        assert(fits_at(begin, taking.log[i], st.in_flight_frame, frame, taking.out->0));
    }
    crate::script::lemma_total_nothing(finishes(), taking.log);
    match taking.out->0 {
        AfterFrame::Deliver(script) => {
            let buffer = script->Begin_buffer;
            lemma_packet_of_the_one_before(call, st);
            lemma_delivery(call, buffer);
            let delivery = call.delivering(script);
            crate::script::lemma_total_add(submissions(), taking.log, delivery.log);
            crate::script::lemma_total_add(finishes(), taking.log, delivery.log);
        },
        AfterFrame::Answer(_) => {},
    }
    assert forall|i: int| 0 <= i < taking.log.len() implies fits(
        #[trigger] taking.log[i],
        st.in_flight_frame,
        frame,
        taking.out->0,
    ) by {
        assert(fits_at(begin, taking.log[i], st.in_flight_frame, frame, taking.out->0));
    }
}

proof fn lemma_first_frames(state: EncoderState, calls: Seq<FrameCall>, n: nat)
    requires
        n <= calls.len(),
        state.in_flight_frame == NULL,
        state.slot == Slot::First,
        forall|k: nat| k < calls.len() ==> calls[k as int].goes_through(#[trigger] before(state, calls, k)),
    ensures
        ({
            let after = before(state, calls, n);
            &&& after.slot == turn(n)
            &&& after.input_bufs == state.input_bufs
            &&& after.frames_held() == crate::resources::one_if(n > 0)
            &&& crate::script::total(submissions(), whole_log(state, calls, n)) == n
            &&& crate::script::total(finishes(), whole_log(state, calls, n)) == if n > 0 {
                n - 1
            } else {
                0
            }
        }),
        forall|k: nat| k < n ==> #[trigger] in_turn(state, calls, k),
    decreases n,
{
    if n > 0 {
        let k = (n - 1) as nat;
        lemma_first_frames(state, calls, k);
        lemma_in_turn(state, calls, k);
        let log = calls[k as int].log(before(state, calls, k));
        crate::script::lemma_total_add(submissions(), whole_log(state, calls, k), log);
        crate::script::lemma_total_add(finishes(), whole_log(state, calls, k), log);
    }
}

/// Frames go through the encoder in turn. Of `n` frames that go through one after the other, each is
/// submitted by its own call and finished by the next one: `n` are submitted, all but the last are
/// finished, and one is in flight afterwards. The input buffers take turns.
pub proof fn law_frames_go_through_in_turn(state: EncoderState, calls: Seq<FrameCall>)
    requires
        calls.len() > 0,
        state.in_flight_frame == NULL,
        state.slot == Slot::First,
        forall|k: nat| k < calls.len() ==> calls[k as int].goes_through(#[trigger] before(state, calls, k)),
    ensures
        ({
            let n = calls.len();
            let log = whole_log(state, calls, n);
            &&& before(state, calls, n).frames_held() == 1
            &&& crate::script::total(submissions(), log) == n
            &&& crate::script::total(finishes(), log) == n - 1
            &&& forall|k: nat| k < n ==> #[trigger] in_turn(state, calls, k)
        }),
{
    lemma_first_frames(state, calls, calls.len());
}

/// An encoder that was started and given its format is ready for the first of such frames.
pub proof fn law_started_encoder_is_ready(
    counter: AllocIndex,
    starting: Seq<Reply>,
    format: EncFormat,
    setting: Seq<Reply>,
)
    requires
        EncStart::start_run(counter, starting).out matches Some(Ok(enc)) && crate::script::run(
            EncSetFormat::Begin { format },
            enc,
            setting,
        ).out matches Some(Ok(_)),
    ensures
        ({
            let enc = EncStart::start_run(counter, starting).out->0->Ok_0;
            let ready = crate::script::run(EncSetFormat::Begin { format }, enc, setting).state;
            &&& ready.in_flight_frame == NULL
            &&& ready.slot == Slot::First
        }),
{
    let enc = EncStart::start_run(counter, starting).out->0->Ok_0;
    crate::enc::state_laws::law_hevc_is_preferred(counter, starting);
    crate::enc::format_laws::law_set_format_follows_format(format, enc, setting);
}

} // verus!

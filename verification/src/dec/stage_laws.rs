//! What holds of the decoder's handlers over all their stages.

use vstd::prelude::*;

use crate::call::{Call, Flow, PacketData, Reply};
use crate::dec::frames::{Drain, PollDecoded, SendEos, SubmitPacket};
use crate::dec::state::DecoderState;
use crate::mpp_ffi::MPP_OK;
use crate::output::Entry;
use crate::script::Event;

verus! {

/// One packet that is handed to the decoder: its time stamp, the replies while it is submitted, and
/// those while the frames that are ready are handed on.
pub ghost struct PacketCall {
    pub pts: Option<i64>,
    pub submitting: Seq<Reply>,
    pub polling: Seq<Reply>,
}

impl PacketCall {
    /// How submitting the packet goes.
    pub open spec fn submission(self, state: DecoderState) -> crate::script::Run<SubmitPacket> {
        crate::script::run(SubmitPacket::Begin { pts: self.pts }, state, self.submitting)
    }

    /// How handing the frames on goes.
    pub open spec fn poll(self, script: PollDecoded) -> crate::script::Run<PollDecoded> {
        crate::script::run(script, (), self.polling)
    }

    /// All that happens.
    pub open spec fn log(self, state: DecoderState) -> Seq<Event> {
        let submission = self.submission(state);
        match submission.out {
            Some(Entry::Run(script)) => submission.log + self.poll(script).log,
            _ => submission.log,
        }
    }

    /// What the element answers.
    pub open spec fn answer(self, state: DecoderState) -> Option<Flow> {
        match self.submission(state).out {
            Some(Entry::Run(script)) => self.poll(script).out,
            Some(Entry::Answer(flow)) => Some(flow),
            None => None,
        }
    }
}

/// How many packets the decoder accepted.
pub open spec fn acceptances() -> spec_fn(Event) -> int {
    |event: Event|
        crate::resources::one_if(event.call is DecodePutPacket && crate::resources::succeeded(event.reply))
}

/// Whether a call fetches a frame or hands one on.
pub open spec fn moves_frames(call: Call) -> bool {
    call is TryGetOneFrame || call is FinishOneFrame
}

spec fn submit_acceptances() -> crate::script::Account<SubmitPacket> {
    crate::script::Account {
        weight: acceptances(),
        at: |script: SubmitPacket, state: DecoderState| true,
        held: |script: SubmitPacket, state: DecoderState, reply: Reply|
            crate::resources::one_if(script is Offered && reply.ret == MPP_OK),
        kept: |state: DecoderState, out: Entry<PollDecoded>| crate::resources::one_if(out is Run),
    }
}

/// Frames are handed on after a packet was accepted, and only then. A packet that is not accepted is
/// answered with an error and nothing more happens; one that is accepted is answered well, whatever
/// becomes of the frames.
pub proof fn law_frames_follow_an_accepted_packet(call: PacketCall, state: DecoderState)
    requires
        call.submission(state).out is Some,
    ensures
        ({
            let submission = call.submission(state);
            let polls = submission.out->0 is Run;
            &&& crate::script::total(acceptances(), submission.log) == crate::resources::one_if(polls)
            &&& forall|i: int| 0 <= i < submission.log.len() ==> !moves_frames((#[trigger] submission.log[i]).call)
            &&& submission.state == state
            &&& if polls {
                let poll = crate::script::run(PollDecoded::Begin, (), call.polling);
                &&& call.log(state) == submission.log + poll.log
                &&& call.polling.len() > 0 ==> poll.log[0].call == Call::TryGetOneFrame
                &&& call.answer(state) == poll.out
                &&& call.answer(state) matches Some(flow) ==> flow == Flow::Success
            } else {
                &&& call.log(state) == submission.log
                &&& call.answer(state) == Some(Flow::Error)
            }
        }),
{
    broadcast use crate::script::group_batch;

    let script = SubmitPacket::Begin { pts: call.pts };
    crate::script::lemma_run_balances(submit_acceptances(), script, state, call.submitting);
    let conduct = crate::script::Conduct {
        at: |script: SubmitPacket, st: DecoderState| st == state,
        allowed: |event: Event| !moves_frames(event.call),
        ends: |st: DecoderState, out: Entry<PollDecoded>|
            {
                &&& st == state
                &&& out == Entry::Run(PollDecoded::Begin) || out == Entry::<PollDecoded>::Answer(Flow::Error)
            },
    };
    crate::script::lemma_run_conduct(conduct, script, state, call.submitting);
    crate::dec::laws::law_poll_hands_all_on(call.polling);
}

/// The end of a stream: the replies while the decoder is told of it, and those while the frames that
/// are left are handed on.
pub ghost struct EndCall {
    pub ending: Seq<Reply>,
    pub draining: Seq<Reply>,
}

impl EndCall {
    /// How telling the decoder goes.
    pub open spec fn eos(self, state: DecoderState) -> crate::script::Run<SendEos> {
        crate::script::run(SendEos::Begin, state, self.ending)
    }

    /// How handing the frames on goes.
    pub open spec fn drain(self, script: Drain) -> crate::script::Run<Drain> {
        crate::script::run(script, (), self.draining)
    }

    /// All that happens.
    pub open spec fn log(self, state: DecoderState) -> Seq<Event> {
        let eos = self.eos(state);
        match eos.out {
            Some(script) => eos.log + self.drain(script).log,
            None => eos.log,
        }
    }

    /// What the element answers.
    pub open spec fn answer(self, state: DecoderState) -> Option<Flow> {
        match self.eos(state).out {
            Some(script) => self.drain(script).out,
            None => None,
        }
    }
}

/// The decoder is drained after it was told of the end of the stream, whether it took notice of it or
/// not; no frame is fetched or handed on before. The answer is then a good one.
pub proof fn law_draining_follows_the_end(call: EndCall, state: DecoderState)
    requires
        call.ending.len() >= 2,
    ensures
        ({
            let eos = call.eos(state);
            let drain = crate::script::run(Drain::Begin, (), call.draining);
            let made = crate::script::events(seq![Call::PacketInit(PacketData::Empty)], Some(call.ending[1]));
            let told = crate::dec::state::eos_calls(state.mpp, state.api, call.ending[1]);
            &&& eos.out == Some(Drain::Begin)
            &&& eos.state == state
            &&& eos.log == made + crate::script::events(told, None)
            &&& forall|i: int| 0 <= i < eos.log.len() ==> !moves_frames((#[trigger] eos.log[i]).call)
            &&& call.log(state) == eos.log + drain.log
            &&& call.draining.len() > 0 ==> drain.log[0].call == Call::Now
            &&& call.answer(state) == drain.out
            &&& call.answer(state) matches Some(flow) ==> flow == Flow::Success
        }),
{
    reveal_with_fuel(crate::script::run, 2);
    crate::dec::laws::law_drain_hands_all_on(call.draining);
}

} // verus!

//! Announcing pictures and handing them downstream.

use vstd::prelude::*;

use crate::call::{call_when, Call, Flow, Reply};
use crate::mpp_ffi::{GstBuffer, MPP_OK, NULL};
use crate::script::{Script, SpecStep, Step};

verus! {

/// Where a handler goes on.
#[derive(Clone, Copy, PartialEq, Eq, Debug)]
pub enum Entry<S> {
    /// The answer is known already.
    Answer(Flow),
    /// A script has to run, and gives the answer or leads on to it.
    Run(S),
}

/// Gives a buffer to the oldest frame that the element still waits for and finishes that frame.
pub enum Deliver {
    /// `missing` is the answer where no frame is waiting; the buffer is then dropped.
    Begin { buffer: GstBuffer, missing: Flow },
    Oldest { buffer: GstBuffer, missing: Flow },
    Finished,
}

impl Deliver {
    pub fn begin(buffer: GstBuffer, missing: Flow) -> (script: Deliver)
        ensures
            script == (Deliver::Begin { buffer, missing }),
    {
        Deliver::Begin { buffer, missing }
    }
}

impl Script for Deliver {
    type State = ();

    type Out = Flow;

    open spec fn next(self, state: (), reply: Reply) -> ((), SpecStep<Self, Flow>) {
        match self {
            Deliver::Begin { buffer, missing } => (
                (),
                SpecStep::Calls(seq![Call::OldestFrame], Deliver::Oldest { buffer, missing }),
            ),
            Deliver::Oldest { buffer, missing } => if reply.handle == NULL {
                ((), SpecStep::Done(seq![Call::DropBuffer(buffer)], missing))
            } else {
                (
                    (),
                    SpecStep::Calls(
                        seq![
                            Call::SetOutputBuffer { frame: reply.handle, buffer },
                            Call::FinishFrame(reply.handle),
                        ],
                        Deliver::Finished,
                    ),
                )
            },
            Deliver::Finished => ((), SpecStep::Done(seq![], Flow::Downstream(reply.ret))),
        }
    }

    fn step(self, state: &mut (), reply: Reply) -> (step: Step<Self, Flow>) {
        match self {
            Deliver::Begin { buffer, missing } => Step::Calls(
                vec![Call::OldestFrame],
                Deliver::Oldest { buffer, missing },
            ),
            Deliver::Oldest { buffer, missing } => {
                let frame = reply.handle;
                if frame == NULL {
                    return Step::Done(vec![Call::DropBuffer(buffer)], missing);
                }
                Step::Calls(
                    vec![Call::SetOutputBuffer { frame, buffer }, Call::FinishFrame(frame)],
                    Deliver::Finished,
                )
            },
            Deliver::Finished => Step::Done(vec![], Flow::Downstream(reply.ret)),
        }
    }
}

/// Announces NV12 pictures of a size downstream. Where the element refuses the size, what was
/// announced before stays.
#[derive(Clone, Copy, PartialEq, Eq, Debug)]
pub enum NegotiateOutput {
    Begin { width: u32, height: u32 },
    Prepared,
}

impl NegotiateOutput {
    pub fn begin(width: u32, height: u32) -> (script: NegotiateOutput)
        ensures
            script == (NegotiateOutput::Begin { width, height }),
    {
        NegotiateOutput::Begin { width, height }
    }
}

impl Script for NegotiateOutput {
    type State = ();

    type Out = ();

    open spec fn next(self, state: (), reply: Reply) -> ((), SpecStep<Self, ()>) {
        match self {
            NegotiateOutput::Begin { width, height } => (
                (),
                SpecStep::Calls(seq![Call::SetPictureState { width, height }], NegotiateOutput::Prepared),
            ),
            NegotiateOutput::Prepared => (
                (),
                SpecStep::Done(crate::call::when(reply.ret == MPP_OK, Call::Negotiate), ()),
            ),
        }
    }

    fn step(self, state: &mut (), reply: Reply) -> (step: Step<Self, ()>) {
        match self {
            NegotiateOutput::Begin { width, height } => Step::Calls(
                vec![Call::SetPictureState { width, height }],
                NegotiateOutput::Prepared,
            ),
            NegotiateOutput::Prepared => Step::Done(call_when(reply.ret == MPP_OK, Call::Negotiate), ()),
        }
    }
}

/// Handing a buffer downstream uses it up, once: it goes to the oldest waiting frame, or is dropped
/// where none waits. The answer is then the one that was fixed beforehand, else the one that
/// finishing the frame returned.
pub proof fn law_deliver_uses_buffer_up(buffer: GstBuffer, missing: Flow, replies: Seq<Reply>)
    requires
        crate::script::run(Deliver::Begin { buffer, missing }, (), replies).out is Some,
    ensures
        ({
            let run = crate::script::run(Deliver::Begin { buffer, missing }, (), replies);
            &&& crate::script::total(crate::resources::picture_weight(), run.log) == -1
            &&& run.out == Some(
                if replies[1].handle == NULL {
                    missing
                } else {
                    Flow::Downstream(replies[2].ret)
                },
            )
        }),
{
    broadcast use crate::script::group_batch;

    reveal_with_fuel(crate::script::run, 4);
    let account = crate::script::Account {
        weight: crate::resources::picture_weight(),
        at: |script: Deliver, state: ()| true,
        held: |script: Deliver, state: (), reply: Reply| crate::resources::one_if(!(script is Finished)),
        kept: |state: (), out: Flow| 0int,
    };
    assert(replies.len() >= 3 ==> replies.skip(1).skip(1)[0] == replies[2]);
    crate::script::lemma_run_balances(account, Deliver::Begin { buffer, missing }, (), replies);
}

/// Handing a buffer downstream, from the first call to the last: the oldest waiting frame is asked for; it is
/// given the buffer and finished, and finishing it gives the answer. Where none waits, the buffer is
/// dropped, and the answer is the one that was fixed.
pub proof fn law_deliver_finishes_the_oldest(buffer: GstBuffer, missing: Flow, replies: Seq<Reply>)
    requires
        replies.len() >= 3,
    ensures
        ({
            let run = crate::script::run(Deliver::Begin { buffer, missing }, (), replies);
            let frame = replies[1].handle;
            if frame == NULL {
                &&& crate::trace::calls_of(run.log) == seq![Call::OldestFrame, Call::DropBuffer(buffer)]
                &&& run.out == Some(missing)
            } else {
                &&& crate::trace::calls_of(run.log) == seq![
                    Call::OldestFrame,
                    Call::SetOutputBuffer { frame, buffer },
                    Call::FinishFrame(frame),
                ]
                &&& run.out == Some(Flow::Downstream(replies[2].ret))
            }
        }),
{
    broadcast use crate::trace::group_calls;

    reveal_with_fuel(crate::script::run, 4);
    assert(replies.skip(1).skip(1)[0] == replies[2]);
}

/// Announcing a size, from the first call to the last: the output is prepared for exactly that size, and
/// negotiated where that worked.
pub proof fn law_size_is_announced(width: u32, height: u32, replies: Seq<Reply>)
    requires
        replies.len() >= 2,
    ensures
        ({
            let run = crate::script::run(NegotiateOutput::Begin { width, height }, (), replies);
            &&& crate::trace::calls_of(run.log) == seq![Call::SetPictureState { width, height }]
                + crate::trace::only_if(replies[1].ret == MPP_OK, Call::Negotiate)
            &&& run.out == Some(())
        }),
{
    broadcast use crate::trace::group_calls;

    reveal_with_fuel(crate::script::run, 3);
}

} // verus!

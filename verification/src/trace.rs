//! The words in which laws speak of the calls that a script has made.

use vstd::prelude::*;

use crate::call::{Call, Reply};
use crate::mpp_ffi::MPP_OK;
use crate::script::{Event, Script};

verus! {

/// The calls of a log, in order.
pub open spec fn calls_of(log: Seq<Event>) -> Seq<Call> {
    Seq::new(log.len(), |i: int| log[i].call)
}

/// One call where `cond` holds, else none.
pub open spec fn only_if(cond: bool, call: Call) -> Seq<Call> {
    if cond {
        seq![call]
    } else {
        seq![]
    }
}

/// Whether the reply to a call says that it worked.
pub open spec fn worked(event: Event) -> bool {
    event.reply matches Some(reply) && reply.ret == MPP_OK
}

/// Whether from `n` on the log consists of exactly these calls.
pub open spec fn ends_with(log: Seq<Event>, n: int, calls: Seq<Call>) -> bool {
    &&& 0 <= n
    &&& log.len() == n + calls.len()
    &&& forall|i: int| 0 <= i < calls.len() ==> (#[trigger] log[n + i]).call == calls[i]
}

/// The calls of two logs in a row.
pub broadcast proof fn lemma_calls_add(a: Seq<Event>, b: Seq<Event>)
    ensures
        #[trigger] calls_of(a + b) == calls_of(a) + calls_of(b),
{
    assert(calls_of(a + b) =~= calls_of(a) + calls_of(b));
}

/// The calls of a batch.
pub broadcast proof fn lemma_calls_of_batch(calls: Seq<Call>, reply: Option<Reply>)
    ensures
        #[trigger] calls_of(crate::script::events(calls, reply)) == calls,
{
    assert(calls_of(crate::script::events(calls, reply)) =~= calls);
}

/// The calls of logs that are put together.
pub broadcast group group_calls {
    lemma_calls_add,
    lemma_calls_of_batch,
}

/// One step of a run: its calls come first, then those of the rest.
pub proof fn lemma_step<S: Script>(script: S, state: S::State, replies: Seq<Reply>)
    requires
        replies.len() > 0,
    ensures
        ({
            let run = crate::script::run(script, state, replies);
            let (after, step) = script.next(state, replies[0]);
            match step {
                crate::script::SpecStep::Calls(calls, script2) => {
                    let tail = crate::script::run(script2, after, replies.skip(1));
                    &&& calls_of(run.log) == calls + calls_of(tail.log)
                    &&& run.out == tail.out
                    &&& run.state == tail.state
                },
                crate::script::SpecStep::Done(calls, out) => {
                    &&& calls_of(run.log) == calls
                    &&& run.out == Some(out)
                    &&& run.state == after
                },
            }
        }),
{
    broadcast use group_calls;

}

/// A call that is made under a condition is made once where it holds, else not at all.
pub proof fn law_conditional_call(cond: bool, call: Call)
    ensures
        crate::call::when(cond, call) == only_if(cond, call),
{
}

} // verus!

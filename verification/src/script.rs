//! Scripts: state machines that decide which outside calls to make next.

use vstd::prelude::*;

use crate::call::{Call, Reply};

verus! {

/// What a script asks for at one point.
pub enum Step<S, T> {
    /// Make these calls in order, then go on with the reply to the last of them.
    Calls(Vec<Call>, S),
    /// Make these calls in order; the script has ended with this result.
    Done(Vec<Call>, T),
}

/// The same with mathematical sequences.
#[verifier::ext_equal]
pub enum SpecStep<S, T> {
    Calls(Seq<Call>, S),
    Done(Seq<Call>, T),
}

impl<S, T> View for Step<S, T> {
    type V = SpecStep<S, T>;

    open spec fn view(&self) -> SpecStep<S, T> {
        match self {
            Step::Calls(calls, next) => SpecStep::Calls(calls@, *next),
            Step::Done(calls, out) => SpecStep::Done(calls@, *out),
        }
    }
}

/// A state machine over outside calls. The value itself is the point that the script has reached;
/// `State` is what outlives it.
pub trait Script: Sized {
    type State;

    type Out;

    /// The transition: the state afterwards and what to do, for each reply.
    spec fn next(self, state: Self::State, reply: Reply) -> (Self::State, SpecStep<Self, Self::Out>);

    /// Takes the reply to the last call. A script at its beginning ignores the reply.
    fn step(self, state: &mut Self::State, reply: Reply) -> (step: Step<Self, Self::Out>)
        ensures
            *final(state) == self.next(*old(state), reply).0,
            step@ =~~= self.next(*old(state), reply).1,
    ;
}

/// A call that was made, with its reply where the script has seen one.
pub struct Event {
    pub call: Call,
    pub reply: Option<Reply>,
}

/// The events of one batch of calls, of which the last one gets the reply.
pub open spec fn events(calls: Seq<Call>, reply: Option<Reply>) -> Seq<Event> {
    Seq::new(
        calls.len(),
        |i: int|
            Event {
                call: calls[i],
                reply: if i == calls.len() - 1 {
                    reply
                } else {
                    None
                },
            },
    )
}

/// How a script has gone, as far as the replies reach.
#[verifier::ext_equal]
pub struct Run<S: Script> {
    pub state: S::State,
    pub log: Seq<Event>,
    /// The result, where the replies were enough to reach the end.
    pub out: Option<S::Out>,
}

/// The run of a script under the given replies, the first of which answers whatever was asked
/// before.
pub open spec fn run<S: Script>(script: S, state: S::State, replies: Seq<Reply>) -> Run<S>
    decreases replies.len(),
{
    if replies.len() == 0 {
        Run { state, log: Seq::empty(), out: None }
    } else {
        let (after, step) = script.next(state, replies[0]);
        let rest = replies.skip(1);
        let answer = if rest.len() > 0 {
            Some(rest[0])
        } else {
            None
        };
        match step {
            SpecStep::Done(calls, out) => Run { state: after, log: events(calls, None), out: Some(out) },
            SpecStep::Calls(calls, script) => {
                let tail = run(script, after, rest);
                Run { state: tail.state, log: events(calls, answer) + tail.log, out: tail.out }
            },
        }
    }
}

/// The sum of a weight over the events of a log.
pub open spec fn total(weight: spec_fn(Event) -> int, log: Seq<Event>) -> int
    decreases log.len(),
{
    if log.len() == 0 {
        0
    } else {
        weight(log[0]) + total(weight, log.skip(1))
    }
}

/// The sum over two logs in a row is the sum of the sums.
pub proof fn lemma_total_add(weight: spec_fn(Event) -> int, a: Seq<Event>, b: Seq<Event>)
    ensures
        total(weight, a + b) == total(weight, a) + total(weight, b),
    decreases a.len(),
{
    if a.len() == 0 {
        assert(a + b =~= b);
    } else {
        assert((a + b).skip(1) =~= a.skip(1) + b);
        lemma_total_add(weight, a.skip(1), b);
    }
}

/// Events that weigh nothing weigh nothing together.
pub proof fn lemma_total_nothing(weight: spec_fn(Event) -> int, log: Seq<Event>)
    requires
        forall|i: int| 0 <= i < log.len() ==> weight(#[trigger] log[i]) == 0,
    ensures
        total(weight, log) == 0,
    decreases log.len(),
{
    if log.len() > 0 {
        let rest = log.skip(1);
        assert forall|i: int| 0 <= i < rest.len() implies weight(#[trigger] rest[i]) == 0 by {
            assert(rest[i] == log[i + 1]);
        }
        lemma_total_nothing(weight, rest);
    }
}

/// The weight of a batch of calls.
pub open spec fn batch(weight: spec_fn(Event) -> int, calls: Seq<Call>, reply: Option<Reply>) -> int {
    total(weight, events(calls, reply))
}

/// The weight of two batches in a row is the sum of their weights; the reply is to the last call.
pub broadcast proof fn lemma_batch_add(
    weight: spec_fn(Event) -> int,
    a: Seq<Call>,
    b: Seq<Call>,
    reply: Option<Reply>,
)
    ensures
        #[trigger] batch(weight, a + b, reply) == batch(
            weight,
            a,
            if b.len() > 0 {
                None
            } else {
                reply
            },
        ) + batch(weight, b, reply),
{
    let first = events(
        a,
        if b.len() > 0 {
            None
        } else {
            reply
        },
    );
    assert(events(a + b, reply) =~= first + events(b, reply));
    lemma_total_add(weight, first, events(b, reply));
}

/// The weight of up to three calls.
pub broadcast proof fn lemma_batch_short(weight: spec_fn(Event) -> int, calls: Seq<Call>, reply: Option<Reply>)
    ensures
        #![trigger batch(weight, calls, reply)]
        calls.len() == 0 ==> batch(weight, calls, reply) == 0,
        calls.len() == 1 ==> batch(weight, calls, reply) == weight(Event { call: calls[0], reply }),
        calls.len() == 2 ==> batch(weight, calls, reply) == weight(Event { call: calls[0], reply: None }) + weight(
            Event { call: calls[1], reply },
        ),
        calls.len() == 3 ==> batch(weight, calls, reply) == weight(Event { call: calls[0], reply: None }) + weight(
            Event { call: calls[1], reply: None },
        ) + weight(Event { call: calls[2], reply }),
{
    reveal_with_fuel(total, 4);
}

/// The weights of short batches.
pub broadcast group group_batch {
    lemma_batch_add,
    lemma_batch_short,
}

/// Calls that weigh nothing weigh nothing together.
pub proof fn lemma_batch_nothing(weight: spec_fn(Event) -> int, calls: Seq<Call>, reply: Option<Reply>)
    requires
        forall|i: int, answer: Option<Reply>|
            #![trigger weight(Event { call: calls[i], reply: answer })]
            0 <= i < calls.len() ==> weight(Event { call: calls[i], reply: answer }) == 0,
    ensures
        batch(weight, calls, reply) == 0,
    decreases calls.len(),
{
    if calls.len() > 0 {
        let rest = calls.skip(1);
        assert(events(calls, reply).skip(1) =~= events(rest, reply));
        assert forall|i: int, answer: Option<Reply>|
            #![trigger weight(Event { call: rest[i], reply: answer })]
            0 <= i < rest.len() implies weight(Event { call: rest[i], reply: answer }) == 0 by {
            assert(rest[i] == calls[i + 1]);
        }
        lemma_batch_nothing(weight, rest, reply);
    }
}

/// Expects nothing in particular: any reply may come.
pub open spec fn anything<S: Script>() -> spec_fn(S, Reply) -> bool {
    |script: S, reply: Reply| true
}

/// The account of a resource over a script. Each event has a weight: positive where it acquires the
/// resource, negative where it gives it back.
#[verifier::reject_recursive_types(S)]
pub ghost struct Account<S: Script> {
    pub weight: spec_fn(Event) -> int,
    /// The points of the script that are considered.
    pub at: spec_fn(S, S::State) -> bool,
    /// What is held at a point, given the reply that is about to be taken there.
    pub held: spec_fn(S, S::State, Reply) -> int,
    /// What is held after the end.
    pub kept: spec_fn(S::State, S::Out) -> int,
}

impl<S: Script> Account<S> {
    /// Whether a step keeps the balance: what is held before it and the weight of the calls that it
    /// makes add up to what is held after it, for every answer that is expected.
    pub open spec fn step_balances(
        self,
        expects: spec_fn(S, Reply) -> bool,
        script: S,
        state: S::State,
        reply: Reply,
    ) -> bool {
        let (after, step) = script.next(state, reply);
        match step {
            SpecStep::Done(calls, out) => (self.held)(script, state, reply) + batch(self.weight, calls, None) == (
            self.kept)(after, out),
            SpecStep::Calls(calls, script2) => {
                &&& (self.at)(script2, after)
                &&& forall|answer: Reply|
                    #![trigger (self.held)(script2, after, answer)]
                    expects(script2, answer) ==> (self.held)(script, state, reply) + batch(
                        self.weight,
                        calls,
                        Some(answer),
                    ) == (self.held)(script2, after, answer)
            },
        }
    }

    /// Whether every step keeps the balance as long as the replies are as expected.
    pub open spec fn balances_expecting(self, expects: spec_fn(S, Reply) -> bool) -> bool {
        forall|script: S, state: S::State, reply: Reply|
            #![trigger script.next(state, reply)]
            (self.at)(script, state) && expects(script, reply) ==> self.step_balances(
                expects,
                script,
                state,
                reply,
            )
    }

    /// Whether every step keeps the balance.
    pub open spec fn balances(self) -> bool {
        self.balances_expecting(anything())
    }
}

/// Whether the replies along a run are as expected.
pub open spec fn as_expected<S: Script>(
    expects: spec_fn(S, Reply) -> bool,
    script: S,
    state: S::State,
    replies: Seq<Reply>,
) -> bool
    decreases replies.len(),
{
    replies.len() > 0 ==> expects(script, replies[0]) && match script.next(state, replies[0]) {
        (after, SpecStep::Calls(_, script2)) => as_expected(expects, script2, after, replies.skip(1)),
        _ => true,
    }
}

/// A script whose every step keeps the balance keeps it over a whole run, where the replies are as
/// expected.
pub proof fn lemma_run_balances_expecting<S: Script>(
    account: Account<S>,
    expects: spec_fn(S, Reply) -> bool,
    script: S,
    state: S::State,
    replies: Seq<Reply>,
)
    requires
        (account.at)(script, state),
        account.balances_expecting(expects),
        as_expected(expects, script, state, replies),
        run(script, state, replies).out is Some,
    ensures
        (account.held)(script, state, replies[0]) + total(account.weight, run(script, state, replies).log) == (
        account.kept)(run(script, state, replies).state, run(script, state, replies).out->0),
    decreases replies.len(),
{
    let (after, step) = script.next(state, replies[0]);
    assert(account.step_balances(expects, script, state, replies[0]));
    let rest = replies.skip(1);
    match step {
        SpecStep::Done(calls, out) => {},
        SpecStep::Calls(calls, script2) => {
            assert(run(script2, after, rest).out is Some);
            assert(as_expected(expects, script2, after, rest) && rest.len() > 0);
            lemma_run_balances_expecting(account, expects, script2, after, rest);
            lemma_total_add(account.weight, events(calls, Some(rest[0])), run(script2, after, rest).log);
            assert((account.held)(script, state, replies[0]) + batch(account.weight, calls, Some(rest[0])) == (
            account.held)(script2, after, rest[0]));
        },
    }
}

proof fn lemma_all_expected<S: Script>(script: S, state: S::State, replies: Seq<Reply>)
    ensures
        as_expected(anything(), script, state, replies),
    decreases replies.len(),
{
    if replies.len() > 0 {
        let (after, step) = script.next(state, replies[0]);
        match step {
            SpecStep::Done(calls, out) => {},
            SpecStep::Calls(calls, script2) => lemma_all_expected(script2, after, replies.skip(1)),
        }
    }
}

/// A script whose every step keeps the balance keeps it over a whole run.
pub proof fn lemma_run_balances<S: Script>(account: Account<S>, script: S, state: S::State, replies: Seq<Reply>)
    requires
        (account.at)(script, state),
        account.balances(),
        run(script, state, replies).out is Some,
    ensures
        (account.held)(script, state, replies[0]) + total(account.weight, run(script, state, replies).log) == (
        account.kept)(run(script, state, replies).state, run(script, state, replies).out->0),
{
    lemma_all_expected(script, state, replies);
    lemma_run_balances_expecting(account, anything(), script, state, replies);
}

/// What may happen on the way of a script, and how it may end.
#[verifier::reject_recursive_types(S)]
pub ghost struct Conduct<S: Script> {
    /// The points of the script that are considered.
    pub at: spec_fn(S, S::State) -> bool,
    /// The events that may occur.
    pub allowed: spec_fn(Event) -> bool,
    /// The states and results in which it may end.
    pub ends: spec_fn(S::State, S::Out) -> bool,
}

impl<S: Script> Conduct<S> {
    /// Whether a step makes only calls that are allowed, whatever is replied to them, and leads to a
    /// point that is considered or to a permitted end.
    pub open spec fn step_keeps(self, script: S, state: S::State, reply: Reply) -> bool {
        let (after, step) = script.next(state, reply);
        match step {
            SpecStep::Done(calls, out) => {
                &&& forall|i: int, answer: Option<Reply>|
                    #![trigger (self.allowed)(Event { call: calls[i], reply: answer })]
                    0 <= i < calls.len() ==> (self.allowed)(Event { call: calls[i], reply: answer })
                &&& (self.ends)(after, out)
            },
            SpecStep::Calls(calls, script2) => {
                &&& forall|i: int, answer: Option<Reply>|
                    #![trigger (self.allowed)(Event { call: calls[i], reply: answer })]
                    0 <= i < calls.len() ==> (self.allowed)(Event { call: calls[i], reply: answer })
                &&& (self.at)(script2, after)
            },
        }
    }

    /// Whether every step keeps to it.
    pub open spec fn kept(self) -> bool {
        forall|script: S, state: S::State, reply: Reply|
            #![trigger script.next(state, reply)]
            (self.at)(script, state) ==> self.step_keeps(script, state, reply)
    }
}

/// A script whose every step keeps to a conduct keeps to it over a whole run.
pub proof fn lemma_run_conduct<S: Script>(conduct: Conduct<S>, script: S, state: S::State, replies: Seq<Reply>)
    requires
        (conduct.at)(script, state),
        conduct.kept(),
    ensures
        forall|i: int|
            0 <= i < run(script, state, replies).log.len() ==> (conduct.allowed)(
                #[trigger] run(script, state, replies).log[i],
            ),
        run(script, state, replies).out matches Some(out) ==> (conduct.ends)(run(script, state, replies).state, out),
    decreases replies.len(),
{
    if replies.len() > 0 {
        let (after, step) = script.next(state, replies[0]);
        assert(conduct.step_keeps(script, state, replies[0]));
        match step {
            SpecStep::Done(calls, out) => {},
            SpecStep::Calls(calls, script2) => lemma_run_conduct(conduct, script2, after, replies.skip(1)),
        }
    }
}

/// A script whose rank falls with every step has ended once it got one reply more than its rank.
pub proof fn lemma_run_completes<S: Script>(rank: spec_fn(S) -> nat, script: S, state: S::State, replies: Seq<Reply>)
    requires
        replies.len() > rank(script),
        forall|s: S, st: S::State, r: Reply|
            #![trigger s.next(st, r)]
            s.next(st, r).1 is Calls ==> rank(s.next(st, r).1->Calls_1) < rank(s),
    ensures
        run(script, state, replies).out is Some,
    decreases replies.len(),
{
    let (after, step) = script.next(state, replies[0]);
    match step {
        SpecStep::Done(calls, out) => {},
        SpecStep::Calls(calls, script2) => {
            lemma_run_completes(rank, script2, after, replies.skip(1));
        },
    }
}

/// A script that goes on only where a reply is as expected has got such replies as long as it has
/// not ended.
pub proof fn lemma_run_goes_on<S: Script>(
    expects: spec_fn(S, Reply) -> bool,
    script: S,
    state: S::State,
    replies: Seq<Reply>,
)
    requires
        run(script, state, replies).out is None,
        forall|s: S, st: S::State, r: Reply| #![trigger s.next(st, r)] s.next(st, r).1 is Calls ==> expects(s, r),
    ensures
        as_expected(expects, script, state, replies),
    decreases replies.len(),
{
    if replies.len() > 0 {
        let (after, step) = script.next(state, replies[0]);
        match step {
            SpecStep::Done(calls, out) => {},
            SpecStep::Calls(calls, script2) => {
                lemma_run_goes_on(expects, script2, after, replies.skip(1));
            },
        }
    }
}

} // verus!

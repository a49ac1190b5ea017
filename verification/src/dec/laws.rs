//! What holds of the decoder over whole runs of its scripts.

use vstd::prelude::*;

use crate::call::{Call, Flow, FrameResult, Reply};
use crate::dec::frames::{Drain, PollDecoded, SendEos, SubmitPacket, TryGetFrame, DRAIN_TIME, MAX_RETRIES};
use crate::dec::state::{
    CreateError, DecSetFormat, DecStart, DecTeardown, DecoderState, SetFormatError, TEARDOWN_POLLS,
};
use crate::mpp_ffi::{
    MPP_CTX_DEC, MPP_DEC_SET_PARSER_FAST_MODE, MPP_DEC_SET_PARSER_SPLIT_MODE, MPP_OK, NULL,
};
use crate::output::Entry;
use crate::script::Event;

verus! {

/// Starting the decoder makes one context, or none where it fails. The decoder starts without a
/// picture size.
pub proof fn law_start_makes_a_context(replies: Seq<Reply>)
    requires
        crate::script::run(DecStart::Begin, (), replies).out is Some,
    ensures
        ({
            let run = crate::script::run(DecStart::Begin, (), replies);
            &&& crate::script::total(crate::resources::context_weight(), run.log) == crate::resources::one_if(
                run.out->0 is Ok,
            )
            &&& run.out->0 matches Ok(dec) ==> !dec.negotiated
        }),
{
    broadcast use crate::script::group_batch;

    let account = crate::script::Account {
        weight: crate::resources::context_weight(),
        at: |script: DecStart, state: ()| true,
        held: |script: DecStart, state: (), reply: Reply|
            crate::resources::one_if(script is Created && reply.ret == MPP_OK),
        kept: |state: (), out: Result<DecoderState, CreateError>| crate::resources::one_if(out is Ok),
    };
    crate::script::lemma_run_balances(account, DecStart::Begin, (), replies);
    reveal_with_fuel(crate::script::run, 3);
}

/// A stream's codec takes effect only where setting the decoder up for it succeeds; the picture size
/// is then taken from the stream anew. The parser modes are set before the context is set up.
pub proof fn law_set_format_takes_effect(codec: i32, state: DecoderState, replies: Seq<Reply>)
    requires
        replies.len() >= 2,
    ensures
        ({
            let run = crate::script::run(DecSetFormat::Begin { codec }, state, replies);
            let init = Call::Init { mpp: state.mpp, ctx_type: MPP_CTX_DEC, coding: codec };
            &&& run.out == Some(
                if replies[1].ret == MPP_OK {
                    Ok::<(), SetFormatError>(())
                } else {
                    Err(SetFormatError::Init)
                },
            )
            &&& run.state == if replies[1].ret == MPP_OK {
                DecoderState { codec, negotiated: false, ..state }
            } else {
                state
            }
            &&& state.api.control ==> {
                &&& run.log[0].call matches Call::Control { cmd, .. } && cmd == MPP_DEC_SET_PARSER_SPLIT_MODE
                &&& run.log[1].call matches Call::Control { cmd, .. } && cmd == MPP_DEC_SET_PARSER_FAST_MODE
                &&& run.log[2].call == init
            }
            &&& !state.api.control ==> run.log[0].call == init
        }),
{
    reveal_with_fuel(crate::script::run, 3);
}

/// The account of a resource of which tearing a decoder down gives back `amount`, and of which
/// `extra` is held on the way.
spec fn teardown_account(
    weight: spec_fn(Event) -> int,
    amount: int,
    extra: spec_fn(DecTeardown, Reply) -> int,
) -> crate::script::Account<DecTeardown> {
    crate::script::Account {
        weight,
        at: |script: DecTeardown, state: ()| true,
        held: |script: DecTeardown, state: (), reply: Reply| amount + extra(script, reply),
        kept: |state: (), out: ()| 0int,
    }
}

spec fn teardown_contexts() -> crate::script::Account<DecTeardown> {
    teardown_account(crate::resources::context_weight(), 1, |script: DecTeardown, reply: Reply| 0int)
}

spec fn teardown_frames() -> crate::script::Account<DecTeardown> {
    teardown_account(
        crate::resources::frame_weight(),
        0,
        |script: DecTeardown, reply: Reply|
            crate::resources::one_if(script is Drain && reply.ret == MPP_OK && reply.handle != NULL),
    )
}

spec fn teardown_packets() -> crate::script::Account<DecTeardown> {
    teardown_account(
        crate::resources::packet_weight(),
        0,
        |script: DecTeardown, reply: Reply| crate::resources::one_if(script is EosPacket && reply.ret == MPP_OK),
    )
}

/// Tearing the decoder down gives its context back, and whatever frame or packet comes up on the
/// way.
pub proof fn law_teardown_gives_all_back(dec: DecoderState, replies: Seq<Reply>)
    requires
        crate::script::run(DecTeardown::Begin { dec }, (), replies).out is Some,
    ensures
        ({
            let log = crate::script::run(DecTeardown::Begin { dec }, (), replies).log;
            &&& crate::script::total(crate::resources::context_weight(), log) == -1
            &&& crate::script::total(crate::resources::frame_weight(), log) == 0
            &&& crate::script::total(crate::resources::packet_weight(), log) == 0
        }),
{
    broadcast use crate::script::group_batch;

    let script = DecTeardown::Begin { dec };
    crate::script::lemma_run_balances(teardown_contexts(), script, (), replies);
    crate::script::lemma_run_balances(teardown_frames(), script, (), replies);
    crate::script::lemma_run_balances(teardown_packets(), script, (), replies);
}

/// Tearing the decoder down comes to an end: it takes at most ten frames.
pub proof fn law_teardown_ends(dec: DecoderState, replies: Seq<Reply>)
    requires
        replies.len() >= TEARDOWN_POLLS + 2,
    ensures
        crate::script::run(DecTeardown::Begin { dec }, (), replies).out is Some,
{
    let rank = |script: DecTeardown|
        match script {
            DecTeardown::Begin { .. } => (TEARDOWN_POLLS + 1) as nat,
            DecTeardown::EosPacket { .. } => TEARDOWN_POLLS as nat,
            DecTeardown::Drain { taken, .. } => if taken < TEARDOWN_POLLS {
                (TEARDOWN_POLLS - 1 - taken) as nat
            } else {
                0
            },
        };
    crate::script::lemma_run_completes(rank, DecTeardown::Begin { dec }, (), replies);
}

spec fn submit_packets(can: bool) -> crate::script::Account<SubmitPacket> {
    crate::script::Account {
        weight: crate::resources::packet_weight(),
        at: |script: SubmitPacket, state: DecoderState| state.api.decode_put_packet == can,
        held: |script: SubmitPacket, state: DecoderState, reply: Reply|
            match script {
                SubmitPacket::Packet { .. } => crate::resources::one_if(reply.ret == MPP_OK),
                SubmitPacket::Offered { .. } => 1,
                _ => 0,
            },
        kept: |state: DecoderState, out: Entry<PollDecoded>| 0int,
    }
}

/// Expects that no packet is made which could not be offered then.
pub open spec fn packets_can_be_offered(can: bool) -> spec_fn(SubmitPacket, Reply) -> bool {
    |script: SubmitPacket, reply: Reply| script is Packet && !can ==> reply.ret != MPP_OK
}

/// The packet that carries the input is given back, whether the decoder took it or not, as long as
/// it can be offered at all.
pub proof fn law_submit_gives_packet_back(pts: Option<i64>, state: DecoderState, replies: Seq<Reply>)
    requires
        crate::script::run(SubmitPacket::Begin { pts }, state, replies).out is Some,
        crate::script::as_expected(
            packets_can_be_offered(state.api.decode_put_packet),
            SubmitPacket::Begin { pts },
            state,
            replies,
        ),
    ensures
        crate::script::total(
            crate::resources::packet_weight(),
            crate::script::run(SubmitPacket::Begin { pts }, state, replies).log,
        ) == 0,
{
    broadcast use crate::script::group_batch;

    crate::script::lemma_run_balances_expecting(
        submit_packets(state.api.decode_put_packet),
        packets_can_be_offered(state.api.decode_put_packet),
        SubmitPacket::Begin { pts },
        state,
        replies,
    );
}

/// How often a packet is offered.
pub open spec fn offers() -> spec_fn(Event) -> int {
    |event: Event| crate::resources::one_if(event.call is DecodePutPacket)
}

spec fn submit_offers() -> crate::script::Account<SubmitPacket> {
    crate::script::Account {
        weight: offers(),
        at: |script: SubmitPacket, state: DecoderState|
            {
                &&& state.api.decode_put_packet
                &&& script matches SubmitPacket::Offered { retries, .. } ==> retries <= MAX_RETRIES
            },
        held: |script: SubmitPacket, state: DecoderState, reply: Reply|
            match script {
                SubmitPacket::Offered { retries, .. } => retries + 1,
                _ => 0,
            },
        kept: |state: DecoderState, out: Entry<PollDecoded>| MAX_RETRIES + 1,
    }
}

/// A packet that the decoder does not take is offered a thousand times more, then given up.
pub proof fn law_submit_gives_up(pts: Option<i64>, state: DecoderState, replies: Seq<Reply>)
    requires
        crate::script::run(SubmitPacket::Begin { pts }, state, replies).out is Some,
        state.api.decode_put_packet,
        crate::script::as_expected(
            |script: SubmitPacket, reply: Reply| (reply.ret == MPP_OK) == !(script is Offered),
            SubmitPacket::Begin { pts },
            state,
            replies,
        ),
    ensures
        ({
            let run = crate::script::run(SubmitPacket::Begin { pts }, state, replies);
            &&& crate::script::total(offers(), run.log) == MAX_RETRIES + 1
            &&& run.out == Some(Entry::<PollDecoded>::Answer(Flow::Error))
        }),
{
    broadcast use crate::script::group_batch;

    let refused = |script: SubmitPacket, reply: Reply| (reply.ret == MPP_OK) == !(script is Offered);
    let script = SubmitPacket::Begin { pts };
    crate::script::lemma_run_balances_expecting(submit_offers(), refused, script, state, replies);
    lemma_refused_packet_fails(script, state, replies);
}

proof fn lemma_refused_packet_fails(script: SubmitPacket, state: DecoderState, replies: Seq<Reply>)
    requires
        crate::script::run(script, state, replies).out is Some,
        crate::script::as_expected(
            |script: SubmitPacket, reply: Reply| (reply.ret == MPP_OK) == !(script is Offered),
            script,
            state,
            replies,
        ),
    ensures
        crate::script::run(script, state, replies).out == Some(Entry::<PollDecoded>::Answer(Flow::Error)),
    decreases replies.len(),
{
    let refused = |script: SubmitPacket, reply: Reply| (reply.ret == MPP_OK) == !(script is Offered);
    assert(refused(script, replies[0]));
    match crate::script::Script::next(script, state, replies[0]) {
        (after, crate::script::SpecStep::Calls(_, script2)) => {
            lemma_refused_packet_fails(script2, after, replies.skip(1));
        },
        _ => {},
    }
}

/// Submitting a packet comes to an end.
pub proof fn law_submit_ends(pts: Option<i64>, state: DecoderState, replies: Seq<Reply>)
    requires
        replies.len() >= MAX_RETRIES + 4,
    ensures
        crate::script::run(SubmitPacket::Begin { pts }, state, replies).out is Some,
{
    let rank = |script: SubmitPacket|
        match script {
            SubmitPacket::Begin { .. } => (MAX_RETRIES + 3) as nat,
            SubmitPacket::Mapped { .. } => (MAX_RETRIES + 2) as nat,
            SubmitPacket::Packet { .. } => (MAX_RETRIES + 1) as nat,
            SubmitPacket::Offered { retries, .. } => if retries < MAX_RETRIES {
                (MAX_RETRIES - retries) as nat
            } else {
                0
            },
        };
    crate::script::lemma_run_completes(rank, SubmitPacket::Begin { pts }, state, replies);
}

spec fn fetch_frames() -> crate::script::Account<TryGetFrame> {
    crate::script::Account {
        weight: crate::resources::frame_weight(),
        at: |script: TryGetFrame, state: DecoderState|
            match script {
                TryGetFrame::Inspected { frame } => frame != NULL,
                TryGetFrame::Copied { frame } => frame != NULL,
                _ => true,
            },
        held: |script: TryGetFrame, state: DecoderState, reply: Reply|
            match script {
                TryGetFrame::Begin => 0,
                TryGetFrame::Fetched => crate::resources::one_if(reply.ret == MPP_OK && reply.handle != NULL),
                _ => 1,
            },
        kept: |state: DecoderState, out: FrameResult| 0int,
    }
}

spec fn fetch_pictures() -> crate::script::Account<TryGetFrame> {
    crate::script::Account {
        weight: crate::resources::picture_weight(),
        at: |script: TryGetFrame, state: DecoderState| true,
        held: |script: TryGetFrame, state: DecoderState, reply: Reply|
            crate::resources::one_if(script is Copied && reply.handle != NULL),
        kept: |state: DecoderState, out: FrameResult| crate::resources::one_if(out is Frame),
    }
}

/// Fetching a frame loses nothing: the frame is given back to the decoder, and a picture that was
/// copied out of it is the result.
pub proof fn law_fetch_loses_nothing(state: DecoderState, replies: Seq<Reply>)
    requires
        crate::script::run(TryGetFrame::Begin, state, replies).out is Some,
    ensures
        ({
            let run = crate::script::run(TryGetFrame::Begin, state, replies);
            &&& crate::script::total(crate::resources::frame_weight(), run.log) == 0
            &&& crate::script::total(crate::resources::picture_weight(), run.log) == crate::resources::one_if(
                run.out->0 is Frame,
            )
        }),
{
    broadcast use crate::script::group_batch;

    crate::script::lemma_run_balances(fetch_frames(), TryGetFrame::Begin, state, replies);
    crate::script::lemma_run_balances(fetch_pictures(), TryGetFrame::Begin, state, replies);
}

/// No picture comes out before its size is announced: where the size was not known, a picture is
/// the result only after the size that its frame reports was announced and taken over. Pictures are
/// copied by the size that is known then.
pub proof fn law_size_is_announced_first(state: DecoderState, replies: Seq<Reply>)
    requires
        crate::script::run(TryGetFrame::Begin, state, replies).out matches Some(FrameResult::Frame(_)),
    ensures
        ({
            let run = crate::script::run(TryGetFrame::Begin, state, replies);
            let known = run.state.geometry;
            &&& run.state.negotiated
            &&& state.negotiated ==> known == state.geometry
            &&& !state.negotiated ==> run.log[2].call == Call::NegotiateOutput {
                width: known.width,
                height: known.height,
            }
            &&& run.log[run.log.len() - 2].call matches Call::CopyDecoded { geometry, .. } && geometry == known
        }),
{
    reveal_with_fuel(crate::script::run, 5);
}

/// A frame that reports a new size makes the decoder take it over and announce it, and is itself no
/// picture.
pub proof fn law_info_change_is_taken_over(state: DecoderState, replies: Seq<Reply>)
    requires
        replies.len() >= 3,
        replies[1].ret == MPP_OK,
        replies[1].handle != NULL,
        replies[2].info.eos == 0,
        replies[2].info.info_change != 0,
    ensures
        ({
            let run = crate::script::run(TryGetFrame::Begin, state, replies);
            &&& run.out == Some(FrameResult::Skip)
            &&& run.state == state.sized(replies[2].info)
            &&& run.log.last().call == Call::NegotiateOutput {
                width: replies[2].info.width,
                height: replies[2].info.height,
            }
        }),
{
    reveal_with_fuel(crate::script::run, 4);
    assert(replies.skip(1).skip(1)[0] == replies[2]);
}

/// Fetching a frame comes to an end.
pub proof fn law_fetch_ends(state: DecoderState, replies: Seq<Reply>)
    requires
        replies.len() >= 4,
    ensures
        crate::script::run(TryGetFrame::Begin, state, replies).out is Some,
{
    let rank = |script: TryGetFrame|
        match script {
            TryGetFrame::Begin => 3nat,
            TryGetFrame::Fetched => 2,
            TryGetFrame::Inspected { .. } => 1,
            TryGetFrame::Copied { .. } => 0,
        };
    crate::script::lemma_run_completes(rank, TryGetFrame::Begin, state, replies);
}

/// Every picture that is fetched while polling is handed on, once; polling goes on only as long as
/// frames come, and ends well.
pub proof fn law_poll_hands_all_on(replies: Seq<Reply>)
    ensures
        ({
            let run = crate::script::run(PollDecoded::Begin, (), replies);
            &&& run.out matches Some(flow) ==> flow == Flow::Success && crate::script::total(
                crate::resources::picture_weight(),
                run.log,
            ) == 0
            &&& run.out is None ==> crate::script::as_expected(
                |script: PollDecoded, reply: Reply|
                    script is Tried ==> reply.frame is Frame || reply.frame is Skip,
                PollDecoded::Begin,
                (),
                replies,
            )
        }),
{
    broadcast use crate::script::group_batch;

    let run = crate::script::run(PollDecoded::Begin, (), replies);
    if run.out is None {
        let frames = |script: PollDecoded, reply: Reply|
            script is Tried ==> reply.frame is Frame || reply.frame is Skip;
        crate::script::lemma_run_goes_on(frames, PollDecoded::Begin, (), replies);
    } else {
        let account = crate::script::Account {
            weight: crate::resources::picture_weight(),
            at: |script: PollDecoded, state: ()| true,
            held: |script: PollDecoded, state: (), reply: Reply|
                crate::resources::one_if(script is Tried && reply.frame is Frame),
            kept: |state: (), out: Flow| crate::resources::one_if(out != Flow::Success),
        };
        crate::script::lemma_run_balances(account, PollDecoded::Begin, (), replies);
        let conduct = crate::script::Conduct {
            at: |script: PollDecoded, state: ()| true,
            allowed: |event: Event| true,
            ends: |state: (), out: Flow| out == Flow::Success,
        };
        crate::script::lemma_run_conduct(conduct, PollDecoded::Begin, (), replies);
    }
}

/// Every picture that is fetched while draining is handed on, once. Draining goes on only until the
/// end of the stream comes out or its time is up, and ends well.
pub proof fn law_drain_hands_all_on(replies: Seq<Reply>)
    ensures
        ({
            let run = crate::script::run(Drain::Begin, (), replies);
            &&& run.out matches Some(flow) ==> flow == Flow::Success && crate::script::total(
                crate::resources::picture_weight(),
                run.log,
            ) == 0
            &&& run.out is None ==> crate::script::as_expected(
                |script: Drain, reply: Reply|
                    match script {
                        Drain::Clock { start } => reply.clock < start + DRAIN_TIME,
                        Drain::Tried { .. } => !(reply.frame is Eos),
                        _ => true,
                    },
                Drain::Begin,
                (),
                replies,
            )
        }),
{
    broadcast use crate::script::group_batch;

    let run = crate::script::run(Drain::Begin, (), replies);
    if run.out is None {
        let in_time = |script: Drain, reply: Reply|
            match script {
                Drain::Clock { start } => reply.clock < start + DRAIN_TIME,
                Drain::Tried { .. } => !(reply.frame is Eos),
                _ => true,
            };
        crate::script::lemma_run_goes_on(in_time, Drain::Begin, (), replies);
    } else {
        let account = crate::script::Account {
            weight: crate::resources::picture_weight(),
            at: |script: Drain, state: ()| true,
            held: |script: Drain, state: (), reply: Reply|
                crate::resources::one_if(script is Tried && reply.frame is Frame),
            kept: |state: (), out: Flow| crate::resources::one_if(out != Flow::Success),
        };
        crate::script::lemma_run_balances(account, Drain::Begin, (), replies);
        let conduct = crate::script::Conduct {
            at: |script: Drain, state: ()| true,
            allowed: |event: Event| true,
            ends: |state: (), out: Flow| out == Flow::Success,
        };
        crate::script::lemma_run_conduct(conduct, Drain::Begin, (), replies);
    }
}

/// The packet that ends the stream is given back.
pub proof fn law_eos_gives_packet_back(state: DecoderState, replies: Seq<Reply>)
    requires
        crate::script::run(SendEos::Begin, state, replies).out is Some,
    ensures
        crate::script::total(
            crate::resources::packet_weight(),
            crate::script::run(SendEos::Begin, state, replies).log,
        ) == 0,
{
    broadcast use crate::script::group_batch;

    let account = crate::script::Account {
        weight: crate::resources::packet_weight(),
        at: |script: SendEos, state: DecoderState| true,
        held: |script: SendEos, state: DecoderState, reply: Reply|
            crate::resources::one_if(script is Packet && reply.ret == MPP_OK),
        kept: |state: DecoderState, out: Drain| 0int,
    };
    crate::script::lemma_run_balances(account, SendEos::Begin, state, replies);
}

} // verus!

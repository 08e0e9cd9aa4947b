use vstd::prelude::*;
use crate::gathering::{gathering_wait_spec, GatheringWait};
use crate::session::{
    begin_answer_spec, begin_apply_remote_spec, begin_offer_spec, finish_flush_spec,
    finish_local_spec, finish_remote_spec, initialize_spec, record_candidate_spec,
    lemma_push_fresh_distinct, remote_wrapped_spec, session_wf, ticket_pending, SessionView,
};
use crate::types::{CandidateView, LocalOutcome, NegotiationError, Operation, SdpRole, Ticket};

verus! {

/// Recording the same candidate twice leaves the session as recording it once
/// did, and the buffer that a successful `ApplyRemote` hands out to be applied
/// holds that candidate exactly once.
pub proof fn lemma_record_twice_flush_once(
    s: SessionView,
    generation: u64,
    c: CandidateView,
    t: Ticket,
)
    requires
        session_wf(s),
        s.phase != crate::types::Phase::Uninitialized,
        generation == s.generation,
    ensures
        ({
            let once = record_candidate_spec(s, generation, c).0;
            let twice = record_candidate_spec(once, generation, c);
            &&& twice == (once, false)
            &&& session_wf(once)
            &&& (finish_remote_spec(once, t, true).1 matches Some(Ok((_, plan))) ==> (exists|i: int|
                0 <= i < plan.len() && plan[i] == c && forall|j: int|
                    0 <= j < plan.len() && #[trigger] plan[j] == c ==> j == i))
        }),
{
    let once = record_candidate_spec(s, generation, c).0;
    if !s.buffer.contains(c) {
        lemma_push_fresh_distinct(s.buffer, c);
    }
    assert(once.buffer.contains(c));
    let i = choose|i: int| 0 <= i < once.buffer.len() && once.buffer[i] == c;
    if let Some(Ok((_, plan))) = finish_remote_spec(once, t, true).1 {
        assert(plan == once.buffer);
        assert(forall|j: int| 0 <= j < plan.len() && #[trigger] plan[j] == c ==> j == i);
    }
}

/// `ApplyRemote` hands nothing to the engine unless remote text has been set,
/// whatever the outcome of wrapping it.
pub proof fn lemma_apply_remote_needs_text(s: SessionView, wrapped: bool)
    ensures
        remote_wrapped_spec(s, wrapped).1 is Ok ==> s.remote_text.len() > 0,
        begin_apply_remote_spec(s).1 is Ok ==> s.remote_text.len() > 0,
        s.remote_text.len() == 0 ==> remote_wrapped_spec(s, wrapped).0 == s,
{
}

/// `CreateAnswer` fails with `RoleMismatch`, changing nothing, whenever the
/// applied remote description is an answer.
pub proof fn lemma_answer_to_answer_rejected(s: SessionView)
    requires
        session_wf(s),
        s.remote == Some(SdpRole::Answer),
    ensures
        begin_answer_spec(s) == (s, Err::<Ticket, NegotiationError>(NegotiationError::RoleMismatch)),
{
}

/// Of two `CreateOffer` calls on one connection, the second is rejected with
/// `NegotiationInProgress` and changes nothing, and the first publishes its
/// local description once: a second completion of it is discarded.
pub proof fn lemma_single_flight(s: SessionView, outcome: LocalOutcome, again: LocalOutcome)
    requires
        session_wf(s),
        begin_offer_spec(s).1 is Ok,
    ensures
        ({
            let (first, r) = begin_offer_spec(s);
            let t = r->Ok_0;
            let (second_state, second) = begin_offer_spec(first);
            let done = finish_local_spec(first, t, outcome).0;
            &&& second_state == first
            &&& second == Err::<Ticket, NegotiationError>(NegotiationError::NegotiationInProgress)
            &&& match outcome {
                LocalOutcome::Gathered(text) => text@.len() > 0 ==> done.local == Some(
                    (crate::types::DescriptionView { role: SdpRole::Offer, sdp: text@ }),
                ),
                _ => true,
            }
            &&& finish_local_spec(done, t, again) == (done, None::<Result<(), NegotiationError>>)
        }),
{
}

/// After a connection is replaced, nothing of the old one reaches the new one:
/// the buffer starts empty, candidates tagged with an older generation are not
/// recorded, and completions of older operations are discarded.
pub proof fn lemma_generation_isolation(
    s: SessionView,
    gathering_timeout_ms: u64,
    trickle_fallback: bool,
    older: u64,
    c: CandidateView,
    t: Ticket,
    outcome: LocalOutcome,
    engine_ok: bool,
)
    requires
        session_wf(s),
        initialize_spec(s, gathering_timeout_ms, trickle_fallback).1 is Ok,
        older <= s.generation,
        t.generation <= s.generation,
    ensures
        ({
            let fresh = initialize_spec(s, gathering_timeout_ms, trickle_fallback).0;
            &&& fresh.generation > s.generation
            &&& fresh.buffer.len() == 0
            &&& record_candidate_spec(fresh, older, c) == (fresh, false)
            &&& !ticket_pending(fresh, t)
            &&& finish_local_spec(fresh, t, outcome) == (fresh, None::<Result<(), NegotiationError>>)
            &&& finish_remote_spec(fresh, t, engine_ok).0 == fresh
            &&& finish_remote_spec(fresh, t, engine_ok).1 is None
            &&& finish_flush_spec(fresh, t) == (fresh, false)
        }),
{
}

/// The wait for gathering never sleeps past its bound, always makes progress,
/// and once the bound is reached it ends: completed, cancelled or timed out.
pub proof fn lemma_gathering_wait_bounded(
    fired: bool,
    current: bool,
    elapsed_ms: u64,
    bound_ms: u64,
    slice_ms: u64,
)
    ensures
        gathering_wait_spec(fired, current, elapsed_ms, bound_ms, slice_ms) matches GatheringWait::Sleep(
            d,
        ) ==> 0 < d && elapsed_ms + d <= bound_ms,
        elapsed_ms >= bound_ms ==> !(gathering_wait_spec(
            fired,
            current,
            elapsed_ms,
            bound_ms,
            slice_ms,
        ) is Sleep),
        current && !fired && elapsed_ms >= bound_ms ==> gathering_wait_spec(
            fired,
            current,
            elapsed_ms,
            bound_ms,
            slice_ms,
        ) == GatheringWait::TimedOut,
{
}

/// A timed-out gathering ends the pending offer or answer with
/// `GatheringTimeout` and frees the connection for the next operation.
pub proof fn lemma_timeout_surfaces(s: SessionView, t: Ticket, sdp: String)
    requires
        ticket_pending(s, t),
        t.op == Operation::Offer || t.op == Operation::Answer,
    ensures
        finish_local_spec(s, t, LocalOutcome::TimedOut(sdp)).1 == Some(
            Err::<(), NegotiationError>(NegotiationError::GatheringTimeout),
        ),
        finish_local_spec(s, t, LocalOutcome::TimedOut(sdp)).0.in_flight is None,
{
}

} // verus!

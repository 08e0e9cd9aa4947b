use vstd::prelude::*;
use crate::config::SessionConfig;
use crate::engine::{wrap_answer, wrap_offer};
use webrtc::peer_connection::sdp::session_description::RTCSessionDescription;
use crate::types::{
    CandidateView, DescriptionView, IceCandidate, LocalOutcome, NegotiationError, Operation, Phase,
    SdpRole, SessionDescription, Ticket,
};

verus! {

/// The session as the contracts see it.
pub struct SessionView {
    pub generation: u64,
    pub phase: Phase,
    pub in_flight: Option<Operation>,
    pub local: Option<DescriptionView>,
    pub remote_text: Seq<char>,
    pub remote: Option<SdpRole>,
    pub buffer: Seq<CandidateView>,
    pub gathering_timeout_ms: u64,
    pub trickle_fallback: bool,
}

/// The single owner of the negotiation state of one peer: the live
/// connection's generation, its phase, the pending operation, the published
/// local description, the operator's remote text, the role of the accepted
/// remote description and the buffer of discovered candidates.
pub struct Session {
    generation: u64,
    phase: Phase,
    in_flight: Option<Operation>,
    local: Option<SessionDescription>,
    remote_text: String,
    remote: Option<SdpRole>,
    buffer: Vec<IceCandidate>,
    gathering_timeout_ms: u64,
    trickle_fallback: bool,
}

pub open spec fn description_view(d: Option<SessionDescription>) -> Option<DescriptionView> {
    match d {
        Some(d) => Some(d@),
        None => None,
    }
}

pub open spec fn candidate_views(v: Seq<IceCandidate>) -> Seq<CandidateView> {
    v.map_values(|c: IceCandidate| c@)
}

impl View for Session {
    type V = SessionView;

    closed spec fn view(&self) -> SessionView {
        SessionView {
            generation: self.generation,
            phase: self.phase,
            in_flight: self.in_flight,
            local: description_view(self.local),
            remote_text: self.remote_text@,
            remote: self.remote,
            buffer: candidate_views(self.buffer@),
            gathering_timeout_ms: self.gathering_timeout_ms,
            trickle_fallback: self.trickle_fallback,
        }
    }
}

/// The invariant every reachable session keeps.
pub open spec fn session_wf(s: SessionView) -> bool {
    &&& s.phase == Phase::Uninitialized ==> s.in_flight is None && s.local is None
        && s.remote is None && s.buffer.len() == 0
    &&& (s.phase == Phase::Offering) == (s.in_flight == Some(Operation::Offer))
    &&& (s.phase == Phase::Answering) == (s.in_flight == Some(Operation::Answer))
    &&& (s.phase == Phase::RemoteApplied) == (s.in_flight == Some(Operation::Flush))
    &&& s.in_flight == Some(Operation::Remote) ==> (s.phase == Phase::Initialized || s.phase
        == Phase::Negotiated)
    &&& s.remote is Some ==> (s.phase == Phase::RemoteApplied || s.phase
        == Phase::CandidatesFlushed || s.phase == Phase::Answering || s.phase == Phase::Negotiated)
    &&& s.buffer.no_duplicates()
}

/// The session before any connection exists.
pub open spec fn initial_session() -> SessionView {
    SessionView {
        generation: 0,
        phase: Phase::Uninitialized,
        in_flight: None,
        local: None,
        remote_text: Seq::empty(),
        remote: None,
        buffer: Seq::empty(),
        gathering_timeout_ms: 0,
        trickle_fallback: false,
    }
}

/// Installing a newly created connection: a fresh generation, everything of
/// the previous negotiation dropped but the operator's remote text.
pub open spec fn initialize_spec(s: SessionView, gathering_timeout_ms: u64, trickle_fallback: bool) -> (
    SessionView,
    Result<u64, NegotiationError>,
) {
    if s.generation == u64::MAX {
        (s, Err(NegotiationError::ConnectionSetupFailed))
    } else {
        let g = (s.generation + 1) as u64;
        (
            SessionView {
                generation: g,
                phase: Phase::Initialized,
                in_flight: None,
                local: None,
                remote_text: s.remote_text,
                remote: None,
                buffer: Seq::empty(),
                gathering_timeout_ms,
                trickle_fallback,
            },
            Ok(g),
        )
    }
}

/// Admitting a `CreateOffer`.
pub open spec fn begin_offer_spec(s: SessionView) -> (SessionView, Result<Ticket, NegotiationError>) {
    if s.phase == Phase::Uninitialized {
        (s, Err(NegotiationError::NoConnection))
    } else if s.in_flight is Some {
        (s, Err(NegotiationError::NegotiationInProgress))
    } else if s.phase != Phase::Initialized {
        (s, Err(NegotiationError::OutOfOrder))
    } else {
        (
            SessionView { phase: Phase::Offering, in_flight: Some(Operation::Offer), ..s },
            Ok(Ticket { generation: s.generation, op: Operation::Offer }),
        )
    }
}

/// Admitting a `CreateAnswer`: only after a remote offer was applied and its
/// buffer flushed, and never in reply to an answer.
pub open spec fn begin_answer_spec(s: SessionView) -> (SessionView, Result<Ticket, NegotiationError>) {
    if s.phase == Phase::Uninitialized {
        (s, Err(NegotiationError::NoConnection))
    } else if s.remote == Some(SdpRole::Answer) {
        (s, Err(NegotiationError::RoleMismatch))
    } else if s.in_flight is Some {
        (s, Err(NegotiationError::NegotiationInProgress))
    } else if s.phase != Phase::CandidatesFlushed || s.remote != Some(SdpRole::Offer) {
        (s, Err(NegotiationError::OutOfOrder))
    } else {
        (
            SessionView { phase: Phase::Answering, in_flight: Some(Operation::Answer), ..s },
            Ok(Ticket { generation: s.generation, op: Operation::Answer }),
        )
    }
}

/// Whether `t` names the operation pending on the live connection.
pub open spec fn ticket_pending(s: SessionView, t: Ticket) -> bool {
    t.generation == s.generation && s.in_flight == Some(t.op)
}

pub open spec fn published(s: SessionView, role: SdpRole, sdp: Seq<char>) -> SessionView {
    SessionView {
        phase: Phase::Negotiated,
        in_flight: None,
        local: Some(DescriptionView { role, sdp }),
        ..s
    }
}

/// Back to the phase the offer or answer started from, nothing published.
pub open spec fn reverted(s: SessionView, op: Operation) -> SessionView {
    SessionView {
        phase: if op == Operation::Offer {
            Phase::Initialized
        } else {
            Phase::CandidatesFlushed
        },
        in_flight: None,
        ..s
    }
}

/// Completing a `CreateOffer` or `CreateAnswer` with what the engine did.
/// Completions of anything but the pending offer or answer are discarded.
pub open spec fn finish_local_spec(s: SessionView, t: Ticket, outcome: LocalOutcome) -> (
    SessionView,
    Option<Result<(), NegotiationError>>,
) {
    if !ticket_pending(s, t) || !(t.op == Operation::Offer || t.op == Operation::Answer) {
        (s, None)
    } else {
        let role = if t.op == Operation::Offer {
            SdpRole::Offer
        } else {
            SdpRole::Answer
        };
        match outcome {
            LocalOutcome::Gathered(sdp) => if sdp@.len() > 0 {
                (published(s, role, sdp@), Some(Ok(())))
            } else {
                (reverted(s, t.op), Some(Err(NegotiationError::LocalDescriptionRejected)))
            },
            LocalOutcome::GenerationFailed => (
                reverted(s, t.op),
                Some(
                    Err(
                        if t.op == Operation::Offer {
                            NegotiationError::OfferGenerationFailed
                        } else {
                            NegotiationError::AnswerGenerationFailed
                        },
                    ),
                ),
            ),
            LocalOutcome::LocalRejected => (
                reverted(s, t.op),
                Some(Err(NegotiationError::LocalDescriptionRejected)),
            ),
            LocalOutcome::TimedOut(sdp) => (
                if s.trickle_fallback && sdp@.len() > 0 {
                    published(s, role, sdp@)
                } else {
                    reverted(s, t.op)
                },
                Some(Err(NegotiationError::GatheringTimeout)),
            ),
        }
    }
}

/// What `ApplyRemote` checks before it touches the engine, and the role it
/// gives the operator's text: an offer before any local description, an
/// answer once our own offer is published.
pub open spec fn remote_request_spec(s: SessionView) -> Result<SdpRole, NegotiationError> {
    if s.phase == Phase::Uninitialized {
        Err(NegotiationError::NoConnection)
    } else if s.in_flight is Some {
        Err(NegotiationError::NegotiationInProgress)
    } else if s.remote_text.len() == 0 {
        Err(NegotiationError::MissingRemoteText)
    } else if s.phase == Phase::Initialized {
        Ok(SdpRole::Offer)
    } else if s.phase == Phase::Negotiated && s.remote is None {
        Ok(SdpRole::Answer)
    } else {
        Err(NegotiationError::OutOfOrder)
    }
}

/// `ApplyRemote` once the text has been wrapped with its role (`wrapped`
/// tells whether the SDP was accepted).
pub open spec fn remote_wrapped_spec(s: SessionView, wrapped: bool) -> (
    SessionView,
    Result<Ticket, NegotiationError>,
) {
    match remote_request_spec(s) {
        Err(e) => (s, Err(e)),
        Ok(_) => if wrapped {
            (
                SessionView { in_flight: Some(Operation::Remote), ..s },
                Ok(Ticket { generation: s.generation, op: Operation::Remote }),
            )
        } else {
            (s, Err(NegotiationError::RemoteDescriptionRejected))
        },
    }
}

/// Whether the engine's wrapping accepts `sdp` in the given role.
pub open spec fn remote_accepted(role: SdpRole, sdp: Seq<char>) -> bool {
    match role {
        SdpRole::Offer => crate::engine::offer_sdp_accepted(sdp),
        SdpRole::Answer => crate::engine::answer_sdp_accepted(sdp),
    }
}

/// `ApplyRemote`, first half, wrapping included.
pub open spec fn begin_apply_remote_spec(s: SessionView) -> (
    SessionView,
    Result<Ticket, NegotiationError>,
) {
    remote_wrapped_spec(
        s,
        match remote_request_spec(s) {
            Ok(role) => remote_accepted(role, s.remote_text),
            Err(_) => false,
        },
    )
}

/// Completing `ApplyRemote` with whether the engine took the remote
/// description. On success the remote role is recorded and the whole buffer,
/// in discovery order, is handed out to be applied.
pub open spec fn finish_remote_spec(s: SessionView, t: Ticket, engine_ok: bool) -> (
    SessionView,
    Option<Result<(Ticket, Seq<CandidateView>), NegotiationError>>,
) {
    if t.op != Operation::Remote || !ticket_pending(s, t) {
        (s, None)
    } else if !engine_ok {
        (SessionView { in_flight: None, ..s }, Some(Err(NegotiationError::RemoteDescriptionRejected)))
    } else {
        (
            SessionView {
                phase: Phase::RemoteApplied,
                in_flight: Some(Operation::Flush),
                remote: Some(
                    if s.phase == Phase::Initialized {
                        SdpRole::Offer
                    } else {
                        SdpRole::Answer
                    },
                ),
                ..s
            },
            Some(Ok((Ticket { generation: s.generation, op: Operation::Flush }, s.buffer))),
        )
    }
}

/// Completing the flush of the buffer.
pub open spec fn finish_flush_spec(s: SessionView, t: Ticket) -> (SessionView, bool) {
    if t.op != Operation::Flush || !ticket_pending(s, t) {
        (s, false)
    } else {
        (SessionView { phase: Phase::CandidatesFlushed, in_flight: None, ..s }, true)
    }
}

/// Recording a discovered candidate of connection `generation`: ignored
/// without a connection, for another generation, or when already buffered.
pub open spec fn record_candidate_spec(s: SessionView, generation: u64, c: CandidateView) -> (
    SessionView,
    bool,
) {
    if s.phase == Phase::Uninitialized || generation != s.generation || s.buffer.contains(c) {
        (s, false)
    } else {
        (SessionView { buffer: s.buffer.push(c), ..s }, true)
    }
}

pub open spec fn set_remote_text_spec(s: SessionView, text: Seq<char>) -> SessionView {
    SessionView { remote_text: text, ..s }
}

pub open spec fn remote_result_view(
    r: Option<Result<(Ticket, Vec<IceCandidate>), NegotiationError>>,
) -> Option<Result<(Ticket, Seq<CandidateView>), NegotiationError>> {
    match r {
        None => None,
        Some(Err(e)) => Some(Err(e)),
        Some(Ok((t, v))) => Some(Ok((t, candidate_views(v@)))),
    }
}

/// Appending an element that is not yet present keeps a sequence free of
/// duplicates.
pub proof fn lemma_push_fresh_distinct(v: Seq<CandidateView>, c: CandidateView)
    requires
        v.no_duplicates(),
        !v.contains(c),
    ensures
        v.push(c).no_duplicates(),
        v.push(c).contains(c),
{
    assert(v.push(c)[v.len() as int] == c);
    assert forall|a: int, b: int|
        0 <= a < v.len() + 1 && 0 <= b < v.len() + 1 && a != b implies v.push(c)[a] != v.push(
        c,
    )[b] by {
        if a == v.len() {
            assert(v.push(c)[b] == v[b]);
        } else if b == v.len() {
            assert(v.push(c)[a] == v[a]);
        }
    }
}

fn copy_candidates(v: &Vec<IceCandidate>) -> (r: Vec<IceCandidate>)
    ensures
        candidate_views(r@) == candidate_views(v@),
{
    let mut out: Vec<IceCandidate> = Vec::new();
    let mut i: usize = 0;
    while i < v.len()
        invariant
            i <= v.len(),
            out@.len() == i,
            forall|k: int| 0 <= k < i ==> (#[trigger] out@[k])@ == v@[k]@,
        decreases v.len() - i,
    {
        out.push(v[i].duplicate());
        i += 1;
    }
    assert(candidate_views(out@) =~= candidate_views(v@));
    out
}

impl Session {
    pub fn new() -> (r: Self)
        ensures
            r@ == initial_session(),
            session_wf(r@),
    {
        let r = Session {
            generation: 0,
            phase: Phase::Uninitialized,
            in_flight: None,
            local: None,
            remote_text: String::new(),
            remote: None,
            buffer: Vec::new(),
            gathering_timeout_ms: 0,
            trickle_fallback: false,
        };
        assert(r@.buffer =~= Seq::<CandidateView>::empty());
        r
    }

    /// Installs a connection that the engine has just created under `config`,
    /// replacing any previous one. Returns the new connection's generation.
    pub fn initialize(&mut self, config: &SessionConfig) -> (r: Result<u64, NegotiationError>)
        requires
            session_wf(old(self)@),
        ensures
            final(self)@ == initialize_spec(
                old(self)@,
                config.gathering_timeout_ms,
                config.trickle_fallback,
            ).0,
            r == initialize_spec(old(self)@, config.gathering_timeout_ms, config.trickle_fallback).1,
            session_wf(final(self)@),
    {
        if self.generation == u64::MAX {
            return Err(NegotiationError::ConnectionSetupFailed);
        }
        self.generation = self.generation + 1;
        self.phase = Phase::Initialized;
        self.in_flight = None;
        self.local = None;
        self.remote = None;
        self.buffer = Vec::new();
        self.gathering_timeout_ms = config.gathering_timeout_ms;
        self.trickle_fallback = config.trickle_fallback;
        assert(self@.buffer =~= Seq::<CandidateView>::empty());
        Ok(self.generation)
    }

    /// `CreateOffer`, first half: admits the operation, or says why not.
    pub fn begin_offer(&mut self) -> (r: Result<Ticket, NegotiationError>)
        requires
            session_wf(old(self)@),
        ensures
            final(self)@ == begin_offer_spec(old(self)@).0,
            r == begin_offer_spec(old(self)@).1,
            session_wf(final(self)@),
    {
        if self.phase == Phase::Uninitialized {
            return Err(NegotiationError::NoConnection);
        }
        if self.in_flight.is_some() {
            return Err(NegotiationError::NegotiationInProgress);
        }
        if self.phase != Phase::Initialized {
            return Err(NegotiationError::OutOfOrder);
        }
        self.phase = Phase::Offering;
        self.in_flight = Some(Operation::Offer);
        Ok(Ticket { generation: self.generation, op: Operation::Offer })
    }

    /// `CreateAnswer`, first half: admits the operation, or says why not.
    pub fn begin_answer(&mut self) -> (r: Result<Ticket, NegotiationError>)
        requires
            session_wf(old(self)@),
        ensures
            final(self)@ == begin_answer_spec(old(self)@).0,
            r == begin_answer_spec(old(self)@).1,
            session_wf(final(self)@),
    {
        if self.phase == Phase::Uninitialized {
            return Err(NegotiationError::NoConnection);
        }
        let remote_is_answer = match self.remote {
            Some(SdpRole::Answer) => true,
            _ => false,
        };
        if remote_is_answer {
            return Err(NegotiationError::RoleMismatch);
        }
        if self.in_flight.is_some() {
            return Err(NegotiationError::NegotiationInProgress);
        }
        let remote_is_offer = match self.remote {
            Some(SdpRole::Offer) => true,
            _ => false,
        };
        if self.phase != Phase::CandidatesFlushed || !remote_is_offer {
            return Err(NegotiationError::OutOfOrder);
        }
        self.phase = Phase::Answering;
        self.in_flight = Some(Operation::Answer);
        Ok(Ticket { generation: self.generation, op: Operation::Answer })
    }
    /// `CreateOffer` / `CreateAnswer`, second half: what the engine did for
    /// the operation of ticket `t`. `None` when the completion is stale.
    pub fn finish_local(&mut self, t: Ticket, outcome: LocalOutcome) -> (r: Option<
        Result<(), NegotiationError>,
    >)
        requires
            session_wf(old(self)@),
        ensures
            final(self)@ == finish_local_spec(old(self)@, t, outcome).0,
            r == finish_local_spec(old(self)@, t, outcome).1,
            session_wf(final(self)@),
    {
        if !self.is_current(t) || !(t.op == Operation::Offer || t.op == Operation::Answer) {
            return None;
        }
        let is_offer = t.op == Operation::Offer;
        let role = if is_offer {
            SdpRole::Offer
        } else {
            SdpRole::Answer
        };
        let (publish, text, result) = match outcome {
            LocalOutcome::Gathered(sdp) => {
                if sdp.as_str().is_empty() {
                    (false, sdp, Err(NegotiationError::LocalDescriptionRejected))
                } else {
                    (true, sdp, Ok(()))
                }
            },
            LocalOutcome::GenerationFailed => (
                false,
                String::new(),
                Err(
                    if is_offer {
                        NegotiationError::OfferGenerationFailed
                    } else {
                        NegotiationError::AnswerGenerationFailed
                    },
                ),
            ),
            LocalOutcome::LocalRejected => (
                false,
                String::new(),
                Err(NegotiationError::LocalDescriptionRejected),
            ),
            LocalOutcome::TimedOut(sdp) => {
                let keep = self.trickle_fallback && !sdp.as_str().is_empty();
                (keep, sdp, Err(NegotiationError::GatheringTimeout))
            },
        };
        self.in_flight = None;
        if publish {
            self.phase = Phase::Negotiated;
            self.local = Some(SessionDescription { role, sdp: text });
        } else if is_offer {
            self.phase = Phase::Initialized;
        } else {
            self.phase = Phase::CandidatesFlushed;
        }
        Some(result)
    }

    /// What `ApplyRemote` checks before it touches the engine, and the role it
    /// gives the remote text.
    pub fn remote_request(&self) -> (r: Result<SdpRole, NegotiationError>)
        ensures
            r == remote_request_spec(self@),
    {
        if self.phase == Phase::Uninitialized {
            Err(NegotiationError::NoConnection)
        } else if self.in_flight.is_some() {
            Err(NegotiationError::NegotiationInProgress)
        } else if self.remote_text.as_str().is_empty() {
            Err(NegotiationError::MissingRemoteText)
        } else if self.phase == Phase::Initialized {
            Ok(SdpRole::Offer)
        } else if self.phase == Phase::Negotiated && self.remote.is_none() {
            Ok(SdpRole::Answer)
        } else {
            Err(NegotiationError::OutOfOrder)
        }
    }

    /// `ApplyRemote` once the remote text has been wrapped with its role:
    /// `wrapped` tells whether the engine accepted the SDP.
    pub fn remote_wrapped(&mut self, wrapped: bool) -> (r: Result<Ticket, NegotiationError>)
        requires
            session_wf(old(self)@),
        ensures
            final(self)@ == remote_wrapped_spec(old(self)@, wrapped).0,
            r == remote_wrapped_spec(old(self)@, wrapped).1,
            session_wf(final(self)@),
    {
        match self.remote_request() {
            Err(e) => Err(e),
            Ok(_) => {
                if wrapped {
                    self.in_flight = Some(Operation::Remote);
                    Ok(Ticket { generation: self.generation, op: Operation::Remote })
                } else {
                    Err(NegotiationError::RemoteDescriptionRejected)
                }
            },
        }
    }

    /// `ApplyRemote`, first half: checks the request, wraps the operator's text
    /// with its role and hands out the description to set on the connection.
    pub fn begin_apply_remote(&mut self) -> (r: Result<(Ticket, RTCSessionDescription), NegotiationError>)
        requires
            session_wf(old(self)@),
        ensures
            final(self)@ == begin_apply_remote_spec(old(self)@).0,
            match r {
                Ok((t, _)) => begin_apply_remote_spec(old(self)@).1 == Ok::<Ticket, NegotiationError>(t),
                Err(e) => begin_apply_remote_spec(old(self)@).1 == Err::<Ticket, NegotiationError>(e),
            },
            session_wf(final(self)@),
    {
        let role = match self.remote_request() {
            Ok(role) => role,
            Err(e) => return Err(e),
        };
        let text = self.remote_text.clone();
        let wrapped = match role {
            SdpRole::Offer => wrap_offer(text),
            SdpRole::Answer => wrap_answer(text),
        };
        match wrapped {
            Ok(desc) => match self.remote_wrapped(true) {
                Ok(t) => Ok((t, desc)),
                Err(e) => Err(e),
            },
            Err(_) => Err(NegotiationError::RemoteDescriptionRejected),
        }
    }

    /// `ApplyRemote`, second half: whether the engine set the remote
    /// description. On success, returns the ticket of the flush and the
    /// buffered candidates to apply, in discovery order.
    pub fn finish_remote(&mut self, t: Ticket, engine_ok: bool) -> (r: Option<
        Result<(Ticket, Vec<IceCandidate>), NegotiationError>,
    >)
        requires
            session_wf(old(self)@),
        ensures
            final(self)@ == finish_remote_spec(old(self)@, t, engine_ok).0,
            remote_result_view(r) == finish_remote_spec(old(self)@, t, engine_ok).1,
            session_wf(final(self)@),
    {
        if t.op != Operation::Remote || !self.is_current(t) {
            return None;
        }
        if !engine_ok {
            self.in_flight = None;
            return Some(Err(NegotiationError::RemoteDescriptionRejected));
        }
        let role = if self.phase == Phase::Initialized {
            SdpRole::Offer
        } else {
            SdpRole::Answer
        };
        self.remote = Some(role);
        self.phase = Phase::RemoteApplied;
        self.in_flight = Some(Operation::Flush);
        let plan = copy_candidates(&self.buffer);
        Some(Ok((Ticket { generation: self.generation, op: Operation::Flush }, plan)))
    }

    /// Ends the flush of ticket `t`; false when the ticket is stale.
    pub fn finish_flush(&mut self, t: Ticket) -> (r: bool)
        requires
            session_wf(old(self)@),
        ensures
            final(self)@ == finish_flush_spec(old(self)@, t).0,
            r == finish_flush_spec(old(self)@, t).1,
            session_wf(final(self)@),
    {
        if t.op != Operation::Flush || !self.is_current(t) {
            return false;
        }
        self.phase = Phase::CandidatesFlushed;
        self.in_flight = None;
        true
    }

    /// Appends a candidate discovered on connection `generation` to the buffer.
    /// Returns whether it was appended.
    pub fn record_candidate(&mut self, generation: u64, c: IceCandidate) -> (r: bool)
        requires
            session_wf(old(self)@),
        ensures
            final(self)@ == record_candidate_spec(old(self)@, generation, c@).0,
            r == record_candidate_spec(old(self)@, generation, c@).1,
            session_wf(final(self)@),
    {
        if self.phase == Phase::Uninitialized || generation != self.generation {
            return false;
        }
        let ghost views = candidate_views(self.buffer@);
        let mut i: usize = 0;
        while i < self.buffer.len()
            invariant
                i <= self.buffer.len(),
                views == candidate_views(self.buffer@),
                self@ == old(self)@,
                session_wf(self@),
                forall|j: int| 0 <= j < i ==> views[j] != c@,
            decreases self.buffer.len() - i,
        {
            if self.buffer[i].same_path(&c) {
                assert(views[i as int] == c@);
                return false;
            }
            i += 1;
        }
        assert(!views.contains(c@));
        self.buffer.push(c);
        assert(candidate_views(self.buffer@) =~= views.push(c@));
        proof {
            lemma_push_fresh_distinct(views, c@);
        }
        true
    }

    /// The operator's mutator for the remote text; no validation here.
    pub fn set_remote_text(&mut self, text: String)
        ensures
            final(self)@ == set_remote_text_spec(old(self)@, text@),
    {
        self.remote_text = text;
    }

    /// Whether ticket `t` names the operation pending on the live connection.
    pub fn is_current(&self, t: Ticket) -> (r: bool)
        ensures
            r == ticket_pending(self@, t),
    {
        t.generation == self.generation && match self.in_flight {
            Some(op) => op == t.op,
            None => false,
        }
    }

    /// Whether a candidate from outside the local gathering may be applied
    /// directly: only while a connection exists.
    pub fn accepts_external_candidate(&self) -> (r: bool)
        ensures
            r == (self@.phase != Phase::Uninitialized),
    {
        self.phase != Phase::Uninitialized
    }

    pub fn phase(&self) -> (r: Phase)
        ensures
            r == self@.phase,
    {
        self.phase
    }

    pub fn generation(&self) -> (r: u64)
        ensures
            r == self@.generation,
    {
        self.generation
    }

    pub fn in_flight(&self) -> (r: Option<Operation>)
        ensures
            r == self@.in_flight,
    {
        self.in_flight
    }

    pub fn remote_role(&self) -> (r: Option<SdpRole>)
        ensures
            r == self@.remote,
    {
        self.remote
    }

    pub fn gathering_timeout_ms(&self) -> (r: u64)
        ensures
            r == self@.gathering_timeout_ms,
    {
        self.gathering_timeout_ms
    }

    /// The published local description, if any.
    pub fn local_description(&self) -> (r: Option<SessionDescription>)
        ensures
            description_view(r) == self@.local,
    {
        match &self.local {
            Some(d) => Some(SessionDescription { role: d.role, sdp: d.sdp.clone() }),
            None => None,
        }
    }

    /// The operator's remote text.
    pub fn remote_text(&self) -> (r: String)
        ensures
            r@ == self@.remote_text,
    {
        self.remote_text.clone()
    }

    /// The buffered candidates, in discovery order.
    pub fn buffered_candidates(&self) -> (r: Vec<IceCandidate>)
        ensures
            candidate_views(r@) == self@.buffer,
    {
        copy_candidates(&self.buffer)
    }
}

} // verus!

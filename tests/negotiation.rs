use rtc_negotiator::{
    next_gathering_wait, GatheringWait, IceCandidate, LocalOutcome, NegotiationError, Operation,
    Phase, SdpRole, Session, SessionConfig, Ticket,
};

const OFFER_SDP: &str = "v=0\r\no=- 4215775240449105457 2 IN IP4 127.0.0.1\r\ns=-\r\nt=0 0\r\na=group:BUNDLE 0\r\nm=application 9 UDP/DTLS/SCTP webrtc-datachannel\r\nc=IN IP4 0.0.0.0\r\na=mid:0\r\n";
const ANSWER_SDP: &str = "v=0\r\no=- 6014536542380624329 2 IN IP4 127.0.0.1\r\ns=-\r\nt=0 0\r\na=group:BUNDLE 0\r\nm=application 9 UDP/DTLS/SCTP webrtc-datachannel\r\nc=IN IP4 0.0.0.0\r\na=mid:0\r\n";

fn host_candidate(port: u16) -> IceCandidate {
    IceCandidate::new(
        format!("candidate:1 1 udp 2130706431 192.168.1.2 {} typ host", port),
        Some("0".to_string()),
        Some(0),
    )
}

fn initialized(ice_lite: bool) -> (Session, u64) {
    let mut s = Session::new();
    let g = s.initialize(&SessionConfig::for_mode(ice_lite, 1000)).unwrap();
    (s, g)
}

fn offered(ice_lite: bool) -> (Session, u64) {
    let (mut s, g) = initialized(ice_lite);
    let t = s.begin_offer().unwrap();
    assert_eq!(s.finish_local(t, LocalOutcome::Gathered(OFFER_SDP.to_string())), Some(Ok(())));
    (s, g)
}

#[test]
fn new_session_has_no_connection() {
    let mut s = Session::new();
    assert_eq!(s.phase(), Phase::Uninitialized);
    assert_eq!(s.generation(), 0);
    assert_eq!(s.begin_offer(), Err(NegotiationError::NoConnection));
    assert_eq!(s.begin_answer(), Err(NegotiationError::NoConnection));
    assert!(matches!(s.begin_apply_remote(), Err(NegotiationError::NoConnection)));
    assert!(!s.accepts_external_candidate());
    assert!(!s.record_candidate(0, host_candidate(5000)));
    assert!(s.buffered_candidates().is_empty());
}

#[test]
fn initialize_starts_generation_one() {
    let (s, g) = initialized(false);
    assert_eq!(g, 1);
    assert_eq!(s.phase(), Phase::Initialized);
    assert_eq!(s.gathering_timeout_ms(), 1000);
    assert!(s.accepts_external_candidate());
    assert!(s.local_description().is_none());
}

#[test]
fn standard_config_lists_three_stun_servers() {
    let c = SessionConfig::for_mode(false, 2500);
    assert_eq!(
        c.ice_servers,
        vec![
            "stun:stun.l.google.com:19302".to_string(),
            "stun:stun1.l.google.com:19302".to_string(),
            "stun:stun2.l.google.com:19302".to_string(),
        ]
    );
    assert_eq!(c.gathering_timeout_ms, 2500);
    assert!(!c.relay_only);
    assert!(!c.trickle_fallback);
}

#[test]
fn lite_config_has_no_servers() {
    let c = SessionConfig::for_mode(true, 2500);
    assert!(c.ice_servers.is_empty());
}

#[test]
fn offer_then_answer_flushes_buffer_once() {
    let (mut s, g) = initialized(false);
    let t = s.begin_offer().unwrap();
    assert_eq!(t, Ticket { generation: g, op: Operation::Offer });
    assert_eq!(s.phase(), Phase::Offering);
    assert!(s.record_candidate(g, host_candidate(5000)));
    assert!(s.record_candidate(g, host_candidate(5001)));
    assert_eq!(s.finish_local(t, LocalOutcome::Gathered(OFFER_SDP.to_string())), Some(Ok(())));
    let local = s.local_description().unwrap();
    assert_eq!(local.role, SdpRole::Offer);
    assert!(!local.sdp.is_empty());
    assert_eq!(s.phase(), Phase::Negotiated);

    s.set_remote_text(ANSWER_SDP.to_string());
    let (rt, _desc) = s.begin_apply_remote().unwrap();
    assert_eq!(rt, Ticket { generation: g, op: Operation::Remote });
    let (ft, plan) = s.finish_remote(rt, true).unwrap().unwrap();
    assert_eq!(ft, Ticket { generation: g, op: Operation::Flush });
    assert_eq!(s.phase(), Phase::RemoteApplied);
    assert_eq!(s.remote_role(), Some(SdpRole::Answer));
    assert_eq!(plan.len(), 2);
    assert_eq!(plan[0].candidate, host_candidate(5000).candidate);
    assert_eq!(plan[1].candidate, host_candidate(5001).candidate);
    assert!(s.finish_flush(ft));
    assert_eq!(s.phase(), Phase::CandidatesFlushed);
    assert_eq!(s.in_flight(), None);
    assert!(!s.finish_flush(ft));
}

#[test]
fn lite_offer_completes_without_candidates() {
    let (mut s, g) = initialized(true);
    let t = s.begin_offer().unwrap();
    assert!(s.is_current(t));
    assert_eq!(next_gathering_wait(true, s.is_current(t), 0, s.gathering_timeout_ms(), 100), GatheringWait::Complete);
    assert_eq!(s.finish_local(t, LocalOutcome::Gathered(OFFER_SDP.to_string())), Some(Ok(())));
    assert_eq!(s.local_description().unwrap().role, SdpRole::Offer);
    assert!(s.buffered_candidates().is_empty());
    assert_eq!(s.generation(), g);
}

#[test]
fn answerer_flow_publishes_answer() {
    let (mut s, g) = initialized(false);
    s.set_remote_text(OFFER_SDP.to_string());
    assert_eq!(s.remote_request(), Ok(SdpRole::Offer));
    let (rt, _desc) = s.begin_apply_remote().unwrap();
    let (ft, plan) = s.finish_remote(rt, true).unwrap().unwrap();
    assert!(plan.is_empty());
    assert_eq!(s.remote_role(), Some(SdpRole::Offer));
    assert!(s.finish_flush(ft));
    let at = s.begin_answer().unwrap();
    assert_eq!(at, Ticket { generation: g, op: Operation::Answer });
    assert_eq!(s.phase(), Phase::Answering);
    assert_eq!(s.finish_local(at, LocalOutcome::Gathered(ANSWER_SDP.to_string())), Some(Ok(())));
    let local = s.local_description().unwrap();
    assert_eq!(local.role, SdpRole::Answer);
    assert_eq!(local.sdp, ANSWER_SDP);
    assert_eq!(s.phase(), Phase::Negotiated);
    assert_eq!(s.begin_answer(), Err(NegotiationError::OutOfOrder));
    assert!(matches!(s.begin_apply_remote(), Err(NegotiationError::OutOfOrder)));
}

#[test]
fn same_candidate_twice_is_applied_once() {
    let (mut s, g) = offered(false);
    assert!(s.record_candidate(g, host_candidate(6000)));
    assert!(!s.record_candidate(g, host_candidate(6000)));
    assert_eq!(s.buffered_candidates().len(), 1);
    s.set_remote_text(ANSWER_SDP.to_string());
    let (rt, _desc) = s.begin_apply_remote().unwrap();
    let (_ft, plan) = s.finish_remote(rt, true).unwrap().unwrap();
    assert_eq!(plan.len(), 1);
    assert!(plan[0].same_path(&host_candidate(6000)));
}

#[test]
fn candidates_differing_in_mid_are_distinct() {
    let (mut s, g) = initialized(false);
    let a = host_candidate(7000);
    let mut b = host_candidate(7000);
    b.sdp_mid = None;
    assert!(!a.same_path(&b));
    assert!(a.same_path(&a.duplicate()));
    assert!(s.record_candidate(g, a));
    assert!(s.record_candidate(g, b));
    assert_eq!(s.buffered_candidates().len(), 2);
}

#[test]
fn apply_remote_without_text_fails() {
    let (mut s, _g) = offered(false);
    assert!(matches!(s.begin_apply_remote(), Err(NegotiationError::MissingRemoteText)));
    assert_eq!(s.phase(), Phase::Negotiated);
    assert_eq!(s.in_flight(), None);
}

#[test]
fn malformed_remote_text_is_rejected() {
    let (mut s, _g) = offered(false);
    s.set_remote_text("this is not a session description".to_string());
    assert!(matches!(s.begin_apply_remote(), Err(NegotiationError::RemoteDescriptionRejected)));
    assert_eq!(s.in_flight(), None);
    assert_eq!(s.remote_wrapped(false), Err(NegotiationError::RemoteDescriptionRejected));
}

#[test]
fn engine_refusing_remote_leaves_phase() {
    let (mut s, _g) = offered(false);
    s.set_remote_text(ANSWER_SDP.to_string());
    let (rt, _desc) = s.begin_apply_remote().unwrap();
    assert_eq!(s.in_flight(), Some(Operation::Remote));
    assert!(matches!(s.finish_remote(rt, false), Some(Err(NegotiationError::RemoteDescriptionRejected))));
    assert_eq!(s.phase(), Phase::Negotiated);
    assert_eq!(s.in_flight(), None);
    assert_eq!(s.remote_role(), None);
}

#[test]
fn answering_an_answer_is_role_mismatch() {
    let (mut s, _g) = offered(false);
    s.set_remote_text(ANSWER_SDP.to_string());
    let (rt, _desc) = s.begin_apply_remote().unwrap();
    let (ft, _plan) = s.finish_remote(rt, true).unwrap().unwrap();
    assert!(s.finish_flush(ft));
    assert_eq!(s.begin_answer(), Err(NegotiationError::RoleMismatch));
}

#[test]
fn answer_before_remote_is_out_of_order() {
    let (mut s, _g) = initialized(false);
    assert_eq!(s.begin_answer(), Err(NegotiationError::OutOfOrder));
    assert_eq!(s.phase(), Phase::Initialized);
}

#[test]
fn second_offer_is_rejected_while_first_runs() {
    let (mut s, _g) = initialized(false);
    let t = s.begin_offer().unwrap();
    assert_eq!(s.begin_offer(), Err(NegotiationError::NegotiationInProgress));
    assert!(matches!(s.begin_apply_remote(), Err(NegotiationError::NegotiationInProgress)));
    assert_eq!(s.phase(), Phase::Offering);
    assert_eq!(s.finish_local(t, LocalOutcome::Gathered(OFFER_SDP.to_string())), Some(Ok(())));
    assert_eq!(s.finish_local(t, LocalOutcome::Gathered("v=0\r\n".to_string())), None);
    assert_eq!(s.local_description().unwrap().sdp, OFFER_SDP);
    assert_eq!(s.begin_offer(), Err(NegotiationError::OutOfOrder));
}

#[test]
fn reinitialize_discards_old_generation() {
    let (mut s, g1) = initialized(false);
    let t = s.begin_offer().unwrap();
    assert!(s.record_candidate(g1, host_candidate(8000)));
    let g2 = s.initialize(&SessionConfig::for_mode(false, 1000)).unwrap();
    assert_eq!(g2, g1 + 1);
    assert!(s.buffered_candidates().is_empty());
    assert!(!s.record_candidate(g1, host_candidate(8001)));
    assert!(!s.is_current(t));
    assert_eq!(s.finish_local(t, LocalOutcome::Gathered(OFFER_SDP.to_string())), None);
    assert!(s.local_description().is_none());
    assert_eq!(s.phase(), Phase::Initialized);
    assert_eq!(
        next_gathering_wait(false, s.is_current(t), 10, 1000, 100),
        GatheringWait::Cancelled
    );
    assert!(s.record_candidate(g2, host_candidate(8002)));
    assert_eq!(s.buffered_candidates().len(), 1);
}

#[test]
fn reinitialize_keeps_remote_text() {
    let (mut s, _g) = initialized(false);
    s.set_remote_text(OFFER_SDP.to_string());
    s.initialize(&SessionConfig::for_mode(true, 10)).unwrap();
    assert_eq!(s.remote_text(), OFFER_SDP);
    assert_eq!(s.gathering_timeout_ms(), 10);
}

#[test]
fn gathering_wait_decisions() {
    assert_eq!(next_gathering_wait(false, true, 0, 1000, 100), GatheringWait::Sleep(100));
    assert_eq!(next_gathering_wait(false, true, 950, 1000, 100), GatheringWait::Sleep(50));
    assert_eq!(next_gathering_wait(false, true, 0, 1000, 0), GatheringWait::Sleep(1000));
    assert_eq!(next_gathering_wait(false, true, 1000, 1000, 100), GatheringWait::TimedOut);
    assert_eq!(next_gathering_wait(false, true, 1500, 1000, 100), GatheringWait::TimedOut);
    assert_eq!(next_gathering_wait(true, true, 1500, 1000, 100), GatheringWait::Complete);
    assert_eq!(next_gathering_wait(true, false, 0, 1000, 100), GatheringWait::Cancelled);
    assert_eq!(next_gathering_wait(false, true, 0, 0, 100), GatheringWait::TimedOut);
}

#[test]
fn stalled_gathering_times_out_within_bound() {
    let bound: u64 = 1000;
    let mut elapsed: u64 = 0;
    let mut sleeps = 0;
    loop {
        match next_gathering_wait(false, true, elapsed, bound, 300) {
            GatheringWait::Sleep(d) => {
                assert!(d > 0);
                elapsed += d;
                sleeps += 1;
            }
            other => {
                assert_eq!(other, GatheringWait::TimedOut);
                break;
            }
        }
    }
    assert_eq!(elapsed, bound);
    assert_eq!(sleeps, 4);

    let (mut s, _g) = initialized(false);
    let t = s.begin_offer().unwrap();
    assert_eq!(
        s.finish_local(t, LocalOutcome::TimedOut(OFFER_SDP.to_string())),
        Some(Err(NegotiationError::GatheringTimeout))
    );
    assert_eq!(s.phase(), Phase::Initialized);
    assert!(s.local_description().is_none());
    assert!(s.begin_offer().is_ok());
}

#[test]
fn trickle_fallback_publishes_partial_offer() {
    let mut s = Session::new();
    let mut config = SessionConfig::for_mode(false, 1000);
    config.trickle_fallback = true;
    s.initialize(&config).unwrap();
    let t = s.begin_offer().unwrap();
    assert_eq!(
        s.finish_local(t, LocalOutcome::TimedOut(OFFER_SDP.to_string())),
        Some(Err(NegotiationError::GatheringTimeout))
    );
    assert_eq!(s.phase(), Phase::Negotiated);
    assert_eq!(s.local_description().unwrap().sdp, OFFER_SDP);
}

#[test]
fn offer_generation_failure_reverts() {
    let (mut s, _g) = initialized(false);
    let t = s.begin_offer().unwrap();
    assert_eq!(s.finish_local(t, LocalOutcome::GenerationFailed), Some(Err(NegotiationError::OfferGenerationFailed)));
    assert_eq!(s.phase(), Phase::Initialized);
    assert_eq!(s.in_flight(), None);
}

#[test]
fn local_rejection_and_empty_description_fail() {
    let (mut s, _g) = initialized(false);
    let t = s.begin_offer().unwrap();
    assert_eq!(s.finish_local(t, LocalOutcome::LocalRejected), Some(Err(NegotiationError::LocalDescriptionRejected)));
    let t = s.begin_offer().unwrap();
    assert_eq!(
        s.finish_local(t, LocalOutcome::Gathered(String::new())),
        Some(Err(NegotiationError::LocalDescriptionRejected))
    );
    assert_eq!(s.phase(), Phase::Initialized);
}

#[test]
fn answer_generation_failure_reverts_to_flushed() {
    let (mut s, _g) = initialized(false);
    s.set_remote_text(OFFER_SDP.to_string());
    let (rt, _desc) = s.begin_apply_remote().unwrap();
    let (ft, _plan) = s.finish_remote(rt, true).unwrap().unwrap();
    assert!(s.finish_flush(ft));
    let at = s.begin_answer().unwrap();
    assert_eq!(s.finish_local(at, LocalOutcome::GenerationFailed), Some(Err(NegotiationError::AnswerGenerationFailed)));
    assert_eq!(s.phase(), Phase::CandidatesFlushed);
    assert!(s.begin_answer().is_ok());
}

#[test]
fn wrong_ticket_kinds_are_ignored() {
    let (mut s, g) = initialized(false);
    let t = s.begin_offer().unwrap();
    assert_eq!(s.finish_remote(Ticket { generation: g, op: Operation::Remote }, true).is_none(), true);
    assert!(!s.finish_flush(Ticket { generation: g, op: Operation::Flush }));
    assert_eq!(s.finish_local(Ticket { generation: g, op: Operation::Answer }, LocalOutcome::GenerationFailed), None);
    assert!(s.is_current(t));
    assert_eq!(s.phase(), Phase::Offering);
}

#[test]
fn malformed_remote_offer_is_rejected() {
    let (mut s, _g) = initialized(false);
    s.set_remote_text("m=audio".to_string());
    assert_eq!(s.remote_request(), Ok(SdpRole::Offer));
    assert!(matches!(s.begin_apply_remote(), Err(NegotiationError::RemoteDescriptionRejected)));
    assert_eq!(s.phase(), Phase::Initialized);
    assert_eq!(s.in_flight(), None);
}

#[test]
fn wrapped_remote_is_admitted_once() {
    let (mut s, g) = initialized(false);
    assert_eq!(s.remote_wrapped(true), Err(NegotiationError::MissingRemoteText));
    s.set_remote_text(OFFER_SDP.to_string());
    assert_eq!(s.remote_wrapped(true), Ok(Ticket { generation: g, op: Operation::Remote }));
    assert_eq!(s.remote_wrapped(true), Err(NegotiationError::NegotiationInProgress));
    assert_eq!(s.in_flight(), Some(Operation::Remote));
}

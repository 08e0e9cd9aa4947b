//! Manual offer/answer negotiation between two peers: a verified state machine
//! that sequences session descriptions, buffers discovered ICE candidates and
//! bounds the wait for candidate gathering. The media engine's work (creating
//! connections, generating descriptions, gathering) happens around it: each
//! operation is admitted here, performed by the caller, and completed here.

mod config;
mod engine;
mod gathering;
mod laws;
mod session;
mod types;

pub use config::{server_views, standard_stun_servers, SessionConfig};
pub use engine::{answer_sdp_accepted, offer_sdp_accepted};
pub use gathering::{gathering_wait_spec, next_gathering_wait, GatheringWait};
pub use laws::{
    lemma_answer_to_answer_rejected, lemma_apply_remote_needs_text, lemma_gathering_wait_bounded,
    lemma_generation_isolation, lemma_record_twice_flush_once, lemma_single_flight,
    lemma_timeout_surfaces,
};
pub use session::{
    begin_answer_spec, begin_apply_remote_spec, begin_offer_spec, candidate_views,
    description_view, finish_flush_spec, finish_local_spec, finish_remote_spec, initial_session,
    initialize_spec, lemma_push_fresh_distinct, published, record_candidate_spec, remote_accepted, remote_request_spec,
    remote_result_view, remote_wrapped_spec, reverted, session_wf, set_remote_text_spec,
    ticket_pending, Session, SessionView,
};
pub use types::{
    CandidateView, DescriptionView, IceCandidate, LocalOutcome, NegotiationError, Operation, Phase,
    SdpRole, SessionDescription, Ticket,
};

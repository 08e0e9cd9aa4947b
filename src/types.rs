use vstd::prelude::*;

verus! {

/// The role a session description plays in the exchange.
#[derive(Clone, Copy, Debug, PartialEq, Eq, Structural)]
pub enum SdpRole {
    Offer,
    Answer,
}

/// Where the negotiation of the live connection stands.
#[derive(Clone, Copy, Debug, PartialEq, Eq, Structural)]
pub enum Phase {
    /// No connection exists yet.
    Uninitialized,
    /// A connection exists and nothing has been negotiated on it.
    Initialized,
    /// An offer is being generated and its candidates gathered.
    Offering,
    /// An answer is being generated and its candidates gathered.
    Answering,
    /// The local description has been published.
    Negotiated,
    /// The remote description was accepted; buffered candidates are being applied.
    RemoteApplied,
    /// The remote description was accepted and the buffer has been applied.
    CandidatesFlushed,
}

/// A phase-changing operation that suspends on the media engine.
#[derive(Clone, Copy, Debug, PartialEq, Eq, Structural)]
pub enum Operation {
    Offer,
    Answer,
    Remote,
    Flush,
}

/// Every way a negotiation step can fail.
#[derive(Clone, Copy, Debug, PartialEq, Eq, Structural)]
pub enum NegotiationError {
    NoConnection,
    ConnectionSetupFailed,
    OfferGenerationFailed,
    AnswerGenerationFailed,
    LocalDescriptionRejected,
    RemoteDescriptionRejected,
    MissingRemoteText,
    RoleMismatch,
    GatheringTimeout,
    NegotiationInProgress,
    CandidateApplyFailed,
    /// The step is not valid in the current phase (an answer before any remote
    /// offer, a second offer on a negotiated connection).
    OutOfOrder,
}

/// Proof that an operation was admitted: the connection generation it belongs
/// to and the operation. Completions carrying a ticket of a replaced
/// connection, or of an operation that is no longer pending, are discarded.
#[derive(Clone, Copy, Debug, PartialEq, Eq, Structural)]
pub struct Ticket {
    pub generation: u64,
    pub op: Operation,
}

/// How the media engine's part of an offer or answer ended.
#[derive(Clone, Debug)]
pub enum LocalOutcome {
    /// Gathering completed; the connection's local description as read back.
    Gathered(String),
    /// The engine could not generate the description.
    GenerationFailed,
    /// The engine refused the generated description as its local one.
    LocalRejected,
    /// The wait reached its bound; the local description as it stands so far.
    TimedOut(String),
}

/// One discovered network path, as the engine reports it.
#[derive(Clone, Debug)]
pub struct IceCandidate {
    pub candidate: String,
    pub sdp_mid: Option<String>,
    pub sdp_mline_index: Option<u16>,
}

pub struct CandidateView {
    pub candidate: Seq<char>,
    pub sdp_mid: Option<Seq<char>>,
    pub sdp_mline_index: Option<u16>,
}

pub open spec fn opt_string_view(o: Option<String>) -> Option<Seq<char>> {
    match o {
        Some(s) => Some(s@),
        None => None,
    }
}

impl View for IceCandidate {
    type V = CandidateView;

    open spec fn view(&self) -> CandidateView {
        CandidateView {
            candidate: self.candidate@,
            sdp_mid: opt_string_view(self.sdp_mid),
            sdp_mline_index: self.sdp_mline_index,
        }
    }
}

impl IceCandidate {
    pub fn new(candidate: String, sdp_mid: Option<String>, sdp_mline_index: Option<u16>) -> (r: Self)
        ensures
            r.candidate == candidate,
            r.sdp_mid == sdp_mid,
            r.sdp_mline_index == sdp_mline_index,
    {
        IceCandidate { candidate, sdp_mid, sdp_mline_index }
    }

    /// A copy with the same view.
    pub fn duplicate(&self) -> (r: Self)
        ensures
            r@ == self@,
    {
        let sdp_mid = match &self.sdp_mid {
            Some(m) => Some(m.clone()),
            None => None,
        };
        IceCandidate {
            candidate: self.candidate.clone(),
            sdp_mid,
            sdp_mline_index: self.sdp_mline_index,
        }
    }

    /// Whether two candidates describe the same network path.
    pub fn same_path(&self, other: &IceCandidate) -> (r: bool)
        ensures
            r == (self@ == other@),
    {
        let mid_equal = match (&self.sdp_mid, &other.sdp_mid) {
            (Some(a), Some(b)) => a.eq(b),
            (None, None) => true,
            _ => false,
        };
        let index_equal = match (self.sdp_mline_index, other.sdp_mline_index) {
            (Some(a), Some(b)) => a == b,
            (None, None) => true,
            _ => false,
        };
        self.candidate.eq(&other.candidate) && mid_equal && index_equal
    }
}

/// A session description: its role and its SDP text.
#[derive(Clone, Debug)]
pub struct SessionDescription {
    pub role: SdpRole,
    pub sdp: String,
}

pub struct DescriptionView {
    pub role: SdpRole,
    pub sdp: Seq<char>,
}

impl View for SessionDescription {
    type V = DescriptionView;

    open spec fn view(&self) -> DescriptionView {
        DescriptionView { role: self.role, sdp: self.sdp@ }
    }
}

} // verus!

use vstd::prelude::*;
use webrtc::peer_connection::sdp::session_description::RTCSessionDescription;

verus! {

#[verifier::external_type_specification]
#[verifier::external_body]
pub struct ExRTCSessionDescription(RTCSessionDescription);

#[verifier::external_type_specification]
#[verifier::external_body]
pub struct ExWebrtcError(webrtc::Error);

/// Whether `RTCSessionDescription::offer` accepts this SDP text.
pub uninterp spec fn offer_sdp_accepted(sdp: Seq<char>) -> bool;

/// Whether `RTCSessionDescription::answer` accepts this SDP text.
pub uninterp spec fn answer_sdp_accepted(sdp: Seq<char>) -> bool;

/// Relies on webrtc's `RTCSessionDescription::offer`: it tags the text as an
/// offer and parses it with the SDP parser, failing exactly when parsing fails.
/// Parsing reads nothing but the text, and malformed text gives an error, not
/// a panic.
#[verifier::external_body]
pub(crate) fn wrap_offer(sdp: String) -> (r: Result<RTCSessionDescription, webrtc::Error>)
    ensures
        r is Ok <==> offer_sdp_accepted(sdp@),
{
    RTCSessionDescription::offer(sdp)
}

/// Relies on webrtc's `RTCSessionDescription::answer`: it tags the text as an
/// answer and parses it with the SDP parser, failing exactly when parsing fails.
/// Parsing reads nothing but the text, and malformed text gives an error, not
/// a panic.
#[verifier::external_body]
pub(crate) fn wrap_answer(sdp: String) -> (r: Result<RTCSessionDescription, webrtc::Error>)
    ensures
        r is Ok <==> answer_sdp_accepted(sdp@),
{
    RTCSessionDescription::answer(sdp)
}

} // verus!

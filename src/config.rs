use vstd::prelude::*;

verus! {

/// How a connection is set up and how long its candidate gathering may last.
#[derive(Clone, Debug)]
pub struct SessionConfig {
    /// STUN/TURN server URLs handed to the engine.
    pub ice_servers: Vec<String>,
    /// Only relay candidates are gathered.
    pub relay_only: bool,
    /// Upper bound on the wait for the gathering-complete signal.
    pub gathering_timeout_ms: u64,
    /// On a gathering timeout, publish the candidates gathered so far.
    pub trickle_fallback: bool,
}

pub open spec fn standard_stun_servers() -> Seq<Seq<char>> {
    seq![
        "stun:stun.l.google.com:19302"@,
        "stun:stun1.l.google.com:19302"@,
        "stun:stun2.l.google.com:19302"@,
    ]
}

pub open spec fn server_views(v: Seq<String>) -> Seq<Seq<char>> {
    v.map_values(|s: String| s@)
}

impl SessionConfig {
    /// The configuration for full ICE with public STUN servers, or for ICE-lite,
    /// which configures no server at all.
    pub fn for_mode(ice_lite: bool, gathering_timeout_ms: u64) -> (r: Self)
        ensures
            ice_lite ==> r.ice_servers@.len() == 0,
            !ice_lite ==> server_views(r.ice_servers@) == standard_stun_servers(),
            !r.relay_only,
            r.gathering_timeout_ms == gathering_timeout_ms,
            !r.trickle_fallback,
    {
        let mut ice_servers: Vec<String> = Vec::new();
        if !ice_lite {
            ice_servers.push("stun:stun.l.google.com:19302".to_owned());
            ice_servers.push("stun:stun1.l.google.com:19302".to_owned());
            ice_servers.push("stun:stun2.l.google.com:19302".to_owned());
            assert(server_views(ice_servers@) =~= standard_stun_servers());
        }
        SessionConfig { ice_servers, relay_only: false, gathering_timeout_ms, trickle_fallback: false }
    }
}

} // verus!

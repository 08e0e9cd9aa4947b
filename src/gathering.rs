use vstd::prelude::*;

verus! {

/// What the task waiting for ICE gathering does next.
#[derive(Clone, Copy, Debug, PartialEq, Eq, Structural)]
pub enum GatheringWait {
    /// The gathering-complete signal has fired: publish the local description.
    Complete,
    /// The connection this wait belongs to was replaced: stop without publishing.
    Cancelled,
    /// The configured bound has been reached.
    TimedOut,
    /// Wait for the signal for at most this many milliseconds, then decide again.
    Sleep(u64),
}

/// The decision taken at one point of the wait, from what has been observed.
pub open spec fn gathering_wait_spec(
    fired: bool,
    current: bool,
    elapsed_ms: u64,
    bound_ms: u64,
    slice_ms: u64,
) -> GatheringWait {
    if !current {
        GatheringWait::Cancelled
    } else if fired {
        GatheringWait::Complete
    } else if elapsed_ms >= bound_ms {
        GatheringWait::TimedOut
    } else {
        let remaining = (bound_ms - elapsed_ms) as u64;
        GatheringWait::Sleep(if slice_ms == 0 || slice_ms > remaining { remaining } else { slice_ms })
    }
}

/// Decides the next step of a bounded wait for the gathering-complete signal.
///
/// `fired` tells whether the signal has been seen (it may have fired before the
/// wait began), `current` whether the connection is still the live one,
/// `elapsed_ms` how long the wait has lasted, `bound_ms` the configured upper
/// bound and `slice_ms` the longest single sleep (0 for no limit).
pub fn next_gathering_wait(
    fired: bool,
    current: bool,
    elapsed_ms: u64,
    bound_ms: u64,
    slice_ms: u64,
) -> (r: GatheringWait)
    ensures
        r == gathering_wait_spec(fired, current, elapsed_ms, bound_ms, slice_ms),
        r matches GatheringWait::Sleep(d) ==> 0 < d && elapsed_ms + d <= bound_ms,
{
    if !current {
        GatheringWait::Cancelled
    } else if fired {
        GatheringWait::Complete
    } else if elapsed_ms >= bound_ms {
        GatheringWait::TimedOut
    } else {
        let remaining = bound_ms - elapsed_ms;
        let step = if slice_ms == 0 || slice_ms > remaining { remaining } else { slice_ms };
        GatheringWait::Sleep(step)
    }
}

} // verus!

//! Port discovery: the first port of a range that a probe reports free.

use vstd::prelude::*;

verus! {

/// Scans `start..=end` in ascending order and returns the first port for
/// which `probe` answers `true`, or `None` when it answers `false` for every
/// port of the range (an empty range included).
///
/// `probe` stands for the attempt to bind a local listener on the port and
/// release it again. It is asked once per candidate, in order, and never
/// again after the first `true`; nothing is reserved by a positive answer.
pub fn find_available_port<F: Fn(u16) -> bool>(
    start: u16,
    end: u16,
    probe: F,
) -> (found: Option<u16>)
    requires
        forall|p: u16| start <= p <= end ==> call_requires(probe, (p,)),
    ensures
        match found {
            Some(port) => {
                &&& start <= port <= end
                &&& call_ensures(probe, (port,), true)
                &&& forall|q: u16| start <= q < port ==> call_ensures(probe, (q,), false)
            },
            None => forall|q: u16| start <= q <= end ==> call_ensures(probe, (q,), false),
        },
        (exists|q: u16| start <= q <= end && !call_ensures(probe, (q,), false))
            ==> found.is_some(),
{
    if start > end {
        return None;
    }
    let mut port: u16 = start;
    loop
        invariant
            start <= port <= end,
            forall|p: u16| start <= p <= end ==> call_requires(probe, (p,)),
            forall|q: u16| start <= q < port ==> call_ensures(probe, (q,), false),
        decreases end - port,
    {
        if probe(port) {
            return Some(port);
        }
        if port == end {
            return None;
        }
        port = port + 1;
    }
}

} // verus!

//! The range of host ports that instances forward, and how one is picked.

use rand::Rng;
use vstd::prelude::*;

verus! {

/// The lowest port that is handed out.
pub const PORT_MIN: u16 = 32768;

/// The first port above the range: it is never handed out.
pub const PORT_END: u16 = 60999;

/// Whether `port` lies in the range from which host ports are taken.
pub open spec fn is_ephemeral(port: u16) -> bool {
    32768 <= port < 60999
}

/// `rand::Rng::gen_range` on `rand::thread_rng()`, with the half-open range
/// `low..high`: the value it returns lies in that range. The call panics on an
/// empty range, which is why `low < high` is asked for. Which value comes back
/// is left open.
#[verifier::external_body]
fn random_in(low: u16, high: u16) -> (r: u16)
    requires
        low < high,
    ensures
        low <= r < high,
{
    rand::thread_rng().gen_range(low..high)
}

/// Picks a host port at random. Nothing keeps two calls from picking the same
/// port: the result is a suggestion, not a reservation.
pub fn allocate() -> (port: u16)
    ensures
        is_ephemeral(port),
{
    random_in(PORT_MIN, PORT_END)
}

} // verus!

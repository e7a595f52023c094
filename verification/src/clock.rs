//! The system clock, read in one place.
use vstd::prelude::*;

verus! {

/// Reads the system clock: `SystemTime::now().duration_since(UNIX_EPOCH)` as whole
/// seconds and the sub-second nanoseconds, or `None` when the clock stands before the
/// epoch. The nanoseconds are below one billion, as `Duration::subsec_nanos` documents;
/// which instant comes back depends on the moment of the call.
#[verifier::external_body]
pub(crate) fn since_unix_epoch() -> (r: Option<(u64, u32)>)
    ensures
        r matches Some((_, n)) ==> n < 1_000_000_000,
{
    match std::time::SystemTime::now().duration_since(std::time::UNIX_EPOCH) {
        Ok(d) => Some((d.as_secs(), d.subsec_nanos())),
        Err(_) => None,
    }
}

/// Seconds since the Unix epoch, 0 when the clock stands before it.
pub fn unix_now() -> u64 {
    match since_unix_epoch() {
        Some((s, _)) => s,
        None => 0,
    }
}

} // verus!

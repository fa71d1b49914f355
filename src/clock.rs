//! Wall-clock time, in milliseconds since the Unix epoch.
use vstd::prelude::*;

verus! {

/// Relies on `SystemTime::elapsed` of the Unix epoch: the current time. The
/// clock may move in either direction; a clock set before 1970 reads 0.
#[verifier::external_body]
pub(crate) fn now_millis() -> u64 {
    match std::time::UNIX_EPOCH.elapsed() {
        Ok(d) => d.as_millis() as u64,
        Err(_) => 0,
    }
}

/// Time elapsed from `earlier` to `now`; zero when the clock went back.
pub fn millis_since(earlier: u64, now: u64) -> (r: u64)
    ensures
        r == if now >= earlier { (now - earlier) as u64 } else { 0 },
{
    if now >= earlier { now - earlier } else { 0 }
}

} // verus!

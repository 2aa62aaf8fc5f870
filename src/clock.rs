use vstd::prelude::*;

verus! {

/// Relies on std's `SystemTime::now` and `duration_since(UNIX_EPOCH)`: the
/// whole seconds elapsed since the epoch, `None` where the system clock reads
/// a time before it. Nothing is promised of the value.
#[verifier::external_body]
pub(crate) fn seconds_since_epoch() -> (r: Option<u64>) {
    std::time::SystemTime::now().duration_since(std::time::UNIX_EPOCH).ok().map(|d| d.as_secs())
}

/// The current time in seconds since the epoch, a clock set before the epoch
/// reading as the epoch itself.
pub fn current_time() -> (r: u64) {
    match seconds_since_epoch() {
        Some(t) => t,
        None => 0,
    }
}

} // verus!

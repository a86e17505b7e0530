use vstd::prelude::*;

verus! {

/// What the dispatcher should do with a key after a reconcile attempt.
///
/// Every reconcile attempt, successful or not, ends in one of these
/// scheduling decisions; the dispatcher applies it to the key's timer.
#[derive(Clone, Copy, Debug, PartialEq, Eq, Structural)]
pub enum Action {
    /// Visit the key again once the given number of seconds has elapsed.
    RequeueAfter(u64),
    /// Visit the key again immediately.
    RequeueNow,
    /// Leave the key alone until the next external notification.
    NoRequeue,
}

} // verus!

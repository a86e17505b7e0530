use vstd::prelude::*;

use crate::action::Action;
use crate::errors::Error;

verus! {

/// The identity of one desired-resource instance: its namespace and name.
/// Stable for the object's lifetime; all scheduling is keyed by it.
#[derive(Clone, Debug, PartialEq, Eq, Hash)]
pub struct ReconcileKey {
    pub namespace: String,
    pub name: String,
}

/// The mathematical value of a [`ReconcileKey`].
#[verifier::ext_equal]
pub struct ReconcileKeyView {
    pub namespace: Seq<char>,
    pub name: Seq<char>,
}

impl View for ReconcileKey {
    type V = ReconcileKeyView;

    open spec fn view(&self) -> ReconcileKeyView {
        ReconcileKeyView { namespace: self.namespace@, name: self.name@ }
    }
}

/// The operations a managed resource kind supplies to the dispatcher.
///
/// `reconcile` decides, from the desired resource and what a fetch of the
/// managed child observed, the single mutating call to issue and the next
/// scheduling action; `error_policy` decides the scheduling action for a
/// failed attempt. Both are pure decisions; the surrounding program
/// performs the cluster I/O around them.
pub trait Reconciler<K> {
    /// What a reconcile attempt observes of the managed child.
    type Observed;

    /// The mutating call a reconcile attempt decides to issue.
    type Op;

    /// What the implementation promises of every reconcile decision.
    spec fn reconcile_ens(obj: K, observed: Self::Observed, r: Result<(Self::Op, Action), Error>) -> bool;

    /// One reconcile attempt: converge the observed child toward the state
    /// the desired resource calls for.
    fn reconcile(obj: &K, observed: Self::Observed) -> (r: Result<(Self::Op, Action), Error>)
        ensures
            Self::reconcile_ens(*obj, observed, r),
    ;

    /// The scheduling decision for a failed attempt, as a mathematical
    /// function: the policy is pure and deterministic in its inputs.
    spec fn error_policy_spec(obj: K, err: Error) -> Action;

    /// Decide how to reschedule a key whose reconcile attempt failed.
    fn error_policy(obj: &K, err: &Error) -> (a: Action)
        ensures
            a == Self::error_policy_spec(*obj, *err),
    ;
}

/// The dispatcher around a reconciler: it turns change notifications into
/// serialized reconcile attempts and turns every outcome, success or
/// failure, into the next scheduling decision. The per-key scheduling state
/// itself lives in [`KeyScheduler`].
pub struct ControllerRunner<K> {
    _resource_marker: core::marker::PhantomData<K>,
}

impl<K> ControllerRunner<K> {
    /// Whether a notified key leads to a reconcile attempt: only while the
    /// desired resource still exists. A deleted resource's key is dropped
    /// without a reconcile; the cluster's garbage collector removes the
    /// child through its owner reference.
    pub fn should_invoke(resolved: &Option<K>) -> (b: bool)
        ensures
            b == (resolved is Some),
    {
        match resolved {
            Some(_) => true,
            None => false,
        }
    }

    /// The dispatcher never stops on a failed attempt: every outcome
    /// becomes the next scheduling decision, a failure through the
    /// reconciler's error policy.
    pub fn next_action<R: Reconciler<K>>(obj: &K, outcome: Result<Action, Error>) -> (a: Action)
        ensures
            a == (match outcome {
                Ok(act) => act,
                Err(e) => R::error_policy_spec(*obj, e),
            }),
    {
        match outcome {
            Ok(act) => act,
            Err(e) => R::error_policy(obj, &e),
        }
    }
}

/// Where one key stands in its scheduling lifecycle.
#[derive(Clone, Copy, Debug, PartialEq, Eq, Structural)]
pub enum KeyPhase {
    /// No attempt pending: the key waits for the next notification.
    Idle,
    /// An attempt is due once the scheduled time is reached.
    Scheduled,
    /// An attempt is in flight.
    Reconciling,
}

/// The scheduling state of one key: a delay-queue entry with last-write-wins
/// ready time, level-triggered coalescing of notifications that arrive while
/// an attempt runs, and a version counter that names the newest notified
/// state.
///
/// Times are an externally supplied monotone clock in seconds; versions
/// count notifications, so that contracts can say which notified state an
/// attempt observes.
#[derive(Clone, Copy, Debug, PartialEq, Eq, Structural)]
pub struct KeyScheduler {
    pub phase: KeyPhase,
    /// When the pending attempt becomes due; meaningful while `Scheduled`.
    pub ready_at: u64,
    /// Whether a notification arrived while an attempt was in flight, so
    /// one coalesced re-visit is owed; meaningful while `Reconciling`.
    pub pending: bool,
    /// The version of the newest notified state.
    pub latest: u64,
    /// The version the most recent attempt observed when it started.
    pub observed: u64,
}

/// A fresh key: idle, nothing notified, nothing observed.
pub open spec fn spec_init() -> KeyScheduler {
    KeyScheduler {
        phase: KeyPhase::Idle,
        ready_at: 0,
        pending: false,
        latest: 0,
        observed: 0,
    }
}

/// A notification can always be taken in, as long as its version counts.
pub open spec fn notify_enabled(s: KeyScheduler) -> bool {
    s.latest < u64::MAX
}

/// A notification schedules an idle key immediately, pulls a scheduled key
/// forward to now (last write wins), and marks a running key for one
/// coalesced re-visit; it always names a newer state version.
pub open spec fn spec_notify(s: KeyScheduler, now: u64) -> KeyScheduler {
    match s.phase {
        KeyPhase::Idle => KeyScheduler {
            phase: KeyPhase::Scheduled,
            ready_at: now,
            latest: (s.latest + 1) as u64,
            ..s
        },
        KeyPhase::Scheduled => KeyScheduler { ready_at: now, latest: (s.latest + 1) as u64, ..s },
        KeyPhase::Reconciling => KeyScheduler { pending: true, latest: (s.latest + 1) as u64, ..s },
    }
}

/// An attempt may start only when one is scheduled and due, and none is in
/// flight.
pub open spec fn start_enabled(s: KeyScheduler, now: u64) -> bool {
    s.phase is Scheduled && s.ready_at <= now
}

/// A starting attempt observes the newest notified state.
pub open spec fn spec_start(s: KeyScheduler) -> KeyScheduler {
    KeyScheduler { phase: KeyPhase::Reconciling, pending: false, observed: s.latest, ..s }
}

/// An attempt can only finish while one is in flight; a requeue delay must
/// name a representable time.
pub open spec fn complete_enabled(s: KeyScheduler, now: u64, action: Action) -> bool {
    &&& s.phase is Reconciling
    &&& (action matches Action::RequeueAfter(d) ==> now + d <= u64::MAX)
}

/// A finished attempt applies its scheduling decision; a notification that
/// arrived in flight overrides it with one immediate re-visit, since only
/// the newest state matters.
pub open spec fn spec_complete(s: KeyScheduler, now: u64, action: Action) -> KeyScheduler {
    if s.pending {
        KeyScheduler { phase: KeyPhase::Scheduled, ready_at: now, pending: false, ..s }
    } else {
        match action {
            Action::RequeueAfter(d) => KeyScheduler {
                phase: KeyPhase::Scheduled,
                ready_at: (now + d) as u64,
                pending: false,
                ..s
            },
            Action::RequeueNow => KeyScheduler {
                phase: KeyPhase::Scheduled,
                ready_at: now,
                pending: false,
                ..s
            },
            Action::NoRequeue => KeyScheduler { phase: KeyPhase::Idle, pending: false, ..s },
        }
    }
}

impl KeyScheduler {
    /// The scheduling state of a key nothing has happened to yet.
    pub fn new() -> (s: Self)
        ensures
            s == spec_init(),
    {
        KeyScheduler {
            phase: KeyPhase::Idle,
            ready_at: 0,
            pending: false,
            latest: 0,
            observed: 0,
        }
    }

    /// Take in one change notification at time `now`.
    pub fn notify(&mut self, now: u64)
        requires
            notify_enabled(*old(self)),
        ensures
            *final(self) == spec_notify(*old(self), now),
    {
        self.latest = self.latest + 1;
        match self.phase {
            KeyPhase::Idle => {
                self.phase = KeyPhase::Scheduled;
                self.ready_at = now;
            },
            KeyPhase::Scheduled => {
                self.ready_at = now;
            },
            KeyPhase::Reconciling => {
                self.pending = true;
            },
        }
    }

    /// Whether an attempt for this key is due at time `now`.
    pub fn ready(&self, now: u64) -> (r: bool)
        ensures
            r == start_enabled(*self, now),
    {
        match self.phase {
            KeyPhase::Scheduled => self.ready_at <= now,
            _ => false,
        }
    }

    /// Start the due attempt; the result is the version of the notified
    /// state the attempt observes, always the newest one.
    pub fn start(&mut self, now: u64) -> (observed: u64)
        requires
            start_enabled(*old(self), now),
        ensures
            *final(self) == spec_start(*old(self)),
            observed == old(self).latest,
    {
        self.phase = KeyPhase::Reconciling;
        self.pending = false;
        self.observed = self.latest;
        self.latest
    }

    /// Finish the in-flight attempt at time `now` with its scheduling
    /// decision.
    pub fn complete(&mut self, now: u64, action: Action)
        requires
            complete_enabled(*old(self), now, action),
        ensures
            *final(self) == spec_complete(*old(self), now, action),
    {
        if self.pending {
            self.phase = KeyPhase::Scheduled;
            self.ready_at = now;
            self.pending = false;
        } else {
            match action {
                Action::RequeueAfter(d) => {
                    self.phase = KeyPhase::Scheduled;
                    self.ready_at = now + d;
                },
                Action::RequeueNow => {
                    self.phase = KeyPhase::Scheduled;
                    self.ready_at = now;
                },
                Action::NoRequeue => {
                    self.phase = KeyPhase::Idle;
                },
            }
        }
    }
}

/// One observable step in a key's scheduling lifecycle.
pub enum SchedulerEvent {
    /// A change notification arrived at this time.
    Notify(u64),
    /// A reconcile attempt started at this time.
    Start(u64),
    /// The in-flight attempt finished at this time with this decision.
    Complete(u64, Action),
}

/// Whether one event may happen in the given state.
pub open spec fn event_enabled(s: KeyScheduler, e: SchedulerEvent) -> bool {
    match e {
        SchedulerEvent::Notify(_) => notify_enabled(s),
        SchedulerEvent::Start(now) => start_enabled(s, now),
        SchedulerEvent::Complete(now, a) => complete_enabled(s, now, a),
    }
}

/// The state one event leads to.
pub open spec fn event_step(s: KeyScheduler, e: SchedulerEvent) -> KeyScheduler {
    match e {
        SchedulerEvent::Notify(now) => spec_notify(s, now),
        SchedulerEvent::Start(_) => spec_start(s),
        SchedulerEvent::Complete(now, a) => spec_complete(s, now, a),
    }
}

/// The state a sequence of events leads to.
pub open spec fn run_from(s: KeyScheduler, evs: Seq<SchedulerEvent>) -> KeyScheduler
    decreases evs.len(),
{
    if evs.len() == 0 {
        s
    } else {
        run_from(event_step(s, evs[0]), evs.drop_first())
    }
}

/// Whether each event of the sequence is enabled in the state the ones
/// before it lead to.
pub open spec fn valid_from(s: KeyScheduler, evs: Seq<SchedulerEvent>) -> bool
    decreases evs.len(),
{
    evs.len() == 0 || (event_enabled(s, evs[0]) && valid_from(event_step(s, evs[0]), evs.drop_first()))
}

/// While an attempt is in flight, no second start is enabled.
pub proof fn lemma_start_disabled_while_reconciling(s: KeyScheduler, now: u64)
    ensures
        s.phase is Reconciling ==> !start_enabled(s, now),
{
}

/// While an attempt is in flight, a start can only come after a completion:
/// in every valid event sequence from an in-flight state, a completion
/// precedes any start.
pub proof fn lemma_reconciling_blocks(s: KeyScheduler, evs: Seq<SchedulerEvent>, j: int)
    requires
        s.phase is Reconciling,
        valid_from(s, evs),
        0 <= j < evs.len(),
        evs[j] is Start,
    ensures
        exists|k: int| 0 <= k < j && (#[trigger] evs[k]) is Complete,
    decreases evs.len(),
{
    let e0 = evs[0];
    // a start is not enabled while the attempt runs
    assert(j != 0);
    if e0 is Complete {
        assert(0 <= 0 < j && evs[0] is Complete);
    } else {
        // only a notification is enabled here, and it keeps the attempt in
        // flight
        let s1 = event_step(s, e0);
        assert(s1.phase is Reconciling);
        assert(evs.drop_first()[j - 1] == evs[j]);
        lemma_reconciling_blocks(s1, evs.drop_first(), j - 1);
        let k1 = choose|k: int| 0 <= k < j - 1 && (#[trigger] evs.drop_first()[k]) is Complete;
        assert(evs[k1 + 1] == evs.drop_first()[k1]);
        assert(0 <= k1 + 1 < j && evs[k1 + 1] is Complete);
    }
}

/// Law: reconciles for one key are serialized. In every valid event
/// sequence, between any two starts there is a completion: no two attempts
/// for the key are ever in flight at once.
pub proof fn lemma_serialized(s: KeyScheduler, evs: Seq<SchedulerEvent>, i: int, j: int)
    requires
        valid_from(s, evs),
        0 <= i < j < evs.len(),
        evs[i] is Start,
        evs[j] is Start,
    ensures
        exists|k: int| i < k < j && (#[trigger] evs[k]) is Complete,
    decreases i,
{
    let s1 = event_step(s, evs[0]);
    assert(evs.drop_first()[j - 1] == evs[j]);
    if i == 0 {
        assert(s1.phase is Reconciling);
        lemma_reconciling_blocks(s1, evs.drop_first(), j - 1);
        let k1 = choose|k: int| 0 <= k < j - 1 && (#[trigger] evs.drop_first()[k]) is Complete;
        assert(evs[k1 + 1] == evs.drop_first()[k1]);
        assert(i < k1 + 1 < j && evs[k1 + 1] is Complete);
    } else {
        assert(evs.drop_first()[i - 1] == evs[i]);
        lemma_serialized(s1, evs.drop_first(), i - 1, j - 1);
        let k1 = choose|k: int| i - 1 < k < j - 1 && (#[trigger] evs.drop_first()[k]) is Complete;
        assert(evs[k1 + 1] == evs.drop_first()[k1]);
        assert(i < k1 + 1 < j && evs[k1 + 1] is Complete);
    }
}

/// Law: notifications that arrive while an attempt is in flight coalesce
/// into a single pending re-visit: a second one changes nothing but the
/// version that names the newest state. Only the latest desired state
/// matters, not how often it changed.
pub proof fn lemma_notifications_coalesce(s: KeyScheduler, t1: u64, t2: u64)
    requires
        s.phase is Reconciling,
        notify_enabled(s),
        notify_enabled(spec_notify(s, t1)),
    ensures
        ({
            let once = spec_notify(s, t1);
            let twice = spec_notify(once, t2);
            &&& twice.phase == once.phase
            &&& twice.pending == once.pending
            &&& twice.ready_at == once.ready_at
            &&& twice.observed == once.observed
        }),
{
}

/// Once an attempt has observed the newest version, it stays the newest
/// through any events that bring no notification.
pub proof fn lemma_quiet_preserves_observed(s: KeyScheduler, evs: Seq<SchedulerEvent>)
    requires
        valid_from(s, evs),
        s.observed == s.latest,
        forall|i: int| 0 <= i < evs.len() ==> !((#[trigger] evs[i]) is Notify),
    ensures
        run_from(s, evs).observed == run_from(s, evs).latest,
    decreases evs.len(),
{
    if evs.len() > 0 {
        let s1 = event_step(s, evs[0]);
        assert(s1.observed == s1.latest);
        assert forall|i: int| 0 <= i < evs.drop_first().len() implies !((#[trigger] evs.drop_first()[i]) is Notify) by {
            assert(evs.drop_first()[i] == evs[i + 1]);
        }
        lemma_quiet_preserves_observed(s1, evs.drop_first());
    }
}

/// Law: the attempt that runs last observes the latest notified state. A
/// start observes the newest notified version, and while no further
/// notification arrives, the version it observed stays the newest.
pub proof fn lemma_last_start_observes_latest(s: KeyScheduler, evs: Seq<SchedulerEvent>)
    requires
        valid_from(s, evs),
        evs.len() > 0,
        evs[0] is Start,
        forall|i: int| 1 <= i < evs.len() ==> !((#[trigger] evs[i]) is Notify),
    ensures
        run_from(s, evs).observed == run_from(s, evs).latest,
{
    let s1 = event_step(s, evs[0]);
    assert(s1.observed == s1.latest);
    assert forall|i: int| 0 <= i < evs.drop_first().len() implies !((#[trigger] evs.drop_first()[i]) is Notify) by {
        assert(evs.drop_first()[i] == evs[i + 1]);
    }
    lemma_quiet_preserves_observed(s1, evs.drop_first());
}

/// The bounded pool of reconcile workers: attempts for distinct keys may
/// run concurrently, but never more than the pool's bound at once.
#[derive(Clone, Copy, Debug, PartialEq, Eq, Structural)]
pub struct WorkerPool {
    pub limit: usize,
    pub in_flight: usize,
}

impl WorkerPool {
    /// The pool never holds more running attempts than its bound.
    pub open spec fn wf(&self) -> bool {
        self.in_flight <= self.limit
    }

    /// A pool of at most `limit` concurrent workers, none running yet.
    pub fn new(limit: usize) -> (p: Self)
        ensures
            p.wf(),
            p.limit == limit,
            p.in_flight == 0,
    {
        WorkerPool { limit, in_flight: 0 }
    }

    /// Claim a worker for one attempt; refused exactly when the bound is
    /// reached.
    pub fn try_acquire(&mut self) -> (ok: bool)
        requires
            old(self).wf(),
        ensures
            final(self).wf(),
            final(self).limit == old(self).limit,
            ok == (old(self).in_flight < old(self).limit),
            ok ==> final(self).in_flight == old(self).in_flight + 1,
            !ok ==> *final(self) == *old(self),
    {
        if self.in_flight < self.limit {
            self.in_flight = self.in_flight + 1;
            true
        } else {
            false
        }
    }

    /// Hand a worker back after its attempt finished.
    pub fn release(&mut self)
        requires
            old(self).wf(),
            old(self).in_flight > 0,
        ensures
            final(self).wf(),
            final(self).limit == old(self).limit,
            final(self).in_flight == old(self).in_flight - 1,
    {
        self.in_flight = self.in_flight - 1;
    }
}

} // verus!

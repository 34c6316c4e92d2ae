//! The switching decisions of the viewer loop, as a function from state and
//! event to next state and action.

use vstd::prelude::*;
use crate::activation::ActivationQueue;
use vstd::arithmetic::div_mod::{
    lemma_add_mod_noop_right, lemma_mod_self_0, lemma_small_mod,
};

verus! {

/// Idle time, in whole seconds, after which the viewer advances on its own.
pub const AUTO_CYCLE_SECONDS: u64 = 1800;

/// Round-robin successor of `index` among `count` cameras.
pub open spec fn next_index(index: nat, count: nat) -> nat {
    if count == 0 {
        0
    } else {
        (index + 1) % count
    }
}

/// The successor wraps to 0 after the last camera and is one more otherwise.
pub proof fn lemma_next_index(index: nat, count: nat)
    requires
        index < count,
    ensures
        next_index(index, count) == if index + 1 == count { 0 } else { index + 1 },
{
    if index + 1 == count {
        lemma_mod_self_0(count as int);
    } else {
        lemma_small_mod(index + 1, count);
    }
}

/// Whether more than `limit` seconds lie between `last` and `now`.
pub open spec fn idle_expired(last: int, now: int, limit: int) -> bool {
    now - last > limit
}

/// What the loop has to do after one decision.
#[derive(Clone, Copy, Debug, PartialEq, Eq, Structural)]
pub enum Action {
    /// Keep the current session.
    Stay,
    /// Retire the current session, then start one for camera `to`.
    Switch { to: usize },
}

/// Cycling state: camera count, current index, time of the last interaction
/// and the idle limit, all in whole seconds of a monotonic clock.
pub struct Scheduler {
    camera_count: usize,
    index: usize,
    last_interaction: u64,
    idle_limit: u64,
}

/// Why a scheduler could not be made.
#[derive(Clone, Copy, Debug, PartialEq, Eq, Structural)]
pub enum ConfigError {
    /// The camera list is empty.
    NoCameras,
}

impl Scheduler {
    pub closed spec fn count(&self) -> nat {
        self.camera_count as nat
    }

    pub closed spec fn index(&self) -> nat {
        self.index as nat
    }

    pub closed spec fn last(&self) -> int {
        self.last_interaction as int
    }

    pub closed spec fn limit(&self) -> int {
        self.idle_limit as int
    }

    /// At least one camera, and the index names one of them.
    pub closed spec fn wf(&self) -> bool {
        self.camera_count > 0 && self.index < self.camera_count
    }

    /// Whether one decision switches: an activation is pending or the idle
    /// timer has run out.
    pub open spec fn decide(&self, pending: bool, now: int) -> bool {
        pending || idle_expired(self.last(), now, self.limit())
    }

    /// `post` is the state that one decision on `pending` at `now` leads to.
    pub open spec fn stepped(&self, post: &Scheduler, pending: bool, now: int) -> bool {
        &&& post.wf()
        &&& post.count() == self.count()
        &&& post.limit() == self.limit()
        &&& if self.decide(pending, now) {
            &&& post.index() == next_index(self.index(), self.count())
            &&& post.last() == now
        } else {
            &&& post.index() == self.index()
            &&& post.last() == self.last()
        }
    }

    /// A scheduler on camera 0 whose idle timer starts at `now`; an empty
    /// camera list is refused.
    pub fn new(camera_count: usize, idle_limit: u64, now: u64) -> (r: Result<Scheduler, ConfigError>)
        ensures
            camera_count == 0 <==> r is Err,
            r is Err ==> r == Err::<Scheduler, ConfigError>(ConfigError::NoCameras),
            r matches Ok(s) ==> {
                &&& s.wf()
                &&& s.count() == camera_count
                &&& s.index() == 0
                &&& s.last() == now
                &&& s.limit() == idle_limit
            },
    {
        if camera_count == 0 {
            Err(ConfigError::NoCameras)
        } else {
            Ok(Scheduler { camera_count, index: 0, last_interaction: now, idle_limit })
        }
    }

    /// Index of the camera being shown.
    pub fn current(&self) -> (r: usize)
        ensures
            r == self.index(),
    {
        self.index
    }

    /// Number of cameras cycled through.
    pub fn camera_count(&self) -> (r: usize)
        ensures
            r == self.count(),
    {
        self.camera_count
    }

    /// Time of the last interaction or switch.
    pub fn last_interaction(&self) -> (r: u64)
        ensures
            r == self.last(),
    {
        self.last_interaction
    }

    /// Whether the idle timeout has run out at `now`.
    pub fn timed_out(&self, now: u64) -> (r: bool)
        ensures
            r == idle_expired(self.last(), now as int, self.limit()),
    {
        now > self.last_interaction && now - self.last_interaction > self.idle_limit
    }

    /// One decision of the loop: a pending activation or an expired idle
    /// timer switches to the next camera and restarts the timer at `now`.
    pub fn tick(&mut self, activation_pending: bool, now: u64) -> (r: Action)
        requires
            old(self).wf(),
        ensures
            old(self).stepped(final(self), activation_pending, now as int),
            r == if old(self).decide(activation_pending, now as int) {
                Action::Switch { to: final(self).index() as usize }
            } else {
                Action::Stay
            },
    {
        let mut switch = false;
        if activation_pending {
            switch = true;
            self.last_interaction = now;
        }
        if self.timed_out(now) {
            switch = true;
            self.last_interaction = now;
        }
        if switch {
            proof {
                lemma_next_index(self.index as nat, self.camera_count as nat);
            }
            self.index = if self.index + 1 == self.camera_count { 0 } else { self.index + 1 };
            Action::Switch { to: self.index }
        } else {
            Action::Stay
        }
    }

    /// One iteration's decision: drains the activation queue, so that any
    /// number of waiting tokens counts as a single activation, then ticks.
    pub fn poll(&mut self, queue: &mut ActivationQueue, now: u64) -> (r: Action)
        requires
            old(self).wf(),
        ensures
            old(self).stepped(final(self), old(queue).pending() > 0, now as int),
            final(queue).pending() == 0,
            r == if old(self).decide(old(queue).pending() > 0, now as int) {
                Action::Switch { to: final(self).index() as usize }
            } else {
                Action::Stay
            },
    {
        let pending = queue.drain();
        self.tick(pending, now)
    }
}

/// Index shown after `k` switches from camera 0.
pub open spec fn visit(count: nat, k: nat) -> nat
    decreases k,
{
    if k == 0 {
        0
    } else {
        next_index(visit(count, (k - 1) as nat), count)
    }
}

/// Switching, for whatever reason, visits the cameras in round-robin order:
/// after `k` switches from camera 0 the index is `k mod count`.
pub proof fn lemma_round_robin(count: nat, k: nat)
    requires
        count >= 1,
    ensures
        visit(count, k) == k % count,
    decreases k,
{
    if k == 0 {
        lemma_small_mod(0, count);
    } else {
        lemma_round_robin(count, (k - 1) as nat);
        lemma_add_mod_noop_right(1, (k - 1) as int, count as int);
    }
}

/// Along a run of switching decisions from camera 0, the state after `k` of
/// them shows camera `visit(count, k)`.
proof fn lemma_run_visits(states: Seq<Scheduler>, pending: Seq<bool>, times: Seq<int>, k: int)
    requires
        states.len() == pending.len() + 1,
        times.len() == pending.len(),
        states[0].wf(),
        states[0].index() == 0,
        forall|j: int|
            0 <= j < pending.len() ==> #[trigger] states[j].stepped(&states[j + 1], pending[j], times[j])
                && states[j].decide(pending[j], times[j]),
        0 <= k < states.len(),
    ensures
        states[k].wf(),
        states[k].count() == states[0].count(),
        states[k].index() == visit(states[0].count(), k as nat),
    decreases k,
{
    if k > 0 {
        let j = k - 1;
        lemma_run_visits(states, pending, times, j);
        assert(states[j].stepped(&states[j + 1], pending[j], times[j]));
    }
}

/// Consecutive switches visit the cameras in strict round-robin order,
/// whether each was asked for by a touch or by the idle timeout: starting on
/// camera 0, the state after `k` switches shows camera `k mod count`.
pub proof fn lemma_switches_round_robin(states: Seq<Scheduler>, pending: Seq<bool>, times: Seq<int>)
    requires
        states.len() == pending.len() + 1,
        times.len() == pending.len(),
        states[0].wf(),
        states[0].index() == 0,
        forall|j: int|
            0 <= j < pending.len() ==> #[trigger] states[j].stepped(&states[j + 1], pending[j], times[j])
                && states[j].decide(pending[j], times[j]),
    ensures
        forall|k: int| 0 <= k < states.len() ==> #[trigger] states[k].index() == k % (states[0].count() as int),
{
    assert forall|k: int| 0 <= k < states.len() implies #[trigger] states[k].index() == k % (
    states[0].count() as int) by {
        lemma_run_visits(states, pending, times, k);
        lemma_round_robin(states[0].count(), k as nat);
    }
}

/// However many tokens were waiting when the queue was drained (one, five or
/// a hundred), the decision is the one a single token gives: exactly one
/// switch, to the next camera, with the timer restarted.
pub proof fn lemma_tokens_debounced(s: Scheduler, post: Scheduler, tokens: nat, now: int)
    requires
        s.wf(),
        tokens >= 1,
        s.stepped(&post, tokens > 0, now),
    ensures
        s.decide(tokens > 0, now),
        s.stepped(&post, true, now),
        post.index() == next_index(s.index(), s.count()),
        post.last() == now,
{
}

/// A decision that switches leaves a scheduler whose idle timer has not run
/// out at that moment.
pub proof fn lemma_switch_resets_timer(before: Scheduler, after: Scheduler, pending: bool, now: int)
    requires
        before.wf(),
        before.stepped(&after, pending, now),
        before.decide(pending, now),
    ensures
        !idle_expired(after.last(), now, after.limit()),
        !after.decide(false, now),
{
}

/// Without an activation a decision switches exactly when more than the
/// limit has passed since the last interaction; at exactly the limit it
/// does not.
pub proof fn lemma_timeout_boundary(s: Scheduler, now: int)
    requires
        s.wf(),
    ensures
        s.decide(false, now) <==> now - s.last() > s.limit(),
        !s.decide(false, s.last() + s.limit()),
        s.decide(false, s.last() + s.limit() + 1),
{
}

} // verus!

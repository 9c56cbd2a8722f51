//! The decision core of the timer-based suspension primitive.
//!
//! Time is read by the caller, as a count of nanoseconds since an epoch of its
//! choosing, and handed in; the background timer is started by the caller too,
//! when `poll` asks for it.
use vstd::prelude::*;
use crate::executor::PollError;

verus! {

/// Where a delay stands.
#[derive(PartialEq, Eq, Structural, Clone, Copy, Debug)]
pub enum DelayPhase {
    /// Created, never polled: no timer runs yet.
    Unarmed,
    /// Polled at least once: its timer runs and will invoke the wake handle.
    Armed,
    /// The deadline has passed and the delay has reported completion.
    Ready,
}

/// A suspension that ends once a deadline has passed.
#[derive(PartialEq, Eq, Structural, Clone, Copy, Debug)]
pub struct Delay {
    /// The deadline.
    pub when: u64,
    pub phase: DelayPhase,
}

/// What one poll of a delay asks of its caller and reports.
#[derive(PartialEq, Eq, Structural, Clone, Copy, Debug)]
pub struct DelayPoll {
    /// Start the one background timer, which sleeps until the deadline and
    /// then invokes the stored wake handle.
    pub arm_timer: bool,
    /// The delay has completed.
    pub ready: bool,
}

/// The phase of delay `d` after a poll at time `now`.
pub open spec fn phase_after_poll(d: Delay, now: u64) -> DelayPhase {
    if now >= d.when {
        DelayPhase::Ready
    } else {
        DelayPhase::Armed
    }
}

/// What a poll of delay `d` at time `now` reports, when it is allowed.
pub open spec fn poll_report(d: Delay, now: u64) -> DelayPoll {
    DelayPoll { arm_timer: d.phase == DelayPhase::Unarmed, ready: now >= d.when }
}

impl Delay {
    /// A delay of `dur` nanoseconds that starts at `now`.
    pub fn new(now: u64, dur: u64) -> (d: Delay)
        requires
            now + dur <= u64::MAX,
        ensures
            d.when == now + dur,
            d.phase == DelayPhase::Unarmed,
    {
        Delay { when: now + dur, phase: DelayPhase::Unarmed }
    }

    /// Polls the delay at time `now`. The first poll asks for the timer to be
    /// started; then, on every poll, the delay completes if the deadline has
    /// passed. This order lets a delay whose deadline is already past complete
    /// on its first poll. Polling a completed delay is refused and changes
    /// nothing.
    pub fn poll(&mut self, now: u64) -> (r: Result<DelayPoll, PollError>)
        ensures
            old(self).phase == DelayPhase::Ready ==> r == Err::<DelayPoll, PollError>(
                PollError::AlreadyCompleted,
            ) && *final(self) == *old(self),
            old(self).phase != DelayPhase::Ready ==> r == Ok::<DelayPoll, PollError>(
                poll_report(*old(self), now),
            ) && final(self).phase == phase_after_poll(*old(self), now),
            final(self).when == old(self).when,
    {
        if self.phase == DelayPhase::Ready {
            return Err(PollError::AlreadyCompleted);
        }
        let arm_timer = self.phase == DelayPhase::Unarmed;
        self.phase = DelayPhase::Armed;
        let ready = now >= self.when;
        if ready {
            self.phase = DelayPhase::Ready;
        }
        Ok(DelayPoll { arm_timer, ready })
    }

    /// Whether the delay has completed.
    pub fn is_ready(&self) -> (r: bool)
        ensures
            r == (self.phase == DelayPhase::Ready),
    {
        self.phase == DelayPhase::Ready
    }
}

/// A delay of `dur` started at `start` never completes before `dur` has
/// elapsed: whatever its phase, a poll that reports completion came at
/// `start + dur` or later.
pub proof fn lemma_delay_lower_bound(start: u64, dur: u64, phase: DelayPhase, now: u64)
    requires
        start + dur <= u64::MAX,
        phase != DelayPhase::Ready,
    ensures
        poll_report(Delay { when: (start + dur) as u64, phase }, now).ready ==> now - start >= dur,
{
}

/// A delay asks for its timer once: after any poll that did not complete
/// it, the next poll does not ask again.
pub proof fn lemma_timer_armed_once(d: Delay, first: u64, second: u64)
    requires
        d.phase != DelayPhase::Ready,
        phase_after_poll(d, first) != DelayPhase::Ready,
    ensures
        !poll_report(Delay { phase: phase_after_poll(d, first), ..d }, second).arm_timer,
{
}

/// Two delays awaited one after the other: the second starts no earlier than
/// the first completed, so the second completes no earlier than the sum of
/// both durations after the first started.
pub proof fn lemma_sequential_delays(
    start: u64,
    first: u64,
    done: u64,
    second_start: u64,
    second: u64,
    now: u64,
)
    requires
        start + first <= u64::MAX,
        second_start + second <= u64::MAX,
        poll_report(Delay { when: (start + first) as u64, phase: DelayPhase::Armed }, done).ready,
        done <= second_start,
        poll_report(
            Delay { when: (second_start + second) as u64, phase: DelayPhase::Armed },
            now,
        ).ready,
    ensures
        now - start >= first + second,
{
}

} // verus!

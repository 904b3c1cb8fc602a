//! Suppression of input events that arrive faster than a minimum interval.

use vstd::prelude::*;

verus! {

/// Drops events that arrive too close to the last accepted one.
///
/// Time is represented as plain milliseconds on whatever monotonic clock the
/// caller uses; every query carries the current time, so the filter itself is
/// a pure state machine.
pub struct Debouncer {
    /// Time of the last accepted event, if one was accepted yet.
    last_call: Option<u64>,
    /// Minimum time that must elapse between two accepted events.
    delay: u64,
}

impl Debouncer {
    /// Time of the last accepted event, if any.
    pub closed spec fn last(self) -> Option<u64> {
        self.last_call
    }

    /// The configured minimum interval.
    pub closed spec fn interval(self) -> u64 {
        self.delay
    }

    /// An event at time `now` is accepted exactly when no event was accepted
    /// yet, or more than the interval has elapsed since the last accepted one.
    pub open spec fn accepts(self, now: u64) -> bool {
        match self.last() {
            Option::None => true,
            Option::Some(t) => now - t > self.interval(),
        }
    }

    /// A fresh filter accepts the first event whenever it arrives.
    pub fn new(delay: u64) -> (r: Debouncer)
        ensures
            r.last() is None,
            r.interval() == delay,
    {
        Debouncer { last_call: None, delay }
    }

    /// Decides whether an event arriving at time `now` passes the filter.
    /// Accepting records `now` as the last accepted time; a rejected event
    /// leaves the state unchanged (it is dropped, not queued).
    pub fn should_call(&mut self, now: u64) -> (r: bool)
        ensures
            r == old(self).accepts(now),
            r ==> final(self).last() == Some(now),
            !r ==> final(self).last() == old(self).last(),
            final(self).interval() == old(self).interval(),
    {
        let accept = match self.last_call {
            None => true,
            Some(t) => now > t && now - t > self.delay,
        };
        if accept {
            self.last_call = Some(now);
        }
        accept
    }
}

/// Law: after an event is accepted at `t1`, a second event closer to `t1`
/// than the interval is rejected, while one strictly later than the interval
/// after `t1` is accepted.
pub proof fn lemma_debounce(d: Debouncer, t1: u64, t2: u64, t3: u64)
    requires
        d.last() == Some(t1),
        t2 - t1 <= d.interval(),
        t3 - t1 > d.interval(),
    ensures
        !d.accepts(t2),
        d.accepts(t3),
{
}

} // verus!

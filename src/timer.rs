use vstd::prelude::*;

verus! {

/// What a repeating countdown holds, in nanoseconds.
pub struct TimerView {
    pub elapsed: nat,
    pub duration: nat,
    pub just_finished: bool,
}

/// A repeating timer measured in nanoseconds.
///
/// `tick` adds the time that passed; once the elapsed time reaches the duration the
/// timer wraps around (keeping the remainder) and reports `just_finished` for that tick.
/// Several periods passing in one tick still count as a single expiry.
pub struct Timer {
    elapsed: u64,
    duration: u64,
    just_finished: bool,
}

impl View for Timer {
    type V = TimerView;

    closed spec fn view(&self) -> TimerView {
        TimerView {
            elapsed: self.elapsed as nat,
            duration: self.duration as nat,
            just_finished: self.just_finished,
        }
    }
}

impl TimerView {
    /// A timer is usable when its period is positive and it has not yet run out.
    pub open spec fn wf(self) -> bool {
        &&& 0 < self.duration
        &&& self.elapsed < self.duration
        &&& self.duration <= u64::MAX
    }

    /// The timer after `delta` nanoseconds have passed.
    pub open spec fn ticked(self, delta: nat) -> TimerView {
        if self.elapsed + delta >= self.duration {
            TimerView {
                elapsed: (self.elapsed + delta) % self.duration,
                duration: self.duration,
                just_finished: true,
            }
        } else {
            TimerView { elapsed: self.elapsed + delta, duration: self.duration, just_finished: false }
        }
    }

    /// The timer started over from zero, with the given period.
    pub open spec fn restarted(duration: nat) -> TimerView {
        TimerView { elapsed: 0, duration, just_finished: false }
    }
}

impl Timer {
    /// A fresh timer with the given period.
    pub fn from_nanos(duration: u64) -> (t: Timer)
        requires
            0 < duration,
        ensures
            t@ == TimerView::restarted(duration as nat),
            t@.wf(),
    {
        Timer { elapsed: 0, duration, just_finished: false }
    }

    pub fn elapsed(&self) -> (r: u64)
        ensures
            r == self@.elapsed,
    {
        self.elapsed
    }

    pub fn duration(&self) -> (r: u64)
        ensures
            r == self@.duration,
    {
        self.duration
    }

    /// Whether the last `tick` made the timer run out.
    pub fn just_finished(&self) -> (r: bool)
        ensures
            r == self@.just_finished,
    {
        self.just_finished
    }

    /// Whether the timer is usable: a positive period, not yet run out.
    pub fn is_wf(&self) -> (r: bool)
        ensures
            r == self@.wf(),
    {
        0 < self.duration && self.elapsed < self.duration
    }

    /// Lets `delta` nanoseconds pass.
    pub fn tick(&mut self, delta: u64)
        requires
            old(self)@.wf(),
        ensures
            final(self)@ == old(self)@.ticked(delta as nat),
            final(self)@.wf(),
    {
        let left = self.duration - self.elapsed;
        if delta >= left {
            let over = delta - left;
            proof {
                let e = self.elapsed as int;
                let d = delta as int;
                let p = self.duration as int;
                assert(e + d == over as int + p);
                vstd::arithmetic::div_mod::lemma_mod_add_multiples_vanish(over as int, p);
                vstd::arithmetic::div_mod::lemma_mod_bound(over as int, p);
            }
            self.elapsed = over % self.duration;
            self.just_finished = true;
        } else {
            self.elapsed = self.elapsed + delta;
            self.just_finished = false;
        }
    }

    /// Starts the timer over from zero.
    pub fn reset(&mut self)
        ensures
            final(self)@ == TimerView::restarted(old(self)@.duration),
    {
        self.elapsed = 0;
        self.just_finished = false;
    }

    /// Changes the period, keeping the time already elapsed.
    pub fn set_duration(&mut self, duration: u64)
        ensures
            final(self)@ == (TimerView { duration: duration as nat, ..old(self)@ }),
    {
        self.duration = duration;
    }
}

} // verus!

//! The countdown clock.
//!
//! The clock never ticks by itself. It records when the current run segment
//! began and how much time the earlier segments counted, and works out the
//! time that remains from the instant it is asked at. How often it is asked
//! therefore has no bearing on what it answers.

use crate::units::NANOS_PER_MILLI;
use crate::wall_clock::Timestamp;
use vstd::prelude::*;

verus! {

/// The mathematical state of a countdown clock. Durations are in
/// milliseconds, instants in nanoseconds since the Unix epoch.
pub struct ClockState {
    /// How long the match runs for.
    pub duration: nat,
    /// Time counted by the run segments that have ended.
    pub accumulated: nat,
    /// When the latest run segment began, if the clock was ever started.
    pub segment_start: Option<nat>,
    /// Whether the clock is counting down.
    pub running: bool,
}

/// The largest count of milliseconds that the clock can hold.
pub open spec fn max_millis() -> nat {
    usize::MAX as nat
}

/// `millis`, held at the largest count that the clock can hold.
pub open spec fn capped(millis: nat) -> nat {
    if millis > max_millis() {
        max_millis()
    } else {
        millis
    }
}

/// Whole milliseconds from `start` to `now`; zero when `now` is the earlier
/// of the two, as after the system clock was set back.
pub open spec fn segment_millis(start: nat, now: nat) -> nat {
    if now >= start {
        ((now - start) / (NANOS_PER_MILLI as int)) as nat
    } else {
        0
    }
}

impl ClockState {
    /// A clock for a match of `duration` milliseconds that was never started.
    pub open spec fn fresh(duration: nat) -> ClockState {
        ClockState { duration, accumulated: 0, segment_start: None, running: false }
    }

    /// A running clock has a segment to measure, a clock that was never
    /// started has counted nothing, and both durations fit the machine.
    pub open spec fn wf(self) -> bool {
        &&& self.running ==> self.segment_start is Some
        &&& self.segment_start is None ==> self.accumulated == 0
        &&& self.duration <= max_millis()
        &&& self.accumulated <= max_millis()
    }

    /// Whether the clock was ever started.
    pub open spec fn has_started(self) -> bool {
        self.segment_start is Some
    }

    /// What the segment in progress has counted by `now`; zero while stopped.
    pub open spec fn current_segment(self, now: nat) -> nat {
        match self.segment_start {
            Some(start) if self.running => segment_millis(start, now),
            _ => 0,
        }
    }

    /// Time counted by `now`: the ended segments and the one in progress.
    pub open spec fn elapsed(self, now: nat) -> nat {
        self.accumulated + self.current_segment(now)
    }

    /// Time left once the segment in progress has counted `segment`
    /// milliseconds, floored at zero.
    pub open spec fn remaining_after(self, segment: nat) -> nat {
        if self.accumulated + segment >= self.duration {
            0
        } else {
            (self.duration - (self.accumulated + segment)) as nat
        }
    }

    /// Time left at `now`, floored at zero.
    pub open spec fn remaining(self, now: nat) -> nat {
        self.remaining_after(self.current_segment(now))
    }

    /// The clock after a start at `now`: unchanged if it runs already.
    pub open spec fn started(self, now: nat) -> ClockState {
        if self.running {
            self
        } else {
            ClockState { segment_start: Some(now), running: true, ..self }
        }
    }

    /// The clock after a stop at `now`: unchanged if it is stopped already,
    /// else the segment in progress is added to the accumulated time.
    pub open spec fn stopped(self, now: nat) -> ClockState {
        if !self.running {
            self
        } else {
            ClockState { accumulated: capped(self.elapsed(now)), running: false, ..self }
        }
    }

    /// The clock after a toggle at `now`: stopped if it ran, started if not.
    pub open spec fn toggled(self, now: nat) -> ClockState {
        if self.running {
            self.stopped(now)
        } else {
            self.started(now)
        }
    }

    /// The clock with its duration replaced.
    pub open spec fn with_duration(self, duration: nat) -> ClockState {
        ClockState { duration, ..self }
    }
}

/// The countdown clock of one match.
#[derive(Debug)]
pub struct MatchTime {
    duration_millis: usize,
    last_started: Option<Timestamp>,
    time_elapsed_millis: usize,
    running: bool,
}

impl View for MatchTime {
    type V = ClockState;

    closed spec fn view(&self) -> ClockState {
        ClockState {
            duration: self.duration_millis as nat,
            accumulated: self.time_elapsed_millis as nat,
            segment_start: match self.last_started {
                Some(start) => Some(start@),
                None => None,
            },
            running: self.running,
        }
    }
}

/// Whole milliseconds from `start` to `now`, held at the largest count that
/// fits.
fn millis_between(start: Timestamp, now: Timestamp) -> (millis: usize)
    ensures
        millis == capped(segment_millis(start@, now@)),
{
    if now.nanos >= start.nanos {
        let whole: u128 = (now.nanos - start.nanos) / NANOS_PER_MILLI;
        if whole > usize::MAX as u128 {
            usize::MAX
        } else {
            whole as usize
        }
    } else {
        0
    }
}

impl MatchTime {
    #[verifier::type_invariant]
    spec fn well_formed(self) -> bool {
        self@.wf()
    }

    /// A stopped clock for a match of `duration_millis` milliseconds that
    /// was never started.
    pub fn new(duration_millis: usize) -> (clock: MatchTime)
        ensures
            clock@ == ClockState::fresh(duration_millis as nat),
            clock@.wf(),
    {
        MatchTime { duration_millis, last_started: None, time_elapsed_millis: 0, running: false }
    }

    /// What the segment in progress has counted by `now`.
    fn current_segment_at(&self, now: Timestamp) -> (millis: usize)
        ensures
            millis == capped(self@.current_segment(now@)),
    {
        match self.last_started {
            Some(start) => {
                if self.running {
                    millis_between(start, now)
                } else {
                    0
                }
            },
            None => 0,
        }
    }

    /// Time left at `now`, in milliseconds.
    pub fn remaining_time_milliseconds_at(&self, now: Timestamp) -> (remaining: usize)
        ensures
            remaining == self@.remaining(now@),
            self@.wf(),
    {
        proof {
            use_type_invariant(self);
        }
        let segment: usize = self.current_segment_at(now);
        let elapsed: usize = self.time_elapsed_millis.saturating_add(segment);
        self.duration_millis.saturating_sub(elapsed)
    }

    /// Starts the clock at `now`; does nothing if it runs already.
    pub fn start_at(&mut self, now: Timestamp)
        ensures
            final(self)@ == old(self)@.started(now@),
            final(self)@.wf(),
    {
        proof {
            use_type_invariant(&*self);
        }
        if self.running {
            return ;
        }
        self.last_started = Some(now);
        self.running = true;
    }

    /// Stops the clock at `now`; does nothing if it is stopped already.
    pub fn stop_at(&mut self, now: Timestamp)
        ensures
            final(self)@ == old(self)@.stopped(now@),
            final(self)@.wf(),
    {
        proof {
            use_type_invariant(&*self);
        }
        if !self.running {
            return ;
        }
        let segment: usize = self.current_segment_at(now);
        self.running = false;
        self.time_elapsed_millis = self.time_elapsed_millis.saturating_add(segment);
    }

    /// Time left by the system clock, in milliseconds. While the clock is
    /// stopped the answer does not depend on the reading.
    pub fn get_remaining_time_milliseconds(&self) -> (remaining: usize)
        ensures
            exists|now: nat| remaining == #[trigger] self@.remaining(now),
            !self@.running ==> remaining == self@.remaining_after(0),
            remaining <= self@.remaining_after(0),
            self@.wf(),
    {
        self.remaining_time_milliseconds_at(Timestamp::now())
    }

    /// Starts the clock by the system clock; does nothing if it runs
    /// already.
    pub fn start(&mut self)
        ensures
            exists|now: nat| final(self)@ == #[trigger] old(self)@.started(now),
            old(self)@.running ==> final(self)@ == old(self)@,
            final(self)@.running,
            final(self)@.wf(),
    {
        self.start_at(Timestamp::now());
    }

    /// Stops the clock by the system clock; does nothing if it is stopped
    /// already.
    pub fn stop(&mut self)
        ensures
            exists|now: nat| final(self)@ == #[trigger] old(self)@.stopped(now),
            !old(self)@.running ==> final(self)@ == old(self)@,
            !final(self)@.running,
            final(self)@.wf(),
    {
        self.stop_at(Timestamp::now());
    }

    /// Toggles the clock by the system clock: stops it if it runs, starts
    /// it if not.
    pub fn toggle_start_stop(&mut self)
        ensures
            exists|now: nat| final(self)@ == #[trigger] old(self)@.toggled(now),
            final(self)@.running == !old(self)@.running,
            final(self)@.wf(),
    {
        self.toggle_start_stop_at(Timestamp::now());
    }

    /// Replaces the match duration and leaves the counted time alone.
    pub fn set_duration_millis(&mut self, duration_millis: usize)
        ensures
            final(self)@ == old(self)@.with_duration(duration_millis as nat),
            final(self)@.wf(),
    {
        proof {
            use_type_invariant(&*self);
        }
        self.duration_millis = duration_millis;
    }

    /// The match duration in milliseconds.
    pub fn duration_millis(&self) -> (millis: usize)
        ensures
            millis == self@.duration,
    {
        self.duration_millis
    }

    /// Milliseconds counted by the run segments that have ended.
    pub fn elapsed_millis(&self) -> (millis: usize)
        ensures
            millis == self@.accumulated,
    {
        self.time_elapsed_millis
    }

    /// Whether the clock is counting down.
    pub fn is_running(&self) -> (running: bool)
        ensures
            running == self@.running,
    {
        self.running
    }

    /// Whether the clock was ever started.
    pub fn has_started(&self) -> (started: bool)
        ensures
            started == self@.has_started(),
    {
        self.last_started.is_some()
    }

    /// Stops the clock at `now` if it runs, starts it if not.
    pub fn toggle_start_stop_at(&mut self, now: Timestamp)
        ensures
            final(self)@ == old(self)@.toggled(now@),
            final(self)@.wf(),
    {
        proof {
            use_type_invariant(&*self);
        }
        if self.running {
            self.stop_at(now);
        } else {
            self.start_at(now);
        }
    }
}

impl Default for MatchTime {
    /// A stopped clock of zero duration that was never started.
    fn default() -> (clock: MatchTime)
        ensures
            clock@ == ClockState::fresh(0),
            clock@.wf(),
    {
        MatchTime::new(0)
    }
}

} // verus!

//! What holds of the countdown clock across calls.

use crate::clock::{capped, max_millis, segment_millis, ClockState};
use crate::units::NANOS_PER_MILLI;
use vstd::prelude::*;

verus! {

/// One command to the clock.
pub enum ClockCommand {
    Start,
    Stop,
    Toggle,
}

impl ClockState {
    /// The clock after `command` at `now`.
    pub open spec fn after(self, command: ClockCommand, now: nat) -> ClockState {
        match command {
            ClockCommand::Start => self.started(now),
            ClockCommand::Stop => self.stopped(now),
            ClockCommand::Toggle => self.toggled(now),
        }
    }

    /// The clock after every command of `commands` in turn, each paired
    /// with the instant it was given at.
    pub open spec fn after_all(self, commands: Seq<(ClockCommand, nat)>) -> ClockState
        decreases commands.len(),
    {
        if commands.len() == 0 {
            self
        } else {
            self.after_all(commands.drop_last()).after(commands.last().0, commands.last().1)
        }
    }

    /// The clock after `starts.len()` run segments of `length` milliseconds
    /// each, the i-th of them begun at `starts[i]`.
    pub open spec fn after_segments(self, starts: Seq<nat>, length: nat) -> ClockState
        decreases starts.len(),
    {
        if starts.len() == 0 {
            self
        } else {
            self.after_segments(starts.drop_last(), length).started(starts.last()).stopped(
                millis_after(starts.last(), length),
            )
        }
    }
}

/// The instant `length` milliseconds after `start`.
pub open spec fn millis_after(start: nat, length: nat) -> nat {
    (start + length * NANOS_PER_MILLI) as nat
}

/// Whether the instants of `commands` never go back, starting from `from`.
pub open spec fn in_time_order(from: nat, commands: Seq<(ClockCommand, nat)>) -> bool {
    &&& forall|i: int| 0 <= i < commands.len() ==> from <= (#[trigger] commands[i]).1
    &&& forall|i: int, j: int|
        0 <= i <= j < commands.len() ==> (#[trigger] commands[i]).1 <= (#[trigger] commands[j]).1
}

/// Every command leaves a well-formed clock well formed.
pub proof fn lemma_commands_keep_wf(s: ClockState, command: ClockCommand, now: nat)
    requires
        s.wf(),
    ensures
        s.after(command, now).wf(),
{
}

/// As time advances the remaining time never grows: it falls while the
/// clock runs.
pub proof fn lemma_remaining_never_grows(s: ClockState, earlier: nat, later: nat)
    requires
        earlier <= later,
    ensures
        s.remaining(later) <= s.remaining(earlier),
{
}

/// While the clock is stopped the remaining time is the same at every
/// instant.
pub proof fn lemma_remaining_constant_while_stopped(s: ClockState, one: nat, other: nat)
    requires
        !s.running,
    ensures
        s.remaining(one) == s.remaining(other),
        s.remaining(one) == s.remaining_after(0),
{
}

/// A command changes nothing about the time that remains at the instant
/// it is given.
pub proof fn lemma_command_keeps_remaining(s: ClockState, command: ClockCommand, now: nat)
    requires
        s.wf(),
    ensures
        s.after(command, now).remaining(now) == s.remaining(now),
{
}

/// Through any sequence of starts, stops and toggles given at instants
/// that never go back, the remaining time never grows.
pub proof fn lemma_remaining_never_grows_through_commands(
    s: ClockState,
    from: nat,
    commands: Seq<(ClockCommand, nat)>,
    until: nat,
)
    requires
        s.wf(),
        in_time_order(from, commands),
        from <= until,
        forall|i: int| 0 <= i < commands.len() ==> (#[trigger] commands[i]).1 <= until,
    ensures
        s.after_all(commands).wf(),
        s.after_all(commands).remaining(until) <= s.remaining(from),
    decreases commands.len(),
{
    if commands.len() > 0 {
        let earlier = commands.drop_last();
        let (command, at) = commands.last();
        assert(commands[commands.len() - 1].1 <= until);
        assert(from <= commands[commands.len() - 1].1);
        assert(in_time_order(from, earlier)) by {
            assert forall|i: int| 0 <= i < earlier.len() implies from <= (#[trigger] earlier[i]).1 by {
                assert(earlier[i] == commands[i]);
            }
            assert forall|i: int, j: int| 0 <= i <= j < earlier.len() implies (#[trigger] earlier[i]).1
                <= (#[trigger] earlier[j]).1 by {
                assert(earlier[i] == commands[i]);
                assert(earlier[j] == commands[j]);
            }
        }
        assert forall|i: int| 0 <= i < earlier.len() implies (#[trigger] earlier[i]).1 <= at by {
            assert(earlier[i] == commands[i]);
        }
        lemma_remaining_never_grows_through_commands(s, from, earlier, at);
        let before = s.after_all(earlier);
        lemma_commands_keep_wf(before, command, at);
        lemma_command_keeps_remaining(before, command, at);
        lemma_remaining_never_grows(before.after(command, at), at, until);
    }
}

/// A second start in a row changes nothing, whenever it comes.
pub proof fn lemma_start_is_idempotent(s: ClockState, first: nat, second: nat)
    ensures
        s.started(first).started(second) == s.started(first),
{
}

/// A second stop in a row changes nothing, whenever it comes.
pub proof fn lemma_stop_is_idempotent(s: ClockState, first: nat, second: nat)
    ensures
        s.stopped(first).stopped(second) == s.stopped(first),
{
}

/// A stopped clock that has counted its whole duration has no time left.
pub proof fn lemma_spent_clock_has_no_time_left(s: ClockState, now: nat)
    requires
        !s.running,
        s.accumulated == s.duration,
    ensures
        s.remaining(now) == 0,
{
}

/// A fresh clock that runs for exactly its duration and is then stopped
/// has counted its whole duration and has no time left.
pub proof fn lemma_full_run_spends_clock(duration: nat, start: nat, now: nat)
    requires
        duration <= max_millis(),
    ensures
        ({
            let s = ClockState::fresh(duration).started(start).stopped(millis_after(start, duration));
            &&& s.accumulated == duration
            &&& !s.running
            &&& s.has_started()
            &&& s.remaining(now) == 0
        }),
{
    lemma_segment_of_whole_millis(start, duration);
}

/// A segment that lasts a whole number of milliseconds counts that number.
pub proof fn lemma_segment_of_whole_millis(start: nat, length: nat)
    ensures
        segment_millis(start, millis_after(start, length)) == length,
{
    assert((length * 1_000_000) / 1_000_000 == length) by (nonlinear_arith);
}

/// Two toggles in a row leave the clock running if it ran and stopped if
/// it was stopped.
pub proof fn lemma_toggle_twice_keeps_running(s: ClockState, first: nat, second: nat)
    ensures
        s.toggled(first).toggled(second).running == s.running,
{
}

/// All toggles: an even number of them leaves the clock running if it ran
/// and stopped if it was stopped, an odd number turns it over.
pub proof fn lemma_toggles_turn_by_parity(s: ClockState, instants: Seq<nat>)
    ensures
        s.after_all(instants.map_values(|at: nat| (ClockCommand::Toggle, at))).running == (if instants.len()
            % 2 == 0 {
            s.running
        } else {
            !s.running
        }),
    decreases instants.len(),
{
    let commands = instants.map_values(|at: nat| (ClockCommand::Toggle, at));
    if instants.len() > 0 {
        let earlier = instants.drop_last();
        assert(commands.drop_last() =~= earlier.map_values(|at: nat| (ClockCommand::Toggle, at)));
        lemma_toggles_turn_by_parity(s, earlier);
        assert(commands.last().0 is Toggle);
    }
}

/// A stopped clock that is started and stopped `starts.len()` times, each
/// segment lasting `length` milliseconds, has counted `length` more for each
/// segment, up to the largest count that it can hold.
pub proof fn lemma_segments_add_up(s: ClockState, starts: Seq<nat>, length: nat)
    requires
        s.wf(),
        !s.running,
    ensures
        !s.after_segments(starts, length).running,
        s.after_segments(starts, length).wf(),
        s.after_segments(starts, length).accumulated == capped(s.accumulated + starts.len() * length),
        s.after_segments(starts, length).duration == s.duration,
    decreases starts.len(),
{
    if starts.len() > 0 {
        let earlier = starts.drop_last();
        lemma_segments_add_up(s, earlier, length);
        lemma_segment_of_whole_millis(starts.last(), length);
        assert(starts.len() * length == earlier.len() * length + length) by (nonlinear_arith)
            requires
                starts.len() == earlier.len() + 1,
        ;
    } else {
        assert(starts.len() * length == 0) by (nonlinear_arith)
            requires
                starts.len() == 0,
        ;
    }
}

} // verus!

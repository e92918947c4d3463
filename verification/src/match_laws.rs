//! What holds of the state of a match across calls.

use crate::bjj_match::MatchState;
use crate::clock::ClockState;
use crate::clock_laws::{in_time_order, lemma_remaining_never_grows_through_commands, ClockCommand};
use vstd::prelude::*;

verus! {

/// Starting a match that was never started, with time on its clock, puts
/// it in progress with its whole duration left.
pub proof fn lemma_start_puts_match_in_progress(s: ClockState, duration: nat, now: nat)
    requires
        s.wf(),
        !s.has_started(),
        duration > 0,
    ensures
        s.state(now) is NotStarted,
        s.with_duration(duration).started(now).state(now) is InProgress,
        s.with_duration(duration).started(now).remaining(now) == duration,
{
}

/// No command takes a started match back to not started.
pub proof fn lemma_started_stays_started(s: ClockState, command: ClockCommand, now: nat, later: nat)
    requires
        s.has_started(),
    ensures
        s.after(command, now).has_started(),
        !(s.after(command, now).state(later) is NotStarted),
{
}

/// Pausing or resuming a started match changes nothing about its state at
/// that instant.
pub proof fn lemma_toggle_keeps_state(s: ClockState, now: nat)
    requires
        s.wf(),
        s.has_started(),
    ensures
        s.toggled(now).state(now) == s.state(now),
{
}

/// A paused match that is in progress stays in progress however long the
/// pause lasts.
pub proof fn lemma_paused_match_stays_in_progress(s: ClockState, now: nat, later: nat)
    requires
        !s.running,
        s.state(now) is InProgress,
    ensures
        s.state(later) is InProgress,
        s.remaining(later) == s.remaining(now),
{
}

/// A running match finishes by the passing of time alone, once its
/// remaining time has run out.
pub proof fn lemma_match_finishes_when_time_runs_out(s: ClockState, now: nat)
    requires
        s.has_started(),
    ensures
        s.state(now) is Finished <==> s.remaining(now) == 0,
        s.state(now) is InProgress <==> s.remaining(now) > 0,
{
}

/// A finished match stays finished through any starts, stops and toggles
/// given at instants that never go back.
pub proof fn lemma_finished_is_terminal(
    s: ClockState,
    from: nat,
    commands: Seq<(ClockCommand, nat)>,
    until: nat,
)
    requires
        s.wf(),
        s.state(from) is Finished,
        in_time_order(from, commands),
        from <= until,
        forall|i: int| 0 <= i < commands.len() ==> (#[trigger] commands[i]).1 <= until,
    ensures
        s.after_all(commands).state(until) is Finished,
{
    lemma_remaining_never_grows_through_commands(s, from, commands, until);
    lemma_commands_keep_started(s, commands);
}

/// No sequence of commands takes a started match back to not started.
pub proof fn lemma_commands_keep_started(s: ClockState, commands: Seq<(ClockCommand, nat)>)
    requires
        s.has_started(),
    ensures
        s.after_all(commands).has_started(),
    decreases commands.len(),
{
    if commands.len() > 0 {
        lemma_commands_keep_started(s, commands.drop_last());
    }
}

/// A started match whose stopped clock has counted exactly its duration
/// has no time left and is finished.
pub proof fn lemma_spent_match_is_finished(s: ClockState, now: nat)
    requires
        s.has_started(),
        !s.running,
        s.accumulated == s.duration,
    ensures
        s.remaining(now) == 0,
        s.state(now) is Finished,
{
}

} // verus!

//! What holds of a score across calls.

use crate::score::{PlayerScore, ScoreField};
use vstd::prelude::*;

verus! {

/// One change to a count.
pub enum ScoreChange {
    /// So many more.
    Add(nat),
    /// One less, held at zero.
    Subtract,
}

/// `n`, or zero if `n` is negative.
pub open spec fn floored(n: int) -> nat {
    if n > 0 {
        n as nat
    } else {
        0
    }
}

/// The sum of everything that `changes` adds.
pub open spec fn total_added(changes: Seq<ScoreChange>) -> nat
    decreases changes.len(),
{
    if changes.len() == 0 {
        0
    } else {
        total_added(changes.drop_last()) + match changes.last() {
            ScoreChange::Add(amount) => amount,
            ScoreChange::Subtract => 0,
        }
    }
}

/// How many times `changes` tries to take one away.
pub open spec fn subtract_attempts(changes: Seq<ScoreChange>) -> nat
    decreases changes.len(),
{
    if changes.len() == 0 {
        0
    } else {
        subtract_attempts(changes.drop_last()) + match changes.last() {
            ScoreChange::Add(_) => 0nat,
            ScoreChange::Subtract => 1nat,
        }
    }
}

/// `attempts` tries in a row to take one away.
pub open spec fn subtracts(attempts: nat) -> Seq<ScoreChange> {
    Seq::new(attempts, |i: int| ScoreChange::Subtract)
}

impl PlayerScore {
    /// This score after one change to the count that `field` names.
    pub open spec fn changed(self, field: ScoreField, change: ScoreChange) -> PlayerScore {
        match change {
            ScoreChange::Add(amount) => self.raised(field, amount),
            ScoreChange::Subtract => self.lowered(field),
        }
    }

    /// This score after every change of `changes` in turn.
    pub open spec fn after_changes(self, field: ScoreField, changes: Seq<ScoreChange>) -> PlayerScore
        decreases changes.len(),
    {
        if changes.len() == 0 {
            self
        } else {
            self.after_changes(field, changes.drop_last()).changed(field, changes.last())
        }
    }
}

/// Taking one away lowers the named count by one, holds it at zero, and
/// leaves the other counts alone.
pub proof fn lemma_lowered_floors_at_zero(score: PlayerScore, field: ScoreField, other: ScoreField)
    ensures
        score.lowered(field).count(field) == floored(score.count(field) - 1),
        other != field ==> score.lowered(field).count(other) == score.count(other),
{
}

/// Adding raises the named count by the amount and leaves the other counts
/// alone.
pub proof fn lemma_raised_adds(score: PlayerScore, field: ScoreField, amount: nat, other: ScoreField)
    requires
        score.has_room(field, amount),
    ensures
        score.raised(field, amount).count(field) == score.count(field) + amount,
        other != field ==> score.raised(field, amount).count(other) == score.count(other),
{
}

/// However adding and taking away are mixed, the count ends no lower than
/// what was added less the attempts to take away, never below zero, and no
/// higher than what was added. The other counts are left alone.
pub proof fn lemma_changes_never_go_below_floor(
    score: PlayerScore,
    field: ScoreField,
    changes: Seq<ScoreChange>,
    other: ScoreField,
)
    requires
        score.has_room(field, total_added(changes)),
    ensures
        score.after_changes(field, changes).count(field) >= floored(
            score.count(field) + total_added(changes) - subtract_attempts(changes),
        ),
        score.after_changes(field, changes).count(field) <= score.count(field) + total_added(changes),
        other != field ==> score.after_changes(field, changes).count(other) == score.count(other),
    decreases changes.len(),
{
    if changes.len() > 0 {
        lemma_changes_never_go_below_floor(score, field, changes.drop_last(), other);
    }
}

/// Taking one away `attempts` times in a row leaves the count less the
/// attempts, or zero if there were more attempts than the count.
pub proof fn lemma_subtracts_clamp(score: PlayerScore, field: ScoreField, attempts: nat)
    ensures
        score.after_changes(field, subtracts(attempts)).count(field) == floored(
            score.count(field) - attempts,
        ),
    decreases attempts,
{
    if attempts > 0 {
        assert(subtracts(attempts).drop_last() =~= subtracts((attempts - 1) as nat));
        lemma_subtracts_clamp(score, field, (attempts - 1) as nat);
    }
}

/// When everything is added before anything is taken away, the count ends
/// at exactly what was added less the attempts, or at zero if there were
/// more attempts than that.
pub proof fn lemma_subtracts_after_adds_clamp(
    score: PlayerScore,
    field: ScoreField,
    adds: Seq<ScoreChange>,
    attempts: nat,
)
    requires
        subtract_attempts(adds) == 0,
        score.has_room(field, total_added(adds)),
    ensures
        score.after_changes(field, adds + subtracts(attempts)).count(field) == floored(
            score.count(field) + total_added(adds) - attempts,
        ),
    decreases attempts,
{
    if attempts == 0 {
        assert(adds + subtracts(0) =~= adds);
        lemma_changes_never_go_below_floor(score, field, adds, field);
    } else {
        let fewer = (attempts - 1) as nat;
        assert((adds + subtracts(attempts)).drop_last() =~= adds + subtracts(fewer));
        lemma_subtracts_after_adds_clamp(score, field, adds, fewer);
    }
}

} // verus!

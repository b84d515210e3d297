//! What happens when a fixture's scope ends.
//!
//! Teardown has two steps, always in this order: the storage engine destroys
//! whatever database stands at the fixture's path, then the temporary
//! directory is removed with all that is left in it. The caller performs each
//! step and reports whether it succeeded; a step that fails ends the teardown
//! at once, and the caller is told to abort. No step is retried.

use vstd::prelude::*;
use vstd::string::*;

verus! {

/// One of the two things teardown does.
#[derive(Clone, Copy, Debug, PartialEq, Eq, Structural)]
pub enum TeardownStep {
    /// The storage engine destroys the database at the fixture's path, with
    /// its default configuration.
    DestroyDatabase,
    /// The temporary directory is removed, with everything inside it.
    RemoveDirectory,
}

/// How far a fixture has come on its way from live to destroyed.
#[derive(Clone, Copy, Debug, PartialEq, Eq, Structural)]
pub enum Stage {
    /// The fixture is in use; teardown has not begun.
    Live,
    /// The database is destroyed; the directory still stands.
    DatabaseDestroyed,
    /// Both steps succeeded: nothing of the fixture is left.
    Destroyed,
    /// The named step failed, and teardown stopped there.
    Aborted(TeardownStep),
}

/// What the caller has to do next.
#[derive(Clone, Copy, Debug, PartialEq, Eq, Structural)]
pub enum Directive {
    /// Perform the step, then report how it went.
    Run(TeardownStep),
    /// Teardown is complete.
    Finished,
    /// The named step failed: fail loudly.
    Abort(TeardownStep),
}

/// Whether teardown has come to its end at `stage`, one way or the other.
pub open spec fn is_settled(stage: Stage) -> bool {
    stage is Destroyed || stage is Aborted
}

/// What the caller is told to do at `stage`.
pub open spec fn directive_at(stage: Stage) -> Directive {
    match stage {
        Stage::Live => Directive::Run(TeardownStep::DestroyDatabase),
        Stage::DatabaseDestroyed => Directive::Run(TeardownStep::RemoveDirectory),
        Stage::Destroyed => Directive::Finished,
        Stage::Aborted(step) => Directive::Abort(step),
    }
}

/// The stage that follows `stage` once the step directed there has been
/// reported as `succeeded`. A settled stage stays as it is.
pub open spec fn stage_after(stage: Stage, succeeded: bool) -> Stage {
    match stage {
        Stage::Live => if succeeded {
            Stage::DatabaseDestroyed
        } else {
            Stage::Aborted(TeardownStep::DestroyDatabase)
        },
        Stage::DatabaseDestroyed => if succeeded {
            Stage::Destroyed
        } else {
            Stage::Aborted(TeardownStep::RemoveDirectory)
        },
        Stage::Destroyed => Stage::Destroyed,
        Stage::Aborted(step) => Stage::Aborted(step),
    }
}

/// The stage reached from `stage` after the reports `outcomes`, in order.
pub open spec fn stage_after_all(stage: Stage, outcomes: Seq<bool>) -> Stage
    decreases outcomes.len(),
{
    if outcomes.len() == 0 {
        stage
    } else {
        stage_after_all(stage_after(stage, outcomes[0]), outcomes.drop_first())
    }
}

/// What is said when `step` fails.
pub open spec fn failure_message(step: TeardownStep) -> Seq<char> {
    match step {
        TeardownStep::DestroyDatabase => "Failed to destroy temporary DB"@,
        TeardownStep::RemoveDirectory => "Failed to remove temporary directory"@,
    }
}

impl TeardownStep {
    /// The message with which the caller aborts when this step fails.
    pub fn message(&self) -> (text: String)
        ensures
            text@ == failure_message(*self),
    {
        match self {
            TeardownStep::DestroyDatabase => String::from_str("Failed to destroy temporary DB"),
            TeardownStep::RemoveDirectory => String::from_str(
                "Failed to remove temporary directory",
            ),
        }
    }
}

impl Stage {
    /// What the caller has to do at this stage.
    pub fn directive(self) -> (next: Directive)
        ensures
            next == directive_at(self),
    {
        match self {
            Stage::Live => Directive::Run(TeardownStep::DestroyDatabase),
            Stage::DatabaseDestroyed => Directive::Run(TeardownStep::RemoveDirectory),
            Stage::Destroyed => Directive::Finished,
            Stage::Aborted(step) => Directive::Abort(step),
        }
    }

    /// The stage that follows this one once the pending step has been
    /// reported.
    pub fn after(self, succeeded: bool) -> (next: Stage)
        ensures
            next == stage_after(self, succeeded),
    {
        match self {
            Stage::Live => {
                if succeeded {
                    Stage::DatabaseDestroyed
                } else {
                    Stage::Aborted(TeardownStep::DestroyDatabase)
                }
            },
            Stage::DatabaseDestroyed => {
                if succeeded {
                    Stage::Destroyed
                } else {
                    Stage::Aborted(TeardownStep::RemoveDirectory)
                }
            },
            Stage::Destroyed => Stage::Destroyed,
            Stage::Aborted(step) => Stage::Aborted(step),
        }
    }
}

/// The directory is removed only after the database was destroyed: that step
/// is directed exactly when the step before it, taken from a live fixture,
/// has succeeded. Destroying the database is directed of a live fixture only,
/// and never in answer to a report.
pub proof fn lemma_database_before_directory(stage: Stage, succeeded: bool)
    ensures
        directive_at(stage_after(stage, succeeded)) == Directive::Run(
            TeardownStep::RemoveDirectory,
        ) <==> stage == Stage::Live && succeeded,
        directive_at(stage) == Directive::Run(TeardownStep::DestroyDatabase) <==> stage
            == Stage::Live,
        directive_at(stage_after(stage, succeeded)) != Directive::Run(
            TeardownStep::DestroyDatabase,
        ),
{
}

/// A failure is never passed over: when a step is reported as failed, the
/// caller is told to abort, naming that step, and no further step is directed.
pub proof fn lemma_failure_aborts(stage: Stage, step: TeardownStep)
    requires
        directive_at(stage) == Directive::Run(step),
    ensures
        stage_after(stage, false) == Stage::Aborted(step),
        directive_at(stage_after(stage, false)) == Directive::Abort(step),
{
}

/// Once teardown is settled, no report changes it.
pub proof fn lemma_settled_stays(stage: Stage, outcomes: Seq<bool>)
    requires
        is_settled(stage),
    ensures
        stage_after_all(stage, outcomes) == stage,
    decreases outcomes.len(),
{
    if outcomes.len() > 0 {
        lemma_settled_stays(stage_after(stage, outcomes[0]), outcomes.drop_first());
    }
}

/// The way from live to destroyed is taken in one direction only: after any
/// report at all, a fixture is never live again.
pub proof fn lemma_never_live_again(stage: Stage, outcomes: Seq<bool>)
    requires
        outcomes.len() > 0,
    ensures
        stage_after_all(stage, outcomes) != Stage::Live,
    decreases outcomes.len(),
{
    let next = stage_after(stage, outcomes[0]);
    let rest = outcomes.drop_first();
    if rest.len() > 0 {
        lemma_never_live_again(next, rest);
    } else {
        assert(stage_after_all(next, rest) == next);
    }
}

/// No step is directed a second time: once a step has been reported on,
/// whatever else is reported, teardown never asks for that step again.
pub proof fn lemma_no_step_twice(stage: Stage, step: TeardownStep, outcomes: Seq<bool>)
    requires
        directive_at(stage) == Directive::Run(step),
        outcomes.len() > 0,
    ensures
        directive_at(stage_after_all(stage, outcomes)) != Directive::Run(step),
{
    match stage {
        Stage::Live => {
            lemma_never_live_again(stage, outcomes);
        },
        _ => {
            lemma_settled_stays(stage_after(stage, outcomes[0]), outcomes.drop_first());
        },
    }
}

/// Teardown of a live fixture is settled by its first two reports, whatever
/// follows them: the fixture is destroyed exactly when both steps succeeded,
/// and otherwise teardown was aborted at the first step that failed.
pub proof fn lemma_teardown_settles(outcomes: Seq<bool>)
    requires
        outcomes.len() >= 2,
    ensures
        stage_after_all(Stage::Live, outcomes) == (if !outcomes[0] {
            Stage::Aborted(TeardownStep::DestroyDatabase)
        } else if !outcomes[1] {
            Stage::Aborted(TeardownStep::RemoveDirectory)
        } else {
            Stage::Destroyed
        }),
        stage_after_all(Stage::Live, outcomes) == Stage::Destroyed <==> outcomes[0] && outcomes[1],
{
    let first = stage_after(Stage::Live, outcomes[0]);
    let rest = outcomes.drop_first();
    let second = stage_after(first, rest[0]);
    assert(rest[0] == outcomes[1]);
    assert(stage_after_all(Stage::Live, outcomes) == stage_after_all(first, rest));
    assert(stage_after_all(first, rest) == stage_after_all(second, rest.drop_first()));
    lemma_settled_stays(second, rest.drop_first());
}

} // verus!

//! The pipeline: qualify an event, then build, test, and commit or revert.

use crate::clock::{nanos_since, start_clock};
use crate::debounce::{elapsed, Debouncer};
use crate::event::FileChangeEvent;
use crate::filter::Checker;
use crate::log::VerboseLogger;
use crate::runner::{
    failed, failure_of, handle_output, Failure, MockRunner, RunError, RunOutput, Runner,
};
use crate::text::{join, joined};
use std::time::Instant;
use vstd::prelude::*;

verus! {

/// One external command of the pipeline.
#[derive(Clone, Copy, Debug, PartialEq, Eq, Structural)]
pub enum Stage {
    Build,
    Test,
    Commit,
    Revert,
}

/// What became of an event before any command ran.
#[derive(Clone, Copy, Debug, PartialEq, Eq, Structural)]
pub enum Qualification {
    /// The event is noise, or covered by the ignore rules.
    Ignored,
    /// The event came too soon after the previous trigger.
    Debounced,
    /// The event triggers the pipeline.
    Accepted,
}

/// One stage that ran, with what its runner reported.
#[derive(Debug, PartialEq, Eq)]
pub struct StageRun {
    pub stage: Stage,
    pub outcome: Result<RunOutput, RunError>,
}

/// What handling one event came to.
#[derive(Debug, PartialEq, Eq)]
pub struct Report {
    pub qualification: Qualification,
    /// A message on an event that did not trigger the pipeline; present only
    /// when verbose output is on.
    pub notice: Option<String>,
    /// The stages that ran, in order, each with its captured output.
    pub runs: Vec<StageRun>,
}

/// A failure that the pipeline cannot absorb: the commit failed, or the
/// revert could not be carried out.
#[derive(Debug, PartialEq, Eq)]
pub struct Escalation {
    pub stage: Stage,
    pub cause: Failure,
    pub report: Report,
}

/// The quiet window of a new orchestrator: one second, in nanoseconds.
pub const DEFAULT_DELAY: u128 = 1_000_000_000;

/// Between the paths of an event in a message.
pub const PATH_SEPARATOR: &'static str = ", ";

/// Opens the notice on an ignored event.
pub const IGNORED_NOTICE: &'static str = "Files are ignored: ";

/// The notice on a debounced event.
pub const DEBOUNCED_NOTICE: &'static str = "Debouncing. Change occurred too close to last change";

/// The stage that follows a stage with the given outcome; none where the
/// pipeline ends. A failed build or test is followed by the revert.
pub open spec fn following_stage(stage: Stage, outcome: Result<RunOutput, RunError>) -> Option<
    Stage,
> {
    match stage {
        Stage::Build => Some(
            if failed(outcome) {
                Stage::Revert
            } else {
                Stage::Test
            },
        ),
        Stage::Test => Some(
            if failed(outcome) {
                Stage::Revert
            } else {
                Stage::Commit
            },
        ),
        Stage::Commit => None,
        Stage::Revert => None,
    }
}

/// The failure that a stage hands up to the caller, if any. A failed build
/// or test is absorbed by the revert. A failed commit is handed up whatever
/// its cause. Of the revert only a runner error is: the tree is then in an
/// unknown state.
pub open spec fn escalation_of(stage: Stage, outcome: Result<RunOutput, RunError>) -> Option<
    Failure,
> {
    match stage {
        Stage::Build => None,
        Stage::Test => None,
        Stage::Commit => failure_of(outcome),
        Stage::Revert => match outcome {
            Ok(_) => None,
            Err(error) => Some(Failure::Io(error)),
        },
    }
}

/// The runs are a complete pass through the pipeline that begins at `stage`:
/// each stage is the one that follows from the outcome before it, and after
/// the last one nothing follows.
pub open spec fn runs_from(stage: Stage, runs: Seq<StageRun>) -> bool
    decreases runs.len(),
{
    &&& runs.len() > 0
    &&& runs[0].stage == stage
    &&& match following_stage(stage, runs[0].outcome) {
        Some(next) => runs_from(next, runs.drop_first()),
        None => runs.len() == 1,
    }
}

/// The runs are a complete pass through the pipeline.
pub open spec fn is_pipeline_run(runs: Seq<StageRun>) -> bool {
    runs_from(Stage::Build, runs)
}

/// The runs are the beginning of a pass through the pipeline that begins at
/// `first`, and `due` is the stage that follows them.
spec fn runs_up_to(first: Stage, runs: Seq<StageRun>, due: Stage) -> bool
    decreases runs.len(),
{
    if runs.len() == 0 {
        due == first
    } else {
        &&& runs[0].stage == first
        &&& match following_stage(first, runs[0].outcome) {
            Some(next) => runs_up_to(next, runs.drop_first(), due),
            None => false,
        }
    }
}

/// The place of a stage in the order in which stages can follow each other.
spec fn stage_rank(stage: Stage) -> int {
    match stage {
        Stage::Build => 0,
        Stage::Test => 1,
        Stage::Commit => 2,
        Stage::Revert => 3,
    }
}

/// The stage that is due carries a pass one step on: with its outcome the
/// pass is complete where nothing follows, and otherwise the following stage
/// is due.
proof fn lemma_run_goes_on(
    first: Stage,
    runs: Seq<StageRun>,
    due: Stage,
    outcome: Result<RunOutput, RunError>,
)
    requires
        runs_up_to(first, runs, due),
    ensures
        match following_stage(due, outcome) {
            Some(next) => runs_up_to(first, runs.push(StageRun { stage: due, outcome }), next)
                && stage_rank(due) < stage_rank(next),
            None => runs_from(first, runs.push(StageRun { stage: due, outcome })),
        },
    decreases runs.len(),
{
    reveal_with_fuel(runs_up_to, 2);
    reveal_with_fuel(runs_from, 2);
    let longer = runs.push(StageRun { stage: due, outcome });
    if runs.len() == 0 {
        assert(longer.drop_first() =~= Seq::<StageRun>::empty());
    } else {
        let next = following_stage(first, runs[0].outcome)->Some_0;
        lemma_run_goes_on(next, runs.drop_first(), due, outcome);
        assert(longer.drop_first() =~= runs.drop_first().push(StageRun { stage: due, outcome }));
    }
}

/// The stage occurs among the runs.
pub open spec fn ran(runs: Seq<StageRun>, stage: Stage) -> bool {
    exists|i: int| 0 <= i < runs.len() && (#[trigger] runs[i]).stage == stage
}

/// Tells which stage follows a stage with the given outcome.
pub fn next_stage(stage: Stage, outcome: &Result<RunOutput, RunError>) -> (next: Option<Stage>)
    ensures
        next == following_stage(stage, *outcome),
{
    match stage {
        Stage::Build => match handle_output(outcome) {
            Some(_) => Some(Stage::Revert),
            None => Some(Stage::Test),
        },
        Stage::Test => match handle_output(outcome) {
            Some(_) => Some(Stage::Revert),
            None => Some(Stage::Commit),
        },
        Stage::Commit => None,
        Stage::Revert => None,
    }
}

/// Tells which failure a stage hands up to the caller.
pub fn escalated(stage: Stage, outcome: &Result<RunOutput, RunError>) -> (cause: Option<Failure>)
    ensures
        cause == escalation_of(stage, *outcome),
{
    match stage {
        Stage::Build => None,
        Stage::Test => None,
        Stage::Commit => handle_output(outcome),
        Stage::Revert => match outcome {
            Ok(_) => None,
            Err(error) => Some(Failure::Io(RunError { message: error.message.clone() })),
        },
    }
}

/// How an event qualifies: the filter is asked first, and only an event that
/// it lets through reaches the debouncer.
pub open spec fn qualification(ignored: bool, debouncer: Debouncer, now: u128) -> Qualification {
    if ignored {
        Qualification::Ignored
    } else if debouncer.suppresses(now) {
        Qualification::Debounced
    } else {
        Qualification::Accepted
    }
}

/// The debouncer after an event qualified: an ignored event leaves it as it
/// was, every other event restarts the quiet window.
pub open spec fn debouncer_after(ignored: bool, debouncer: Debouncer, now: u128) -> Debouncer {
    if ignored {
        debouncer
    } else {
        debouncer.triggered(now)
    }
}

/// The text of the notice on an event that did not trigger the pipeline.
pub open spec fn notice_text(qualification: Qualification, paths: Seq<String>) -> Option<
    Seq<char>,
> {
    match qualification {
        Qualification::Ignored => Some(IGNORED_NOTICE@ + joined(paths, PATH_SEPARATOR@)),
        Qualification::Debounced => Some(DEBOUNCED_NOTICE@),
        Qualification::Accepted => None,
    }
}

/// The report that a handled event comes with, whether or not a failure was
/// handed up.
pub open spec fn report_of(handled: Result<Report, Escalation>) -> Report {
    match handled {
        Ok(report) => report,
        Err(escalation) => escalation.report,
    }
}

/// Drives the pipeline for one repository: owns the filter and the debounce
/// state, and borrows the four runners, each of a kind of its own.
pub struct Orchestrator<'a, B: Runner, T: Runner, C: Runner, V: Runner> {
    ignore: Checker,
    build: &'a mut B,
    test: &'a mut T,
    commit: &'a mut C,
    revert: &'a mut V,
    logger: &'a VerboseLogger,
    debouncer: Debouncer,
    clock: Instant,
}

impl<'a, B: Runner, T: Runner, C: Runner, V: Runner> Orchestrator<'a, B, T, C, V> {
    /// The filter that qualifies events.
    pub closed spec fn checker(&self) -> Checker {
        self.ignore
    }

    /// The debounce state.
    pub closed spec fn debouncer(&self) -> Debouncer {
        self.debouncer
    }

    /// Whether notices are shown.
    pub closed spec fn verbose(&self) -> bool {
        self.logger.verbose
    }

    /// The build runner, in its present state.
    pub closed spec fn build_runner(&self) -> &B {
        &*self.build
    }

    /// The test runner, in its present state.
    pub closed spec fn test_runner(&self) -> &T {
        &*self.test
    }

    /// The commit runner, in its present state.
    pub closed spec fn commit_runner(&self) -> &C {
        &*self.commit
    }

    /// The revert runner, in its present state.
    pub closed spec fn revert_runner(&self) -> &V {
        &*self.revert
    }

    /// The runner of `stage` is as it was in `before`: it was not invoked in
    /// between.
    pub open spec fn left_alone(&self, before: &Self, stage: Stage) -> bool {
        match stage {
            Stage::Build => self.build_runner() == before.build_runner(),
            Stage::Test => self.test_runner() == before.test_runner(),
            Stage::Commit => self.commit_runner() == before.commit_runner(),
            Stage::Revert => self.revert_runner() == before.revert_runner(),
        }
    }

    /// The runner of `stage` made one run since `before`, with this outcome.
    pub open spec fn ran_once(
        &self,
        before: &Self,
        stage: Stage,
        outcome: Result<RunOutput, RunError>,
    ) -> bool {
        match stage {
            Stage::Build => B::ran(before.build_runner(), self.build_runner(), outcome),
            Stage::Test => T::ran(before.test_runner(), self.test_runner(), outcome),
            Stage::Commit => C::ran(before.commit_runner(), self.commit_runner(), outcome),
            Stage::Revert => V::ran(before.revert_runner(), self.revert_runner(), outcome),
        }
    }

    /// No runner was invoked since `before`.
    pub open spec fn none_invoked(&self, before: &Self) -> bool {
        &&& self.left_alone(before, Stage::Build)
        &&& self.left_alone(before, Stage::Test)
        &&& self.left_alone(before, Stage::Commit)
        &&& self.left_alone(before, Stage::Revert)
    }

    /// The filter and the verbosity are as they were in `before`.
    pub open spec fn same_setup(&self, before: &Self) -> bool {
        &&& self.checker() == before.checker()
        &&& self.verbose() == before.verbose()
    }

    /// What handling `event` at the instant `now` owes: how the event
    /// qualifies, what becomes of the debounce state, which notice is given,
    /// which stages run in which order, which runners are not touched, and
    /// when a failure is handed up.
    pub open spec fn handled(
        before: &Self,
        after: &Self,
        event: FileChangeEvent,
        now: u128,
        handled: Result<Report, Escalation>,
    ) -> bool {
        let ignored = before.checker().ignores(event.paths@, event.is_dir);
        let verdict = qualification(ignored, before.debouncer(), now);
        let report = report_of(handled);
        &&& after.same_setup(before)
        &&& after.debouncer() == debouncer_after(ignored, before.debouncer(), now)
        &&& report.qualification == verdict
        &&& if before.verbose() {
            match report.notice {
                Some(text) => Some(text@) == notice_text(verdict, event.paths@),
                None => verdict == Qualification::Accepted,
            }
        } else {
            report.notice is None
        }
        &&& forall|stage: Stage| !ran(report.runs@, stage) ==> after.left_alone(before, stage)
        &&& forall|i: int|
            0 <= i < report.runs@.len() ==> after.ran_once(
                before,
                (#[trigger] report.runs@[i]).stage,
                report.runs@[i].outcome,
            )
        &&& if verdict == Qualification::Accepted {
            &&& is_pipeline_run(report.runs@)
            &&& hands_up(report.runs@.last(), handled)
        } else {
            &&& report.runs@.len() == 0
            &&& handled is Ok
        }
    }

    /// Builds an orchestrator with a quiet window of one second that has seen
    /// no trigger yet.
    pub fn new(
        ignore: Checker,
        build: &'a mut B,
        test: &'a mut T,
        commit: &'a mut C,
        revert: &'a mut V,
        logger: &'a VerboseLogger,
    ) -> (orchestrator: Orchestrator<'a, B, T, C, V>)
        ensures
            orchestrator.checker() == ignore,
            orchestrator.build_runner() == &*old(build),
            orchestrator.test_runner() == &*old(test),
            orchestrator.commit_runner() == &*old(commit),
            orchestrator.revert_runner() == &*old(revert),
            orchestrator.verbose() == logger.verbose,
            orchestrator.debouncer() == (Debouncer { last: None, window: DEFAULT_DELAY }),
    {
        let clock = start_clock();
        Orchestrator {
            ignore,
            build,
            test,
            commit,
            revert,
            logger,
            debouncer: Debouncer::new(DEFAULT_DELAY),
            clock,
        }
    }

    /// Sets the quiet window, in nanoseconds. The last trigger is kept.
    pub fn set_delay(&mut self, delay: u128)
        ensures
            final(self).same_setup(old(self)),
            final(self).debouncer() == (Debouncer {
                last: old(self).debouncer().last,
                window: delay,
            }),
            final(self).none_invoked(old(self)),
    {
        self.debouncer.window = delay;
    }

    /// Records a trigger at `now` and tells whether it comes too soon after
    /// the previous one.
    pub fn should_debounce(&mut self, now: u128) -> (suppressed: bool)
        ensures
            suppressed == old(self).debouncer().suppresses(now),
            final(self).debouncer() == old(self).debouncer().triggered(now),
            final(self).same_setup(old(self)),
            final(self).none_invoked(old(self)),
    {
        self.debouncer.should_debounce(now)
    }

    /// Qualifies an event that arrives at `now`: ignored, debounced or
    /// accepted. No runner is touched.
    pub fn qualify(&mut self, event: &FileChangeEvent, now: u128) -> (verdict: Qualification)
        ensures
            verdict == qualification(
                old(self).checker().ignores(event.paths@, event.is_dir),
                old(self).debouncer(),
                now,
            ),
            final(self).debouncer() == debouncer_after(
                old(self).checker().ignores(event.paths@, event.is_dir),
                old(self).debouncer(),
                now,
            ),
            final(self).same_setup(old(self)),
            final(self).none_invoked(old(self)),
    {
        if self.ignore.ignores_paths(&event.paths, event.is_dir) {
            Qualification::Ignored
        } else if self.should_debounce(now) {
            Qualification::Debounced
        } else {
            Qualification::Accepted
        }
    }

    /// Runs the command of one stage. The other three runners are not
    /// touched.
    fn run_stage(&mut self, stage: Stage) -> (outcome: Result<RunOutput, RunError>)
        ensures
            final(self).ran_once(old(self), stage, outcome),
            final(self).same_setup(old(self)),
            final(self).debouncer() == old(self).debouncer(),
            stage != Stage::Build ==> final(self).left_alone(old(self), Stage::Build),
            stage != Stage::Test ==> final(self).left_alone(old(self), Stage::Test),
            stage != Stage::Commit ==> final(self).left_alone(old(self), Stage::Commit),
            stage != Stage::Revert ==> final(self).left_alone(old(self), Stage::Revert),
    {
        match stage {
            Stage::Build => self.build.run(),
            Stage::Test => self.test.run(),
            Stage::Commit => self.commit.run(),
            Stage::Revert => self.run_revert(),
        }
    }

    /// Runs the revert command.
    fn run_revert(&mut self) -> (outcome: Result<RunOutput, RunError>)
        ensures
            final(self).ran_once(old(self), Stage::Revert, outcome),
            final(self).same_setup(old(self)),
            final(self).debouncer() == old(self).debouncer(),
            final(self).left_alone(old(self), Stage::Build),
            final(self).left_alone(old(self), Stage::Test),
            final(self).left_alone(old(self), Stage::Commit),
    {
        self.revert.run()
    }

    /// Handles an event that arrives at the instant `now`, counted in
    /// nanoseconds on any monotonic clock.
    pub fn handle_event_at(&mut self, event: FileChangeEvent, now: u128) -> (handled: Result<
        Report,
        Escalation,
    >)
        ensures
            Self::handled(old(self), final(self), event, now, handled),
    {
        let verdict = self.qualify(&event, now);
        let mut runs: Vec<StageRun> = Vec::new();
        match verdict {
            Qualification::Ignored => {
                let mut text = IGNORED_NOTICE.to_owned();
                text.append(join(&event.paths, PATH_SEPARATOR).as_str());
                return Ok(Report { qualification: verdict, notice: self.logger.keep(text), runs });
            },
            Qualification::Debounced => {
                let text = DEBOUNCED_NOTICE.to_owned();
                return Ok(Report { qualification: verdict, notice: self.logger.keep(text), runs });
            },
            Qualification::Accepted => {},
        }
        let ghost settled = self.debouncer();
        let mut stage = Stage::Build;
        loop
            invariant
                verdict == Qualification::Accepted,
                verdict == qualification(
                    old(self).checker().ignores(event.paths@, event.is_dir),
                    old(self).debouncer(),
                    now,
                ),
                settled == debouncer_after(
                    old(self).checker().ignores(event.paths@, event.is_dir),
                    old(self).debouncer(),
                    now,
                ),
                self.same_setup(old(self)),
                self.debouncer() == settled,
                runs_up_to(Stage::Build, runs@, stage),
                forall|i: int|
                    0 <= i < runs@.len() ==> stage_rank((#[trigger] runs@[i]).stage) < stage_rank(
                        stage,
                    ),
                forall|i: int|
                    0 <= i < runs@.len() ==> self.ran_once(
                        old(self),
                        (#[trigger] runs@[i]).stage,
                        runs@[i].outcome,
                    ),
                !ran(runs@, Stage::Build) ==> self.left_alone(old(self), Stage::Build),
                !ran(runs@, Stage::Test) ==> self.left_alone(old(self), Stage::Test),
                !ran(runs@, Stage::Commit) ==> self.left_alone(old(self), Stage::Commit),
                !ran(runs@, Stage::Revert) ==> self.left_alone(old(self), Stage::Revert),
            decreases 4 - stage_rank(stage),
        {
            let ghost earlier = runs@;
            let outcome = self.run_stage(stage);
            let next = next_stage(stage, &outcome);
            let cause = escalated(stage, &outcome);
            proof {
                lemma_run_goes_on(Stage::Build, earlier, stage, outcome);
            }
            runs.push(StageRun { stage, outcome });
            assert(runs@[earlier.len() as int].stage == stage);
            assert forall|other: Stage| other != stage && !ran(runs@, other) implies !ran(
                earlier,
                other,
            ) by {
                if ran(earlier, other) {
                    let i = choose|i: int|
                        0 <= i < earlier.len() && (#[trigger] earlier[i]).stage == other;
                    assert(runs@[i].stage == other);
                }
            }
            match next {
                Some(following) => {
                    stage = following;
                },
                None => {
                    return finish(verdict, runs, stage, cause);
                },
            }
        }
    }

    /// Handles an event that arrives now: reads the clock of this
    /// orchestrator and handles the event at that instant.
    pub fn handle_event(&mut self, event: FileChangeEvent) -> (handled: Result<Report, Escalation>)
        ensures
            exists|now: u128| Self::handled(old(self), final(self), event, now, handled),
    {
        let now = nanos_since(&self.clock);
        self.handle_event_at(event, now)
    }
}

/// The result agrees with the last stage that ran: a failure is handed up
/// exactly when that stage escalates, with that stage and that cause.
pub open spec fn hands_up(last: StageRun, handled: Result<Report, Escalation>) -> bool {
    match handled {
        Ok(_) => escalation_of(last.stage, last.outcome) is None,
        Err(escalation) => escalation.stage == last.stage && escalation_of(
            last.stage,
            last.outcome,
        ) == Some(escalation.cause),
    }
}

/// Closes the report on an accepted event, and hands the failure up where
/// there is one.
fn finish(
    verdict: Qualification,
    runs: Vec<StageRun>,
    stage: Stage,
    cause: Option<Failure>,
) -> (handled: Result<Report, Escalation>)
    ensures
        report_of(handled) == (Report { qualification: verdict, notice: None, runs }),
        match handled {
            Ok(_) => cause is None,
            Err(escalation) => escalation.stage == stage && cause == Some(escalation.cause),
        },
{
    let report = Report { qualification: verdict, notice: None, runs };
    match cause {
        Some(cause) => Err(Escalation { stage, cause, report }),
        None => Ok(report),
    }
}

/// An event that the filter lets through is accepted when no trigger came
/// shortly before it, and the same event is debounced when it comes again
/// within the quiet window.
pub proof fn lemma_accepted_then_debounced(
    checker: Checker,
    event: FileChangeEvent,
    debouncer: Debouncer,
    first: u128,
    second: u128,
)
    requires
        !checker.ignores(event.paths@, event.is_dir),
        !debouncer.suppresses(first),
        elapsed(first, second) < debouncer.window,
    ensures
        ({
            let ignored = checker.ignores(event.paths@, event.is_dir);
            let between = debouncer_after(ignored, debouncer, first);
            &&& qualification(ignored, debouncer, first) == Qualification::Accepted
            &&& qualification(ignored, between, second) == Qualification::Debounced
        }),
{
}

/// In a burst only the first event can be accepted: whatever became of an
/// event that the filter let through, the next such event within the quiet
/// window of it is debounced.
pub proof fn lemma_burst_is_debounced(debouncer: Debouncer, first: u128, second: u128)
    requires
        elapsed(first, second) < debouncer.window,
    ensures
        qualification(false, debouncer_after(false, debouncer, first), second)
            == Qualification::Debounced,
{
}

/// An ignored event leaves the debounce state alone, so it never delays the
/// event after it.
pub proof fn lemma_ignored_event_keeps_window(debouncer: Debouncer, now: u128)
    ensures
        qualification(true, debouncer, now) == Qualification::Ignored,
        debouncer_after(true, debouncer, now) == debouncer,
{
}

/// A complete pass through the pipeline has one of three shapes: build and
/// revert; build, test and revert; build, test and commit. Which one it is
/// follows from the outcomes of build and test, and no stage runs twice.
pub proof fn lemma_pipeline_shapes(runs: Seq<StageRun>)
    requires
        is_pipeline_run(runs),
    ensures
        runs[0].stage == Stage::Build,
        failed(runs[0].outcome) ==> runs.len() == 2 && runs[1].stage == Stage::Revert,
        !failed(runs[0].outcome) ==> runs.len() == 3 && runs[1].stage == Stage::Test,
        !failed(runs[0].outcome) && failed(runs[1].outcome) ==> runs[2].stage == Stage::Revert,
        !failed(runs[0].outcome) && !failed(runs[1].outcome) ==> runs[2].stage == Stage::Commit,
        forall|i: int, j: int|
            0 <= i < j < runs.len() ==> (#[trigger] runs[i]).stage != (#[trigger] runs[j]).stage,
{
    reveal_with_fuel(runs_from, 4);
    let rest = runs.drop_first();
    assert(rest[0] == runs[1]);
    if !failed(runs[0].outcome) {
        assert(rest.drop_first()[0] == runs[2]);
    }
}

/// Where the build fails, the test and commit runners are never invoked, the
/// revert runs exactly once, directly after the build, and the event counts
/// as handled unless the revert could not be carried out.
pub proof fn lemma_failed_build_is_reverted<'a, B: Runner, T: Runner, C: Runner, V: Runner>(
    before: &Orchestrator<'a, B, T, C, V>,
    after: &Orchestrator<'a, B, T, C, V>,
    event: FileChangeEvent,
    now: u128,
    handled: Result<Report, Escalation>,
)
    requires
        Orchestrator::handled(before, after, event, now, handled),
        report_of(handled).qualification == Qualification::Accepted,
        failed(report_of(handled).runs@[0].outcome),
    ensures
        report_of(handled).runs@.len() == 2,
        report_of(handled).runs@[0].stage == Stage::Build,
        report_of(handled).runs@[1].stage == Stage::Revert,
        after.left_alone(before, Stage::Test),
        after.left_alone(before, Stage::Commit),
        after.ran_once(before, Stage::Build, report_of(handled).runs@[0].outcome),
        after.ran_once(before, Stage::Revert, report_of(handled).runs@[1].outcome),
        handled is Ok <==> report_of(handled).runs@[1].outcome is Ok,
{
    let runs = report_of(handled).runs@;
    lemma_pipeline_shapes(runs);
    assert(!ran(runs, Stage::Test));
    assert(!ran(runs, Stage::Commit));
    assert(after.ran_once(before, runs[0].stage, runs[0].outcome));
    assert(after.ran_once(before, runs[1].stage, runs[1].outcome));
}

/// Where the build succeeds and the test fails, the commit runner is never
/// invoked, the revert runs exactly once, directly after the test, and the
/// event counts as handled unless the revert could not be carried out.
pub proof fn lemma_failed_test_is_reverted<'a, B: Runner, T: Runner, C: Runner, V: Runner>(
    before: &Orchestrator<'a, B, T, C, V>,
    after: &Orchestrator<'a, B, T, C, V>,
    event: FileChangeEvent,
    now: u128,
    handled: Result<Report, Escalation>,
)
    requires
        Orchestrator::handled(before, after, event, now, handled),
        report_of(handled).qualification == Qualification::Accepted,
        !failed(report_of(handled).runs@[0].outcome),
        failed(report_of(handled).runs@[1].outcome),
    ensures
        report_of(handled).runs@.len() == 3,
        report_of(handled).runs@[0].stage == Stage::Build,
        report_of(handled).runs@[1].stage == Stage::Test,
        report_of(handled).runs@[2].stage == Stage::Revert,
        after.left_alone(before, Stage::Commit),
        after.ran_once(before, Stage::Build, report_of(handled).runs@[0].outcome),
        after.ran_once(before, Stage::Test, report_of(handled).runs@[1].outcome),
        after.ran_once(before, Stage::Revert, report_of(handled).runs@[2].outcome),
        handled is Ok <==> report_of(handled).runs@[2].outcome is Ok,
{
    let runs = report_of(handled).runs@;
    lemma_pipeline_shapes(runs);
    assert(!ran(runs, Stage::Commit));
    assert(after.ran_once(before, runs[0].stage, runs[0].outcome));
    assert(after.ran_once(before, runs[1].stage, runs[1].outcome));
    assert(after.ran_once(before, runs[2].stage, runs[2].outcome));
}

/// Where build and test succeed, the commit runs and the revert runner is
/// never invoked. A failed commit is handed up with its cause: the runner's
/// error, or the exit status.
pub proof fn lemma_failed_commit_is_handed_up<'a, B: Runner, T: Runner, C: Runner, V: Runner>(
    before: &Orchestrator<'a, B, T, C, V>,
    after: &Orchestrator<'a, B, T, C, V>,
    event: FileChangeEvent,
    now: u128,
    handled: Result<Report, Escalation>,
)
    requires
        Orchestrator::handled(before, after, event, now, handled),
        report_of(handled).qualification == Qualification::Accepted,
        !failed(report_of(handled).runs@[0].outcome),
        !failed(report_of(handled).runs@[1].outcome),
    ensures
        report_of(handled).runs@.len() == 3,
        report_of(handled).runs@[0].stage == Stage::Build,
        report_of(handled).runs@[1].stage == Stage::Test,
        report_of(handled).runs@[2].stage == Stage::Commit,
        after.left_alone(before, Stage::Revert),
        after.ran_once(before, Stage::Build, report_of(handled).runs@[0].outcome),
        after.ran_once(before, Stage::Test, report_of(handled).runs@[1].outcome),
        after.ran_once(before, Stage::Commit, report_of(handled).runs@[2].outcome),
        handled is Err <==> failed(report_of(handled).runs@[2].outcome),
        handled matches Err(escalation) ==> escalation.stage == Stage::Commit && Some(
            escalation.cause,
        ) == failure_of(report_of(handled).runs@[2].outcome),
{
    let runs = report_of(handled).runs@;
    lemma_pipeline_shapes(runs);
    assert(!ran(runs, Stage::Revert));
    assert(after.ran_once(before, runs[0].stage, runs[0].outcome));
    assert(after.ran_once(before, runs[1].stage, runs[1].outcome));
    assert(after.ran_once(before, runs[2].stage, runs[2].outcome));
}

/// An event that does not qualify runs nothing: no runner is invoked and no
/// failure is handed up.
pub proof fn lemma_unqualified_event_runs_nothing<'a, B: Runner, T: Runner, C: Runner, V: Runner>(
    before: &Orchestrator<'a, B, T, C, V>,
    after: &Orchestrator<'a, B, T, C, V>,
    event: FileChangeEvent,
    now: u128,
    handled: Result<Report, Escalation>,
)
    requires
        Orchestrator::handled(before, after, event, now, handled),
        report_of(handled).qualification != Qualification::Accepted,
    ensures
        handled is Ok,
        after.none_invoked(before),
{
    let runs = report_of(handled).runs@;
    assert(!ran(runs, Stage::Build));
    assert(!ran(runs, Stage::Test));
    assert(!ran(runs, Stage::Commit));
    assert(!ran(runs, Stage::Revert));
}

/// An orchestrator whose four runners are mock runners.
pub type MockOrchestrator<'a> = Orchestrator<'a, MockRunner, MockRunner, MockRunner, MockRunner>;

/// How often the mock runner of a stage has run.
pub open spec fn mock_calls(orchestrator: &MockOrchestrator, stage: Stage) -> int {
    match stage {
        Stage::Build => orchestrator.build_runner().calls as int,
        Stage::Test => orchestrator.test_runner().calls as int,
        Stage::Commit => orchestrator.commit_runner().calls as int,
        Stage::Revert => orchestrator.revert_runner().calls as int,
    }
}

/// With mock runners the counts tell what handling an event did: the runner
/// of a stage that ran was invoked exactly once, and the runner of a stage
/// that did not run was not invoked at all.
pub proof fn lemma_mock_counts_follow_the_runs(
    before: &MockOrchestrator,
    after: &MockOrchestrator,
    event: FileChangeEvent,
    now: u128,
    handled: Result<Report, Escalation>,
    stage: Stage,
)
    requires
        Orchestrator::handled(before, after, event, now, handled),
        mock_calls(before, stage) < u64::MAX,
    ensures
        mock_calls(after, stage) == mock_calls(before, stage) + if ran(
            report_of(handled).runs@,
            stage,
        ) {
            1int
        } else {
            0int
        },
{
    let runs = report_of(handled).runs@;
    if ran(runs, stage) {
        let i = choose|i: int| 0 <= i < runs.len() && (#[trigger] runs[i]).stage == stage;
        assert(after.ran_once(before, runs[i].stage, runs[i].outcome));
    }
}

} // verus!

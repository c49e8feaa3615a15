//! The course of a build: which stage events are announced around the work
//! of each step, and when the build stops.  The work itself (copying,
//! running tools) is done by the caller between `begin_step` and
//! `end_step`.
use vstd::prelude::*;
use crate::error_translate::{translate, translation};
use crate::paths::owned;
use crate::text::str_is;
use crate::pipeline::types::{BuildOptions, BuildResult, PipelineStage, PipelineStageEvent, StageStatus};

verus! {

/// What a step of a build announces around its work.
#[derive(Debug, Clone, Copy, PartialEq, Eq, Structural)]
pub struct Step {
    pub stage: PipelineStage,
    /// `Running` is announced before the work.
    pub announce: bool,
    /// `Done` is announced after work that succeeded.
    pub complete: bool,
    /// `Failed` is announced after work that failed.
    pub mark_failure: bool,
    /// After work that succeeded, a cancelled build stops here.
    pub check_cancel: bool,
}

/// How the work of a step went: its error, if any, and whether the build
/// was cancelled when the step ended.
pub struct WorkOutcome {
    pub error: Option<String>,
    pub cancelled: bool,
}

/// The view of an outcome: its error as text, and the cancel flag.
pub open spec fn outcome_view(o: WorkOutcome) -> (Option<Seq<char>>, bool) {
    (
        match o.error {
            Some(e) => Some(e@),
            None => None,
        },
        o.cancelled,
    )
}

/// The views of a list of outcomes.
pub open spec fn outcome_views(v: Seq<WorkOutcome>) -> Seq<(Option<Seq<char>>, bool)> {
    v.map_values(|o: WorkOutcome| outcome_view(o))
}

/// An event of a stage.
pub open spec fn event(stage: PipelineStage, status: StageStatus) -> PipelineStageEvent {
    PipelineStageEvent { stage, status }
}

/// The message of a build stopped by the user.
pub open spec fn cancel_message() -> Seq<char> {
    "Build cancelled by user"@
}

/// The events announced before the work of a step.
pub open spec fn start_events(step: Step) -> Seq<PipelineStageEvent> {
    if step.announce {
        seq![event(step.stage, StageStatus::Running)]
    } else {
        seq![]
    }
}

/// The events announced after the work of a step.
pub open spec fn end_events(step: Step, succeeded: bool) -> Seq<PipelineStageEvent> {
    if succeeded {
        if step.complete {
            seq![event(step.stage, StageStatus::Done)]
        } else {
            seq![]
        }
    } else if step.mark_failure {
        seq![event(step.stage, StageStatus::Failed)]
    } else {
        seq![]
    }
}

/// Why the build stops after a step, if it does: the error of the work, or
/// the cancellation seen after work that succeeded.
pub open spec fn stop_after(step: Step, outcome: (Option<Seq<char>>, bool)) -> Option<Seq<char>> {
    match outcome.0 {
        Some(e) => Some(e),
        None => if step.check_cancel && outcome.1 {
            Some(cancel_message())
        } else {
            None
        },
    }
}

/// All events of a build that runs `steps` with these outcomes, and why it
/// stopped (`None` when every step ran to its end).
pub open spec fn trace(steps: Seq<Step>, outcomes: Seq<(Option<Seq<char>>, bool)>) -> (Seq<PipelineStageEvent>, Option<Seq<char>>)
    decreases steps.len(),
{
    if steps.len() == 0 {
        (seq![], None)
    } else {
        let step = steps[0];
        let o = outcomes[0];
        let here = start_events(step) + end_events(step, o.0 is None);
        match stop_after(step, o) {
            Some(e) => (here, Some(e)),
            None => {
                let rest = trace(steps.skip(1), outcomes.skip(1));
                (here + rest.0, rest.1)
            },
        }
    }
}

/// The events to announce before the work of a step.
pub fn begin_step(step: Step) -> (r: Vec<PipelineStageEvent>)
    ensures
        r@ == start_events(step),
{
    let mut r: Vec<PipelineStageEvent> = Vec::new();
    if step.announce {
        r.push(PipelineStageEvent { stage: step.stage, status: StageStatus::Running });
    }
    assert(r@ =~= start_events(step));
    r
}

/// The events to announce after the work of a step, and the error that
/// stops the build, if it stops.
pub fn end_step(step: Step, outcome: &WorkOutcome) -> (r: (Vec<PipelineStageEvent>, Option<String>))
    ensures
        r.0@ == end_events(step, outcome.error is None),
        match r.1 {
            Some(e) => stop_after(step, outcome_view(*outcome)) == Some(e@),
            None => stop_after(step, outcome_view(*outcome)) is None,
        },
{
    let mut events: Vec<PipelineStageEvent> = Vec::new();
    match &outcome.error {
        None => {
            if step.complete {
                events.push(PipelineStageEvent { stage: step.stage, status: StageStatus::Done });
            }
        },
        Some(_) => {
            if step.mark_failure {
                events.push(PipelineStageEvent { stage: step.stage, status: StageStatus::Failed });
            }
        },
    }
    assert(events@ =~= end_events(step, outcome.error is None));
    let stop = match &outcome.error {
        Some(e) => Some(e.clone()),
        None => if step.check_cancel && outcome.cancelled {
            Some(owned("Build cancelled by user"))
        } else {
            None
        },
    };
    (events, stop)
}

// ---------------------------------------------------------------------------
// The two plans
// ---------------------------------------------------------------------------

/// A step that announces `Running`, then `Done` or `Failed`, and stops a
/// cancelled build.
pub open spec fn full_step(stage: PipelineStage) -> Step {
    Step { stage, announce: true, complete: true, mark_failure: true, check_cancel: true }
}

/// A step with no work of its own: it only announces `Done`.
pub open spec fn done_step(stage: PipelineStage) -> Step {
    Step { stage, announce: false, complete: true, mark_failure: false, check_cancel: false }
}

/// The last step: copying the package out.  Its errors stop the build
/// without a `Failed` event, and nothing is checked after it.
pub open spec fn output_step() -> Step {
    Step {
        stage: PipelineStage::Output,
        announce: true,
        complete: true,
        mark_failure: false,
        check_cancel: false,
    }
}

/// The steps of a build through Cordova (RPG Maker MV/MZ, TyranoBuilder).
pub open spec fn cordova_steps() -> Seq<Step> {
    seq![
        full_step(PipelineStage::Validate),
        full_step(PipelineStage::Scaffold),
        full_step(PipelineStage::CopyAssets),
        full_step(PipelineStage::PatchConfig),
        full_step(PipelineStage::AddPlatform),
        full_step(PipelineStage::Build),
        full_step(PipelineStage::Align),
        full_step(PipelineStage::Sign),
        output_step(),
    ]
}

/// The steps of a Ren'Py build.  The Cordova stages only announce `Done`;
/// the build stage runs the packaging tool (a cancelled build stops after
/// it), then looks for the package; the tool signs, so aligning and signing
/// only announce `Done`.
pub open spec fn renpy_steps() -> Seq<Step> {
    seq![
        full_step(PipelineStage::Validate),
        done_step(PipelineStage::Scaffold),
        done_step(PipelineStage::CopyAssets),
        done_step(PipelineStage::PatchConfig),
        done_step(PipelineStage::AddPlatform),
        Step {
            stage: PipelineStage::Build,
            announce: true,
            complete: false,
            mark_failure: true,
            check_cancel: true,
        },
        Step {
            stage: PipelineStage::Build,
            announce: false,
            complete: true,
            mark_failure: true,
            check_cancel: true,
        },
        done_step(PipelineStage::Align),
        done_step(PipelineStage::Sign),
        output_step(),
    ]
}

fn step(stage: PipelineStage, announce: bool, complete: bool, mark_failure: bool, check_cancel: bool) -> (r: Step)
    ensures
        r == (Step { stage, announce, complete, mark_failure, check_cancel }),
{
    Step { stage, announce, complete, mark_failure, check_cancel }
}

/// The steps of a build through Cordova.
pub fn cordova_plan() -> (r: Vec<Step>)
    ensures
        r@ == cordova_steps(),
{
    let r = vec![
        step(PipelineStage::Validate, true, true, true, true),
        step(PipelineStage::Scaffold, true, true, true, true),
        step(PipelineStage::CopyAssets, true, true, true, true),
        step(PipelineStage::PatchConfig, true, true, true, true),
        step(PipelineStage::AddPlatform, true, true, true, true),
        step(PipelineStage::Build, true, true, true, true),
        step(PipelineStage::Align, true, true, true, true),
        step(PipelineStage::Sign, true, true, true, true),
        step(PipelineStage::Output, true, true, false, false),
    ];
    assert(r@ =~= cordova_steps());
    r
}

/// The steps of a Ren'Py build.
pub fn renpy_plan() -> (r: Vec<Step>)
    ensures
        r@ == renpy_steps(),
{
    let r = vec![
        step(PipelineStage::Validate, true, true, true, true),
        step(PipelineStage::Scaffold, false, true, false, false),
        step(PipelineStage::CopyAssets, false, true, false, false),
        step(PipelineStage::PatchConfig, false, true, false, false),
        step(PipelineStage::AddPlatform, false, true, false, false),
        step(PipelineStage::Build, true, false, true, true),
        step(PipelineStage::Build, false, true, true, true),
        step(PipelineStage::Align, false, true, false, false),
        step(PipelineStage::Sign, false, true, false, false),
        step(PipelineStage::Output, true, true, false, false),
    ];
    assert(r@ =~= renpy_steps());
    r
}

/// Whether the build goes through Ren'Py (engine `"RenPy"`) rather than
/// Cordova.
pub fn uses_renpy(options: &BuildOptions) -> (r: bool)
    ensures
        r == (options.engine@ == "RenPy"@),
{
    str_is(options.engine.as_str(), "RenPy")
}

/// The steps of the build that `options` asks for.
pub fn build_plan(options: &BuildOptions) -> (r: Vec<Step>)
    ensures
        r@ == if options.engine@ == "RenPy"@ {
            renpy_steps()
        } else {
            cordova_steps()
        },
{
    if uses_renpy(options) {
        renpy_plan()
    } else {
        cordova_plan()
    }
}

// ---------------------------------------------------------------------------
// The end of a build
// ---------------------------------------------------------------------------

/// What the front end is told when a build ends.
pub enum PipelineReport {
    /// The package was written.
    Finished(BuildResult),
    /// The build stopped; the message is worded for the user.
    Error(String),
}

/// What the front end is told when a build ends: the result, or the error
/// in friendlier words.
pub fn pipeline_report(outcome: Result<BuildResult, String>) -> (r: PipelineReport)
    ensures
        match outcome {
            Ok(b) => r == PipelineReport::Finished(b),
            Err(e) => r matches PipelineReport::Error(m) && m@ == translation(e@),
        },
{
    match outcome {
        Ok(b) => PipelineReport::Finished(b),
        Err(e) => PipelineReport::Error(translate(e.as_str())),
    }
}

// ---------------------------------------------------------------------------
// Laws of a build
// ---------------------------------------------------------------------------

/// The events of steps that all ran to their end.
pub open spec fn ran(steps: Seq<Step>) -> Seq<PipelineStageEvent>
    decreases steps.len(),
{
    if steps.len() == 0 {
        seq![]
    } else {
        start_events(steps[0]) + end_events(steps[0], true) + ran(steps.skip(1))
    }
}

/// No step stops the build before step `k`.
pub open spec fn runs_through(steps: Seq<Step>, outcomes: Seq<(Option<Seq<char>>, bool)>, k: int) -> bool {
    forall|i: int| 0 <= i < k ==> #[trigger] stop_after(steps[i], outcomes[i]) is None
}

/// When no step stops it, a build announces the events of every step run
/// to its end, and ends without an error.
pub proof fn lemma_build_runs_to_end(steps: Seq<Step>, outcomes: Seq<(Option<Seq<char>>, bool)>)
    requires
        outcomes.len() == steps.len(),
        runs_through(steps, outcomes, steps.len() as int),
    ensures
        trace(steps, outcomes) == (ran(steps), None::<Seq<char>>),
    decreases steps.len(),
{
    if steps.len() > 0 {
        assert(stop_after(steps[0], outcomes[0]) is None);
        assert forall|i: int| 0 <= i < steps.len() - 1 implies #[trigger] stop_after(steps.skip(1)[i], outcomes.skip(1)[i]) is None by {
            assert(stop_after(steps[i + 1], outcomes[i + 1]) is None);
        }
        lemma_build_runs_to_end(steps.skip(1), outcomes.skip(1));
    }
}

/// The first step that stops a build ends it: the events are those of the
/// steps before it run to their end, then its own, and the build ends with
/// the reason it stopped.
pub proof fn lemma_build_stops_at(steps: Seq<Step>, outcomes: Seq<(Option<Seq<char>>, bool)>, k: int)
    requires
        outcomes.len() == steps.len(),
        0 <= k < steps.len(),
        runs_through(steps, outcomes, k),
        stop_after(steps[k], outcomes[k]) is Some,
    ensures
        trace(steps, outcomes) == (
            ran(steps.take(k)) + start_events(steps[k]) + end_events(steps[k], outcomes[k].0 is None),
            stop_after(steps[k], outcomes[k]),
        ),
    decreases k,
{
    if k == 0 {
        assert(ran(steps.take(0)) =~= seq![]);
        assert(seq![] + start_events(steps[0]) + end_events(steps[0], outcomes[0].0 is None) =~= start_events(steps[0]) + end_events(steps[0], outcomes[0].0 is None));
    } else {
        assert(stop_after(steps[0], outcomes[0]) is None);
        assert forall|i: int| 0 <= i < k - 1 implies #[trigger] stop_after(steps.skip(1)[i], outcomes.skip(1)[i]) is None by {
            assert(stop_after(steps[i + 1], outcomes[i + 1]) is None);
        }
        lemma_build_stops_at(steps.skip(1), outcomes.skip(1), k - 1);
        let t = steps.take(k);
        assert(t[0] == steps[0]);
        assert(t.skip(1) =~= steps.skip(1).take(k - 1));
        let head = start_events(steps[0]) + end_events(steps[0], true);
        let tail = start_events(steps[k]) + end_events(steps[k], outcomes[k].0 is None);
        assert(ran(t) == head + ran(steps.skip(1).take(k - 1)));
        assert(head + (ran(steps.skip(1).take(k - 1)) + start_events(steps[k]) + end_events(steps[k], outcomes[k].0 is None)) =~= ran(t) + start_events(steps[k]) + end_events(steps[k], outcomes[k].0 is None));
    }
}

/// A build whose work fails at step `k` announces `Failed` for that stage as
/// its last event when the step marks failures, and ends with that error.
pub proof fn lemma_failure_ends_build(steps: Seq<Step>, outcomes: Seq<(Option<Seq<char>>, bool)>, k: int, e: Seq<char>)
    requires
        outcomes.len() == steps.len(),
        0 <= k < steps.len(),
        runs_through(steps, outcomes, k),
        outcomes[k].0 == Some(e),
    ensures
        trace(steps, outcomes).1 == Some(e),
        steps[k].mark_failure ==> trace(steps, outcomes).0.last() == event(steps[k].stage, StageStatus::Failed),
{
    lemma_build_stops_at(steps, outcomes, k);
}

/// A build cancelled by the user stops after the first step that checks,
/// once its work succeeded, with the cancel message; that step still
/// announces `Done` when it completes a stage.
pub proof fn lemma_cancel_ends_build(steps: Seq<Step>, outcomes: Seq<(Option<Seq<char>>, bool)>, k: int)
    requires
        outcomes.len() == steps.len(),
        0 <= k < steps.len(),
        runs_through(steps, outcomes, k),
        outcomes[k].0 is None,
        outcomes[k].1,
        steps[k].check_cancel,
    ensures
        trace(steps, outcomes) == (ran(steps.take(k + 1)), Some(cancel_message())),
{
    lemma_build_stops_at(steps, outcomes, k);
    let t = steps.take(k + 1);
    assert(t.take(k) =~= steps.take(k));
    lemma_ran_push(t);
}

/// The events of steps run to their end, one step more.
pub proof fn lemma_ran_push(steps: Seq<Step>)
    requires
        steps.len() > 0,
    ensures
        ran(steps) == ran(steps.take(steps.len() - 1)) + start_events(steps.last()) + end_events(steps.last(), true),
    decreases steps.len(),
{
    if steps.len() == 1 {
        assert(steps.take(0) =~= seq![]);
        assert(steps.skip(1) =~= seq![]);
        assert(ran(steps) =~= start_events(steps[0]) + end_events(steps[0], true));
        assert(ran(steps.take(0)) + start_events(steps.last()) + end_events(steps.last(), true) =~= start_events(steps[0]) + end_events(steps[0], true));
    } else {
        let s1 = steps.skip(1);
        lemma_ran_push(s1);
        assert(s1.take(s1.len() - 1) =~= steps.take(steps.len() - 1).skip(1));
        assert(s1.last() == steps.last());
        let p = steps.take(steps.len() - 1);
        assert(p[0] == steps[0]);
        let head = start_events(steps[0]) + end_events(steps[0], true);
        assert(ran(p) == head + ran(p.skip(1)));
        let last = start_events(steps.last()) + end_events(steps.last(), true);
        assert(head + (ran(p.skip(1)) + start_events(steps.last()) + end_events(steps.last(), true)) =~= ran(p) + start_events(steps.last()) + end_events(steps.last(), true));
    }
}

/// No event of a step run to its end is `Failed`.
proof fn lemma_ran_never_fails(steps: Seq<Step>)
    ensures
        forall|i: int| 0 <= i < ran(steps).len() ==> (#[trigger] ran(steps)[i]).status != StageStatus::Failed,
    decreases steps.len(),
{
    if steps.len() > 0 {
        lemma_ran_never_fails(steps.skip(1));
        let head = start_events(steps[0]) + end_events(steps[0], true);
        assert forall|i: int| 0 <= i < ran(steps).len() implies (#[trigger] ran(steps)[i]).status != StageStatus::Failed by {
            if i >= head.len() {
                assert(ran(steps)[i] == ran(steps.skip(1))[i - head.len()]);
            }
        }
    }
}

/// A build announces `Failed` at most once, as its last event.
pub proof fn lemma_failed_only_last(steps: Seq<Step>, outcomes: Seq<(Option<Seq<char>>, bool)>)
    requires
        outcomes.len() == steps.len(),
    ensures
        forall|i: int| 0 <= i < trace(steps, outcomes).0.len() - 1
            ==> (#[trigger] trace(steps, outcomes).0[i]).status != StageStatus::Failed,
{
    if exists|k: int| 0 <= k < steps.len() && #[trigger] stop_after(steps[k], outcomes[k]) is Some {
        let k = first_stop(steps, outcomes, steps.len() as int);
        lemma_build_stops_at(steps, outcomes, k);
        lemma_ran_never_fails(steps.take(k));
        let pre = ran(steps.take(k));
        let ev = trace(steps, outcomes).0;
        assert forall|i: int| 0 <= i < ev.len() - 1 implies (#[trigger] ev[i]).status != StageStatus::Failed by {
            if i < pre.len() {
                assert(ev[i] == pre[i]);
            } else {
                assert(ev[i] == (start_events(steps[k]) + end_events(steps[k], outcomes[k].0 is None))[i - pre.len()]);
            }
        }
    } else {
        lemma_build_runs_to_end(steps, outcomes);
        lemma_ran_never_fails(steps);
    }
}

/// The first step, before `n`, that stops the build.
proof fn first_stop(steps: Seq<Step>, outcomes: Seq<(Option<Seq<char>>, bool)>, n: int) -> (k: int)
    requires
        0 <= n <= steps.len(),
        n <= outcomes.len(),
        exists|k: int| 0 <= k < n && #[trigger] stop_after(steps[k], outcomes[k]) is Some,
    ensures
        0 <= k < n,
        stop_after(steps[k], outcomes[k]) is Some,
        runs_through(steps, outcomes, k),
    decreases n,
{
    if exists|k: int| 0 <= k < n - 1 && #[trigger] stop_after(steps[k], outcomes[k]) is Some {
        first_stop(steps, outcomes, n - 1)
    } else {
        n - 1
    }
}

/// The stages of a build, in the order in which they run.
pub open spec fn pipeline_stages() -> Seq<PipelineStage> {
    seq![
        PipelineStage::Validate,
        PipelineStage::Scaffold,
        PipelineStage::CopyAssets,
        PipelineStage::PatchConfig,
        PipelineStage::AddPlatform,
        PipelineStage::Build,
        PipelineStage::Align,
        PipelineStage::Sign,
        PipelineStage::Output,
    ]
}

/// `Running`, then `Done`, for each stage in turn.
pub open spec fn running_then_done(stages: Seq<PipelineStage>) -> Seq<PipelineStageEvent> {
    Seq::new(
        2 * stages.len(),
        |i: int|
            event(
                stages[i / 2],
                if i % 2 == 0 {
                    StageStatus::Running
                } else {
                    StageStatus::Done
                },
            ),
    )
}

/// No work fails and the build is never cancelled.
pub open spec fn all_succeed(outcomes: Seq<(Option<Seq<char>>, bool)>) -> bool {
    forall|i: int| 0 <= i < outcomes.len() ==> (#[trigger] outcomes[i]).0 is None && !outcomes[i].1
}

/// A Cordova build in which every step succeeds announces each of the nine
/// stages `Running` then `Done`, in order, and ends without an error.
pub proof fn lemma_cordova_build_succeeds(outcomes: Seq<(Option<Seq<char>>, bool)>)
    requires
        outcomes.len() == cordova_steps().len(),
        all_succeed(outcomes),
    ensures
        trace(cordova_steps(), outcomes) == (running_then_done(pipeline_stages()), None::<Seq<char>>),
{
    let steps = cordova_steps();
    assert forall|i: int| 0 <= i < steps.len() implies #[trigger] stop_after(steps[i], outcomes[i]) is None by {
        assert(outcomes[i].0 is None && !outcomes[i].1);
    }
    lemma_build_runs_to_end(steps, outcomes);
    reveal_with_fuel(ran, 10);
    assert(ran(steps) =~= running_then_done(pipeline_stages()));
}

/// A Ren'Py build in which every step succeeds announces: `Validate`
/// running then done; the four Cordova stages done; `Build` running then
/// done; `Align` and `Sign` done; `Output` running then done; and ends
/// without an error.
pub proof fn lemma_renpy_build_succeeds(outcomes: Seq<(Option<Seq<char>>, bool)>)
    requires
        outcomes.len() == renpy_steps().len(),
        all_succeed(outcomes),
    ensures
        trace(renpy_steps(), outcomes) == (
            seq![
                event(PipelineStage::Validate, StageStatus::Running),
                event(PipelineStage::Validate, StageStatus::Done),
                event(PipelineStage::Scaffold, StageStatus::Done),
                event(PipelineStage::CopyAssets, StageStatus::Done),
                event(PipelineStage::PatchConfig, StageStatus::Done),
                event(PipelineStage::AddPlatform, StageStatus::Done),
                event(PipelineStage::Build, StageStatus::Running),
                event(PipelineStage::Build, StageStatus::Done),
                event(PipelineStage::Align, StageStatus::Done),
                event(PipelineStage::Sign, StageStatus::Done),
                event(PipelineStage::Output, StageStatus::Running),
                event(PipelineStage::Output, StageStatus::Done),
            ],
            None::<Seq<char>>,
        ),
{
    let steps = renpy_steps();
    assert forall|i: int| 0 <= i < steps.len() implies #[trigger] stop_after(steps[i], outcomes[i]) is None by {
        assert(outcomes[i].0 is None && !outcomes[i].1);
    }
    lemma_build_runs_to_end(steps, outcomes);
    reveal_with_fuel(ran, 11);
    assert(ran(steps) =~= seq![
        event(PipelineStage::Validate, StageStatus::Running),
        event(PipelineStage::Validate, StageStatus::Done),
        event(PipelineStage::Scaffold, StageStatus::Done),
        event(PipelineStage::CopyAssets, StageStatus::Done),
        event(PipelineStage::PatchConfig, StageStatus::Done),
        event(PipelineStage::AddPlatform, StageStatus::Done),
        event(PipelineStage::Build, StageStatus::Running),
        event(PipelineStage::Build, StageStatus::Done),
        event(PipelineStage::Align, StageStatus::Done),
        event(PipelineStage::Sign, StageStatus::Done),
        event(PipelineStage::Output, StageStatus::Running),
        event(PipelineStage::Output, StageStatus::Done),
    ]);
}

/// The stages of some steps, in order.
pub open spec fn stages_of(steps: Seq<Step>) -> Seq<PipelineStage> {
    steps.map_values(|st: Step| st.stage)
}

/// Steps that each announce `Running` and `Done`.
pub open spec fn all_announced(steps: Seq<Step>) -> bool {
    forall|i: int| 0 <= i < steps.len() ==> (#[trigger] steps[i]).announce && steps[i].complete
}

proof fn lemma_ran_announced(steps: Seq<Step>)
    requires
        all_announced(steps),
    ensures
        ran(steps) == running_then_done(stages_of(steps)),
    decreases steps.len(),
{
    if steps.len() == 0 {
        assert(running_then_done(stages_of(steps)) =~= seq![]);
    } else {
        let rest = steps.skip(1);
        assert(all_announced(rest)) by {
            assert forall|i: int| 0 <= i < rest.len() implies (#[trigger] rest[i]).announce && rest[i].complete by {
                assert(rest[i] == steps[i + 1]);
            }
        }
        lemma_ran_announced(rest);
        assert(steps[0].announce && steps[0].complete);
        assert(stages_of(rest) =~= stages_of(steps).skip(1));
        assert(ran(steps) =~= running_then_done(stages_of(steps)));
    }
}

/// The events of a Cordova build come in the fixed order: `Running` then
/// `Done` for each stage in turn, cut off where the build stopped, and
/// possibly followed by one `Failed` for the stage that was last announced
/// `Running`.  The build ends without an error exactly when the whole list
/// was announced.
pub proof fn lemma_cordova_events_in_order(outcomes: Seq<(Option<Seq<char>>, bool)>)
    requires
        outcomes.len() == cordova_steps().len(),
    ensures
        ({
            let t = trace(cordova_steps(), outcomes);
            let full = running_then_done(pipeline_stages());
            &&& (t.1 is None <==> t.0 == full)
            &&& (exists|n: int| 0 <= n <= full.len() && t.0 == full.take(n)) || (exists|k: int|
                0 <= k < pipeline_stages().len() && t.0 == full.take(2 * k + 1).push(
                    event(pipeline_stages()[k], StageStatus::Failed),
                ))
        }),
{
    let steps = cordova_steps();
    let ps = pipeline_stages();
    let full = running_then_done(ps);
    assert(stages_of(steps) =~= ps);
    assert forall|i: int| 0 <= i < steps.len() implies (#[trigger] steps[i]).announce && steps[i].complete
        && steps[i].stage == ps[i] && (steps[i].check_cancel <==> i < 8) && (steps[i].mark_failure <==> i < 8) by {
        assert(stages_of(steps)[i] == steps[i].stage);
    }
    assert(all_announced(steps));
    let t = trace(steps, outcomes);
    if exists|k: int| 0 <= k < steps.len() && #[trigger] stop_after(steps[k], outcomes[k]) is Some {
        let k = first_stop(steps, outcomes, steps.len() as int);
        lemma_build_stops_at(steps, outcomes, k);
        let pre = steps.take(k);
        assert(all_announced(pre)) by {
            assert forall|i: int| 0 <= i < pre.len() implies (#[trigger] pre[i]).announce && pre[i].complete by {
                assert(pre[i] == steps[i]);
            }
        }
        lemma_ran_announced(pre);
        assert(stages_of(pre) =~= ps.take(k));
        assert(running_then_done(ps.take(k)) =~= full.take(2 * k));
        assert(start_events(steps[k]) =~= seq![full[2 * k]]);
        if outcomes[k].0 is None {
            assert(k < 8);
            assert(end_events(steps[k], true) =~= seq![full[2 * k + 1]]);
            assert(t.0 =~= full.take(2 * k + 2));
        } else if k < 8 {
            assert(t.0 =~= full.take(2 * k + 1).push(event(ps[k], StageStatus::Failed)));
        } else {
            assert(end_events(steps[k], false) =~= seq![]);
            assert(t.0 =~= full.take(17));
        }
        assert(t.0.len() < full.len());
    } else {
        assert forall|i: int| 0 <= i < steps.len() implies #[trigger] stop_after(steps[i], outcomes[i]) is None by {}
        lemma_build_runs_to_end(steps, outcomes);
        lemma_ran_announced(steps);
        assert(full.take(full.len() as int) =~= full);
    }
}

} // verus!

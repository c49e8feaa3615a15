use vn2apk::pipeline::flow::{
    begin_step, build_plan, cordova_plan, end_step, pipeline_report, renpy_plan, uses_renpy,
    PipelineReport, Step, WorkOutcome,
};
use vn2apk::pipeline::types::{BuildOptions, BuildResult, PipelineStage, PipelineStageEvent, StageStatus};

fn ok() -> WorkOutcome {
    WorkOutcome { error: None, cancelled: false }
}

/// Runs a plan the way the front end does, with one outcome per step.
fn run(plan: &[Step], outcomes: Vec<WorkOutcome>) -> (Vec<PipelineStageEvent>, Option<String>) {
    let mut events = Vec::new();
    for (step, outcome) in plan.iter().zip(outcomes.iter()) {
        events.extend(begin_step(*step));
        let (after, stop) = end_step(*step, outcome);
        events.extend(after);
        if stop.is_some() {
            return (events, stop);
        }
    }
    (events, None)
}

fn ev(stage: PipelineStage, status: StageStatus) -> PipelineStageEvent {
    PipelineStageEvent { stage, status }
}

fn options(engine: &str) -> BuildOptions {
    BuildOptions {
        app_id: "com.vn2apk.demo".to_string(),
        app_name: "Demo".to_string(),
        version_name: "1.0".to_string(),
        version_code: 1,
        icon_path: None,
        storepass: "s".to_string(),
        keypass: "k".to_string(),
        engine: engine.to_string(),
    }
}

const STAGES: [PipelineStage; 9] = [
    PipelineStage::Validate,
    PipelineStage::Scaffold,
    PipelineStage::CopyAssets,
    PipelineStage::PatchConfig,
    PipelineStage::AddPlatform,
    PipelineStage::Build,
    PipelineStage::Align,
    PipelineStage::Sign,
    PipelineStage::Output,
];

#[test]
fn cordova_success_runs_every_stage_in_order() {
    let plan = cordova_plan();
    assert_eq!(plan.len(), 9);
    let (events, stop) = run(&plan, (0..9).map(|_| ok()).collect());
    let mut want = Vec::new();
    for s in STAGES {
        want.push(ev(s, StageStatus::Running));
        want.push(ev(s, StageStatus::Done));
    }
    assert_eq!(events, want);
    assert_eq!(stop, None);
}

#[test]
fn renpy_success_marks_cordova_stages_done() {
    let plan = renpy_plan();
    let (events, stop) = run(&plan, (0..plan.len()).map(|_| ok()).collect());
    type P = PipelineStage;
    type S = StageStatus;
    assert_eq!(
        events,
        vec![
            ev(P::Validate, S::Running),
            ev(P::Validate, S::Done),
            ev(P::Scaffold, S::Done),
            ev(P::CopyAssets, S::Done),
            ev(P::PatchConfig, S::Done),
            ev(P::AddPlatform, S::Done),
            ev(P::Build, S::Running),
            ev(P::Build, S::Done),
            ev(P::Align, S::Done),
            ev(P::Sign, S::Done),
            ev(P::Output, S::Running),
            ev(P::Output, S::Done),
        ]
    );
    assert_eq!(stop, None);
}

#[test]
fn failure_marks_stage_failed_and_stops() {
    let plan = cordova_plan();
    let mut outcomes: Vec<WorkOutcome> = (0..9).map(|_| ok()).collect();
    outcomes[5] = WorkOutcome { error: Some("gradle exited with exit status: 255".to_string()), cancelled: false };
    let (events, stop) = run(&plan, outcomes);
    assert_eq!(events.last(), Some(&ev(PipelineStage::Build, StageStatus::Failed)));
    assert_eq!(events.len(), 2 * 5 + 2);
    assert_eq!(stop.as_deref(), Some("gradle exited with exit status: 255"));
    let failed = events.iter().filter(|e| e.status == StageStatus::Failed).count();
    assert_eq!(failed, 1);
}

#[test]
fn output_failure_has_no_failed_event() {
    let plan = cordova_plan();
    let mut outcomes: Vec<WorkOutcome> = (0..9).map(|_| ok()).collect();
    outcomes[8] = WorkOutcome { error: Some("Permission denied".to_string()), cancelled: false };
    let (events, stop) = run(&plan, outcomes);
    assert_eq!(events.last(), Some(&ev(PipelineStage::Output, StageStatus::Running)));
    assert!(events.iter().all(|e| e.status != StageStatus::Failed));
    assert_eq!(stop.as_deref(), Some("Permission denied"));
}

#[test]
fn cancel_stops_after_completed_stage() {
    let plan = cordova_plan();
    let mut outcomes: Vec<WorkOutcome> = (0..9).map(|_| ok()).collect();
    outcomes[1] = WorkOutcome { error: None, cancelled: true };
    let (events, stop) = run(&plan, outcomes);
    assert_eq!(events.len(), 4);
    assert_eq!(events.last(), Some(&ev(PipelineStage::Scaffold, StageStatus::Done)));
    assert_eq!(stop.as_deref(), Some("Build cancelled by user"));
}

#[test]
fn renpy_cancel_during_build_stops_before_done() {
    let plan = renpy_plan();
    let mut outcomes: Vec<WorkOutcome> = (0..plan.len()).map(|_| ok()).collect();
    outcomes[5] = WorkOutcome { error: None, cancelled: true };
    let (events, stop) = run(&plan, outcomes);
    assert_eq!(events.last(), Some(&ev(PipelineStage::Build, StageStatus::Running)));
    assert_eq!(stop.as_deref(), Some("Build cancelled by user"));
}

#[test]
fn cancel_is_not_checked_by_quiet_steps() {
    let plan = renpy_plan();
    let mut outcomes: Vec<WorkOutcome> = (0..plan.len()).map(|_| ok()).collect();
    outcomes[2] = WorkOutcome { error: None, cancelled: true };
    let (_, stop) = run(&plan, outcomes);
    assert_eq!(stop, None);
}

#[test]
fn begin_and_end_of_one_step() {
    let step = cordova_plan()[0];
    assert_eq!(begin_step(step), vec![ev(PipelineStage::Validate, StageStatus::Running)]);
    let (after, stop) = end_step(step, &WorkOutcome { error: Some("Missing www/index.html".to_string()), cancelled: true });
    assert_eq!(after, vec![ev(PipelineStage::Validate, StageStatus::Failed)]);
    assert_eq!(stop.as_deref(), Some("Missing www/index.html"));
}

#[test]
fn engine_chooses_plan() {
    assert!(uses_renpy(&options("RenPy")));
    assert!(!uses_renpy(&options("RpgMakerMV")));
    assert!(!uses_renpy(&options("renpy")));
    assert_eq!(build_plan(&options("RenPy")).len(), 10);
    assert_eq!(build_plan(&options("TyranoBuilder")).len(), 9);
}

#[test]
fn report_translates_errors() {
    match pipeline_report(Err("No space left on device".to_string())) {
        PipelineReport::Error(m) => assert_eq!(m, "Not enough disk space. Free up space in /tmp and try again."),
        PipelineReport::Finished(_) => panic!("expected an error"),
    }
    let result = BuildResult { apk_path: "/out/Demo-1.0.apk".to_string(), warnings: vec!["w".to_string()] };
    match pipeline_report(Ok(result)) {
        PipelineReport::Finished(b) => {
            assert_eq!(b.apk_path, "/out/Demo-1.0.apk");
            assert_eq!(b.warnings, vec!["w".to_string()]);
        }
        PipelineReport::Error(_) => panic!("expected a result"),
    }
}

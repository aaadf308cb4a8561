//! The build pipeline driven through simulated outcomes: the happy path,
//! the conflict path that never reaches a clone, and every failure
//! diagnostic.

use hexstack::errors::{ConflictError, NameError};
use hexstack::pipeline::{
    BuildAction, BuildPipeline, BuildState, FailureKind, ResetOutcome, StepName,
};
use hexstack::setup::ProjectSetup;

fn pipeline(name: &str, components: &[&str], frontend: Option<&str>) -> BuildPipeline {
    let setup = ProjectSetup::new(
        name.to_string(),
        components.iter().map(|s| s.to_string()).collect(),
        frontend.map(|s| s.to_string()),
    );
    BuildPipeline::new(setup)
}

#[test]
fn test_pipeline_happy_path_single_component() {
    // Components {"ripress"}, frontend absent: the single-component template
    // is resolved, the step count is 2, and the summary lists one recognized
    // component description and the template name
    let mut p = pipeline("my-app", &["ripress"], None);
    assert_eq!(p.steps_total(), 2);
    assert_eq!(p.state, BuildState::NotStarted);

    let a = p.begin(false, false);
    match a {
        BuildAction::RunClone { url, dest } => {
            assert_eq!(url, "https://github.com/Guru901/ripress-only");
            assert_eq!(dest, "my-app");
        }
        other => panic!("expected a clone request, got {:?}", other),
    }
    assert_eq!(p.state, BuildState::Materializing);
    assert_eq!(p.steps_done, 0);

    let a = p.on_clone_result(true, "");
    match a {
        BuildAction::ResetHistory { dest } => assert_eq!(dest, "my-app"),
        other => panic!("expected a history reset, got {:?}", other),
    }

    let a = p.on_reset_result(ResetOutcome::Done);
    match a {
        BuildAction::ProbeWorkdir { dest } => assert_eq!(dest, "my-app"),
        other => panic!("expected a workdir probe, got {:?}", other),
    }
    assert_eq!(p.steps_done, 1);

    let a = p.on_workdir_probe(false);
    match a {
        BuildAction::RunRefresh { workdir } => assert_eq!(workdir, "my-app"),
        other => panic!("expected a refresh request, got {:?}", other),
    }

    let a = p.on_refresh_result(true, "");
    match a {
        BuildAction::Finish(summary) => {
            assert_eq!(summary.template_name, Some("Ripress Basic".to_string()));
            assert_eq!(summary.frontend, None);
            assert_eq!(
                summary.components,
                vec![(
                    "ripress".to_string(),
                    "An HTTP Framework with best in class developer experience".to_string()
                )]
            );
        }
        other => panic!("expected completion, got {:?}", other),
    }
    assert_eq!(p.state, BuildState::Completed);
    assert_eq!(p.steps_done, 2);
}

#[test]
fn test_pipeline_react_pair_resolves_combined_react_template() {
    // Components {"ripress","wynd"} with frontend "react" resolve to the
    // three-way-prioritized combined React template
    let mut p = pipeline("my-app", &["ripress", "wynd"], Some("react"));
    let a = p.begin(false, false);
    match a {
        BuildAction::RunClone { url, dest } => {
            assert_eq!(url, "https://github.com/Guru901/ripress-wynd-react");
            assert_eq!(dest, "my-app");
        }
        other => panic!("expected a clone request, got {:?}", other),
    }
}

#[test]
fn test_pipeline_conflict_fails_before_any_clone() {
    // An occupied destination fails the build at the validate step; no clone
    // or other external action is ever requested
    let mut p = pipeline("existing-project", &["ripress"], None);
    let a = p.begin(true, true);
    match a {
        BuildAction::Fail(e) => {
            assert_eq!(e.step, StepName::Validate);
            assert_eq!(
                e.kind,
                FailureKind::Conflict(ConflictError::DirectoryExists)
            );
            assert!(e.cause.starts_with("Directory 'existing-project' already exists!"));
        }
        other => panic!("expected a validation failure, got {:?}", other),
    }
    assert_eq!(p.state, BuildState::Failed);
    assert_eq!(p.steps_done, 0);
}

#[test]
fn test_pipeline_invalid_name_fails_at_validate() {
    let mut p = pipeline("", &[], None);
    let a = p.begin(false, false);
    match a {
        BuildAction::Fail(e) => {
            assert_eq!(e.step, StepName::Validate);
            assert_eq!(e.kind, FailureKind::InvalidName(NameError::Empty));
            assert_eq!(e.cause, "Project name cannot be empty");
        }
        other => panic!("expected a validation failure, got {:?}", other),
    }
    assert_eq!(p.state, BuildState::Failed);
}

#[test]
fn test_pipeline_without_template_skips_materialization() {
    let mut p = pipeline("my-app", &[], None);
    let a = p.begin(false, false);
    match a {
        BuildAction::ProbeWorkdir { dest } => assert_eq!(dest, "my-app"),
        other => panic!("expected a workdir probe, got {:?}", other),
    }
    assert_eq!(p.state, BuildState::LocatingWorkdir);
    assert_eq!(p.steps_done, 1);

    let a = p.on_workdir_probe(true);
    match a {
        BuildAction::RunRefresh { workdir } => assert_eq!(workdir, "my-app/backend"),
        other => panic!("expected a refresh request, got {:?}", other),
    }

    let a = p.on_refresh_result(true, "");
    match a {
        BuildAction::Finish(summary) => {
            assert_eq!(summary.template_name, None);
            assert!(summary.components.is_empty());
        }
        other => panic!("expected completion, got {:?}", other),
    }
}

#[test]
fn test_pipeline_clone_failure_diagnostic() {
    let mut p = pipeline("my-app", &["wynd"], None);
    p.begin(false, false);
    let a = p.on_clone_result(false, "fatal: repository not found");
    match a {
        BuildAction::Fail(e) => {
            assert_eq!(e.step, StepName::Materialize);
            assert_eq!(e.kind, FailureKind::TemplateTransport);
            assert_eq!(
                e.cause,
                "Failed to clone template 'Wynd Basic': fatal: repository not found\n\nThis could be due to:\n- Network connectivity issues\n- Invalid template URL\n- Directory already exists\n- Git not installed\n\nTry running: git clone https://github.com/Guru901/wynd-only my-app"
            );
        }
        other => panic!("expected a transport failure, got {:?}", other),
    }
    assert_eq!(p.state, BuildState::Failed);
}

#[test]
fn test_pipeline_history_reset_failure_diagnostics() {
    let mut p = pipeline("my-app", &["ripress"], None);
    p.begin(false, false);
    p.on_clone_result(true, "");
    let a = p.on_reset_result(ResetOutcome::InitFailed("exec error".to_string()));
    match a {
        BuildAction::Fail(e) => {
            assert_eq!(e.step, StepName::Materialize);
            assert_eq!(e.kind, FailureKind::VersionControl);
            assert_eq!(e.cause, "Failed to initialize git repository: exec error");
        }
        other => panic!("expected a version-control failure, got {:?}", other),
    }

    let mut p = pipeline("my-app", &["ripress"], None);
    p.begin(false, false);
    p.on_clone_result(true, "");
    let a = p.on_reset_result(ResetOutcome::RemoveFailed("permission denied".to_string()));
    match a {
        BuildAction::Fail(e) => {
            assert_eq!(e.kind, FailureKind::VersionControl);
            assert_eq!(
                e.cause,
                "Failed to remove .git directory from cloned template: permission denied"
            );
        }
        other => panic!("expected a version-control failure, got {:?}", other),
    }
}

#[test]
fn test_pipeline_refresh_failure_diagnostic() {
    let mut p = pipeline("my-app", &[], None);
    p.begin(false, false);
    p.on_workdir_probe(false);
    let a = p.on_refresh_result(false, "no lockfile");
    match a {
        BuildAction::Fail(e) => {
            assert_eq!(e.step, StepName::RefreshDependencies);
            assert_eq!(e.kind, FailureKind::DependencyRefresh);
            assert_eq!(e.cause, "Failed to run 'cargo update' in 'my-app': no lockfile");
        }
        other => panic!("expected a refresh failure, got {:?}", other),
    }
    assert_eq!(p.state, BuildState::Failed);
}

#[test]
fn test_pipeline_summary_omits_unknown_components_and_keeps_frontend() {
    let mut p = pipeline("my-app", &["wynd", "extraUnknown"], Some("react"));
    let a = p.begin(false, false);
    match a {
        BuildAction::RunClone { url, .. } => {
            assert_eq!(url, "https://github.com/Guru901/wynd-react");
        }
        other => panic!("expected a clone request, got {:?}", other),
    }
    p.on_clone_result(true, "");
    p.on_reset_result(ResetOutcome::Done);
    p.on_workdir_probe(false);
    let a = p.on_refresh_result(true, "");
    match a {
        BuildAction::Finish(summary) => {
            assert_eq!(summary.template_name, Some("Wynd + React".to_string()));
            assert_eq!(summary.frontend, Some("react".to_string()));
            assert_eq!(
                summary.components,
                vec![(
                    "wynd".to_string(),
                    "An Event Driven WebSocket library".to_string()
                )]
            );
        }
        other => panic!("expected completion, got {:?}", other),
    }
}

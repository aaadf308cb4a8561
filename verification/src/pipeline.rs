//! The build pipeline as an explicit state machine: validation, resolution,
//! materialization, history reset and dependency refresh, with a terminal
//! failure state reachable from every step.
//!
//! The pipeline itself performs no I/O. Each method returns the next
//! [`BuildAction`] for the caller to perform (spawn the clone, reset version
//! control, probe the working directory, run the dependency refresh); the
//! caller reports each outcome back through the matching `on_*` method, and
//! the pipeline decides the next transition. Validation and resolution are
//! pure, so [`BuildPipeline::begin`] crosses them in one call; no clone is
//! ever requested when validation fails.

use vstd::prelude::*;

use crate::errors::{
    conflict_error_text, name_error_text, ConflictError, NameError,
};
use crate::registry::{component_catalog, spec_lookup, template_catalog, ProjectTemplate};
use crate::setup::{conflict_check, name_check, ProjectSetup};

verus! {

/// The pipeline step in which a failure occurred.
#[derive(Debug, Clone, Copy, PartialEq, Eq, Structural)]
pub enum StepName {
    Validate,
    Resolve,
    Materialize,
    RefreshDependencies,
}

/// The failure taxonomy: every variant is terminal for the current build.
#[derive(Debug, Clone, Copy, PartialEq, Eq, Structural)]
pub enum FailureKind {
    /// The project name violates a naming rule.
    InvalidName(NameError),
    /// The destination is already occupied.
    Conflict(ConflictError),
    /// The template clone failed.
    TemplateTransport,
    /// Removing the inherited history or reinitializing tracking failed.
    VersionControl,
    /// The dependency-lock refresh failed.
    DependencyRefresh,
}

/// A terminal pipeline failure: the failing step, its kind, and a
/// human-readable cause suitable for direct display.
#[derive(Debug)]
pub struct PipelineError {
    pub step: StepName,
    pub kind: FailureKind,
    pub cause: String,
}

/// The success report: resolved template name, frontend, and the recognized
/// components with their descriptions, in selection order.
#[derive(Debug)]
pub struct Summary {
    pub template_name: Option<String>,
    pub frontend: Option<String>,
    pub components: Vec<(String, String)>,
}

/// The pipeline's observable states between caller interactions.
#[derive(Debug, Clone, Copy, PartialEq, Eq, Structural)]
pub enum BuildState {
    /// No step has run.
    NotStarted,
    /// A template clone was requested and its outcome is awaited.
    Materializing,
    /// The clone succeeded; the history reset is awaited.
    ResettingHistory,
    /// Materialization is done; the working-directory probe is awaited.
    LocatingWorkdir,
    /// The dependency refresh was requested and its outcome is awaited.
    RefreshingDependencies,
    /// Every step succeeded.
    Completed,
    /// A step failed; the pipeline is terminal.
    Failed,
}

/// What the caller must do next.
#[derive(Debug)]
pub enum BuildAction {
    /// Clone the template source at `url` into the directory `dest` and
    /// report the outcome through `on_clone_result`.
    RunClone { url: String, dest: String },
    /// Remove version-control metadata inherited from the template under
    /// `dest`, reinitialize fresh tracking there, and report the outcome
    /// through `on_reset_result`.
    ResetHistory { dest: String },
    /// Report through `on_workdir_probe` whether `dest` holds a `backend`
    /// subdirectory.
    ProbeWorkdir { dest: String },
    /// Run the dependency-lock refresh in `workdir` and report the outcome
    /// through `on_refresh_result`.
    RunRefresh { workdir: String },
    /// The build completed; nothing is left to do.
    Finish(Summary),
    /// The build failed; nothing is left to do.
    Fail(PipelineError),
}

/// The outcome of the history reset the caller performed.
#[derive(Debug)]
pub enum ResetOutcome {
    /// Metadata removed (or none present) and tracking reinitialized.
    Done,
    /// Removing the inherited metadata failed, with the underlying detail.
    RemoveFailed(String),
    /// Reinitializing tracking failed, with the tool's diagnostic output.
    InitFailed(String),
}

/// The recognized components of a selection, each with its description, in
/// selection order; unknown identifiers are omitted.
pub open spec fn recognized_components(comps: Seq<Seq<char>>) -> Seq<(Seq<char>, Seq<char>)>
    decreases comps.len(),
{
    if comps.len() == 0 {
        Seq::empty()
    } else {
        let rest = recognized_components(comps.drop_last());
        match spec_lookup(component_catalog(), comps.last()) {
            Some(d) => rest.push((comps.last(), d)),
            None => rest,
        }
    }
}

/// The diagnostic for a failed template clone: the tool's output plus a
/// suggested manual retry command naming the resolved source location.
pub open spec fn clone_failure_text(
    tname: Seq<char>,
    stderr: Seq<char>,
    url: Seq<char>,
    dest: Seq<char>,
) -> Seq<char> {
    "Failed to clone template '"@ + tname + "': "@ + stderr
        + "\n\nThis could be due to:\n- Network connectivity issues\n- Invalid template URL\n- Directory already exists\n- Git not installed\n\nTry running: git clone "@
        + url + " "@ + dest
}

/// The diagnostic for a failed removal of inherited version-control metadata.
pub open spec fn remove_failure_text(detail: Seq<char>) -> Seq<char> {
    "Failed to remove .git directory from cloned template: "@ + detail
}

/// The diagnostic for a failed reinitialization of version-control tracking.
pub open spec fn init_failure_text(stderr: Seq<char>) -> Seq<char> {
    "Failed to initialize git repository: "@ + stderr
}

/// The diagnostic for a failed dependency-lock refresh in the project.
pub open spec fn refresh_failure_text(name: Seq<char>, stderr: Seq<char>) -> Seq<char> {
    "Failed to run 'cargo update' in '"@ + name + "': "@ + stderr
}

/// Whether a summary reports exactly what the pipeline resolved: the
/// template name if one was resolved, the frontend as selected, and the
/// recognized component descriptions in selection order.
pub open spec fn summary_matches(
    setup: ProjectSetup,
    resolved: Option<ProjectTemplate>,
    s: Summary,
) -> bool {
    &&& match (s.template_name, resolved) {
        (Some(n), Some(t)) => n@ == t.name@,
        (None, None) => true,
        _ => false,
    }
    &&& s.frontend.deep_view() == setup.selected_frontend.deep_view()
    &&& s.components.deep_view() == recognized_components(setup.selected_components.deep_view())
}

/// One build invocation: the working state, the resolved template if any,
/// the observable state, and the step counter.
pub struct BuildPipeline {
    pub setup: ProjectSetup,
    pub resolved: Option<ProjectTemplate>,
    pub state: BuildState,
    pub steps_done: u64,
}

impl BuildPipeline {
    /// The resolved template recorded in the pipeline agrees with what the
    /// resolver selects for the setup.
    pub open spec fn resolved_agrees(&self) -> bool {
        match self.resolved {
            Some(t) => self.setup.spec_resolved_key() is Some && spec_lookup(
                template_catalog(),
                self.setup.spec_resolved_key()->Some_0,
            ) == Some(t@),
            None => self.setup.spec_resolved_key() is None,
        }
    }

    /// Pipeline well-formedness: the catalogs are loaded, the recorded
    /// template agrees with the resolver once resolution ran, and the step
    /// counter matches the state.
    pub open spec fn wf(&self) -> bool {
        &&& self.setup.wf()
        &&& match self.state {
            BuildState::NotStarted => self.resolved is None && self.steps_done == 0,
            BuildState::Materializing => self.resolved is Some && self.resolved_agrees()
                && self.steps_done == 0,
            BuildState::ResettingHistory => self.resolved is Some && self.resolved_agrees()
                && self.steps_done == 0,
            BuildState::LocatingWorkdir => self.resolved_agrees() && self.steps_done == 1,
            BuildState::RefreshingDependencies => self.resolved_agrees() && self.steps_done == 1,
            BuildState::Completed => self.resolved_agrees() && self.steps_done == 2,
            BuildState::Failed => self.steps_done <= 2,
        }
    }

    /// Wraps a setup into a fresh pipeline; no step has run.
    pub fn new(setup: ProjectSetup) -> (r: BuildPipeline)
        requires
            setup.wf(),
        ensures
            r.wf(),
            r.setup == setup,
            r.state == BuildState::NotStarted,
            r.steps_done == 0,
    {
        BuildPipeline { setup, resolved: None, state: BuildState::NotStarted, steps_done: 0 }
    }

    /// The fixed number of progress steps, computed before the first step
    /// starts: one for materialization, one for the dependency refresh.
    pub fn steps_total(&self) -> (r: u64)
        ensures
            r == 2,
    {
        2
    }

    /// Runs validation and resolution, in that order, and requests the first
    /// external action. Validation failures are terminal before any
    /// mutation: an invalid name or an occupied destination yields `Fail`
    /// and no clone is ever requested. An absent template is no failure:
    /// materialization is skipped and the probe of the working directory is
    /// requested directly.
    pub fn begin(&mut self, dest_exists: bool, dest_is_dir: bool) -> (a: BuildAction)
        requires
            old(self).wf(),
            old(self).state == BuildState::NotStarted,
        ensures
            final(self).wf(),
            final(self).setup == old(self).setup,
            name_check(old(self).setup.name@) is Err ==> final(self).state == BuildState::Failed
                && match a {
                BuildAction::Fail(e) => e.step == StepName::Validate && e.kind
                    == FailureKind::InvalidName(name_check(old(self).setup.name@)->Err_0)
                    && e.cause@ == name_error_text(name_check(old(self).setup.name@)->Err_0),
                _ => false,
            },
            name_check(old(self).setup.name@) is Ok && conflict_check(dest_exists, dest_is_dir)
                is Err ==> final(self).state == BuildState::Failed && match a {
                BuildAction::Fail(e) => e.step == StepName::Validate && e.kind
                    == FailureKind::Conflict(conflict_check(dest_exists, dest_is_dir)->Err_0)
                    && e.cause@ == conflict_error_text(
                    conflict_check(dest_exists, dest_is_dir)->Err_0,
                    old(self).setup.name@,
                ),
                _ => false,
            },
            name_check(old(self).setup.name@) is Ok && conflict_check(dest_exists, dest_is_dir)
                is Ok && old(self).setup.spec_resolved_key() is Some ==> final(self).state
                == BuildState::Materializing && final(self).steps_done == 0 && match a {
                BuildAction::RunClone { url, dest } => url@ == spec_lookup(
                    template_catalog(),
                    old(self).setup.spec_resolved_key()->Some_0,
                )->Some_0.github_url && dest@ == old(self).setup.name@,
                _ => false,
            },
            name_check(old(self).setup.name@) is Ok && conflict_check(dest_exists, dest_is_dir)
                is Ok && old(self).setup.spec_resolved_key() is None ==> final(self).state
                == BuildState::LocatingWorkdir && final(self).steps_done == 1 && match a {
                BuildAction::ProbeWorkdir { dest } => dest@ == old(self).setup.name@,
                _ => false,
            },
    {
        match self.setup.validate_project_name() {
            Ok(()) => {},
            Err(e) => {
                self.state = BuildState::Failed;
                return BuildAction::Fail(
                    PipelineError {
                        step: StepName::Validate,
                        kind: FailureKind::InvalidName(e),
                        cause: e.message(),
                    },
                );
            },
        }
        match self.setup.check_directory_conflict(dest_exists, dest_is_dir) {
            Ok(()) => {},
            Err(e) => {
                self.state = BuildState::Failed;
                return BuildAction::Fail(
                    PipelineError {
                        step: StepName::Validate,
                        kind: FailureKind::Conflict(e),
                        cause: e.message(self.setup.name.as_str()),
                    },
                );
            },
        }
        let resolved: Option<ProjectTemplate> = match self.setup.determine_template() {
            Some(t) => Some(
                ProjectTemplate { name: t.name.clone(), github_url: t.github_url.clone() },
            ),
            None => None,
        };
        match resolved {
            Some(t) => {
                let url: String = t.github_url.clone();
                let dest: String = self.setup.name.clone();
                self.resolved = Some(t);
                self.state = BuildState::Materializing;
                BuildAction::RunClone { url, dest }
            },
            None => {
                self.resolved = None;
                self.state = BuildState::LocatingWorkdir;
                self.steps_done = 1;
                BuildAction::ProbeWorkdir { dest: self.setup.name.clone() }
            },
        }
    }

    /// Takes the clone outcome: on success the history reset is requested;
    /// on failure the pipeline fails with the transport diagnostic, which
    /// names the resolved source location and a manual retry command.
    pub fn on_clone_result(&mut self, success: bool, stderr: &str) -> (a: BuildAction)
        requires
            old(self).wf(),
            old(self).state == BuildState::Materializing,
        ensures
            final(self).wf(),
            final(self).setup == old(self).setup,
            final(self).resolved == old(self).resolved,
            success ==> final(self).state == BuildState::ResettingHistory && match a {
                BuildAction::ResetHistory { dest } => dest@ == old(self).setup.name@,
                _ => false,
            },
            !success ==> final(self).state == BuildState::Failed && match a {
                BuildAction::Fail(e) => e.step == StepName::Materialize && e.kind
                    == FailureKind::TemplateTransport && e.cause@ == clone_failure_text(
                    old(self).resolved->Some_0.name@,
                    stderr@,
                    old(self).resolved->Some_0.github_url@,
                    old(self).setup.name@,
                ),
                _ => false,
            },
    {
        if success {
            self.state = BuildState::ResettingHistory;
            BuildAction::ResetHistory { dest: self.setup.name.clone() }
        } else {
            self.state = BuildState::Failed;
            let t: &ProjectTemplate = match &self.resolved {
                Some(t) => t,
                None => unreached(),
            };
            let cause: String = String::from_str("Failed to clone template '").concat(
                t.name.as_str(),
            ).concat("': ").concat(stderr).concat(
                "\n\nThis could be due to:\n- Network connectivity issues\n- Invalid template URL\n- Directory already exists\n- Git not installed\n\nTry running: git clone ",
            ).concat(t.github_url.as_str()).concat(" ").concat(self.setup.name.as_str());
            BuildAction::Fail(
                PipelineError {
                    step: StepName::Materialize,
                    kind: FailureKind::TemplateTransport,
                    cause,
                },
            )
        }
    }

    /// Takes the history-reset outcome: on success materialization is
    /// complete and the working-directory probe is requested; either
    /// failure is terminal with its own diagnostic.
    pub fn on_reset_result(&mut self, outcome: ResetOutcome) -> (a: BuildAction)
        requires
            old(self).wf(),
            old(self).state == BuildState::ResettingHistory,
        ensures
            final(self).wf(),
            final(self).setup == old(self).setup,
            final(self).resolved == old(self).resolved,
            outcome is Done ==> final(self).state == BuildState::LocatingWorkdir
                && final(self).steps_done == 1 && match a {
                BuildAction::ProbeWorkdir { dest } => dest@ == old(self).setup.name@,
                _ => false,
            },
            match outcome {
                ResetOutcome::RemoveFailed(d) => final(self).state == BuildState::Failed
                    && match a {
                    BuildAction::Fail(e) => e.step == StepName::Materialize && e.kind
                        == FailureKind::VersionControl && e.cause@ == remove_failure_text(d@),
                    _ => false,
                },
                ResetOutcome::InitFailed(d) => final(self).state == BuildState::Failed && match a {
                    BuildAction::Fail(e) => e.step == StepName::Materialize && e.kind
                        == FailureKind::VersionControl && e.cause@ == init_failure_text(d@),
                    _ => false,
                },
                ResetOutcome::Done => true,
            },
    {
        match outcome {
            ResetOutcome::Done => {
                self.state = BuildState::LocatingWorkdir;
                self.steps_done = 1;
                BuildAction::ProbeWorkdir { dest: self.setup.name.clone() }
            },
            ResetOutcome::RemoveFailed(d) => {
                self.state = BuildState::Failed;
                BuildAction::Fail(
                    PipelineError {
                        step: StepName::Materialize,
                        kind: FailureKind::VersionControl,
                        cause: String::from_str(
                            "Failed to remove .git directory from cloned template: ",
                        ).concat(d.as_str()),
                    },
                )
            },
            ResetOutcome::InitFailed(d) => {
                self.state = BuildState::Failed;
                BuildAction::Fail(
                    PipelineError {
                        step: StepName::Materialize,
                        kind: FailureKind::VersionControl,
                        cause: String::from_str("Failed to initialize git repository: ").concat(
                            d.as_str(),
                        ),
                    },
                )
            },
        }
    }

    /// Takes the working-directory probe and requests the dependency
    /// refresh: in the `backend` subdirectory when the generated project is
    /// a multi-directory workspace, else in the project root.
    pub fn on_workdir_probe(&mut self, backend_is_dir: bool) -> (a: BuildAction)
        requires
            old(self).wf(),
            old(self).state == BuildState::LocatingWorkdir,
        ensures
            final(self).wf(),
            final(self).setup == old(self).setup,
            final(self).resolved == old(self).resolved,
            final(self).state == BuildState::RefreshingDependencies,
            final(self).steps_done == 1,
            match a {
                BuildAction::RunRefresh { workdir } => workdir@ == if backend_is_dir {
                    old(self).setup.name@ + "/backend"@
                } else {
                    old(self).setup.name@
                },
                _ => false,
            },
    {
        self.state = BuildState::RefreshingDependencies;
        let workdir: String = if backend_is_dir {
            self.setup.name.clone().concat("/backend")
        } else {
            self.setup.name.clone()
        };
        BuildAction::RunRefresh { workdir }
    }

    /// Takes the refresh outcome: on success the pipeline completes with
    /// the summary; on failure it fails with the tool's diagnostic.
    pub fn on_refresh_result(&mut self, success: bool, stderr: &str) -> (a: BuildAction)
        requires
            old(self).wf(),
            old(self).state == BuildState::RefreshingDependencies,
        ensures
            final(self).wf(),
            final(self).setup == old(self).setup,
            final(self).resolved == old(self).resolved,
            success ==> final(self).state == BuildState::Completed && final(self).steps_done == 2
                && match a {
                BuildAction::Finish(s) => summary_matches(
                    old(self).setup,
                    old(self).resolved,
                    s,
                ),
                _ => false,
            },
            !success ==> final(self).state == BuildState::Failed && match a {
                BuildAction::Fail(e) => e.step == StepName::RefreshDependencies && e.kind
                    == FailureKind::DependencyRefresh && e.cause@ == refresh_failure_text(
                    old(self).setup.name@,
                    stderr@,
                ),
                _ => false,
            },
    {
        if success {
            self.state = BuildState::Completed;
            self.steps_done = 2;
            let summary: Summary = build_summary(&self.setup, &self.resolved);
            BuildAction::Finish(summary)
        } else {
            self.state = BuildState::Failed;
            BuildAction::Fail(
                PipelineError {
                    step: StepName::RefreshDependencies,
                    kind: FailureKind::DependencyRefresh,
                    cause: String::from_str("Failed to run 'cargo update' in '").concat(
                        self.setup.name.as_str(),
                    ).concat("': ").concat(stderr),
                },
            )
        }
    }
}

/// Assembles the success report from the setup and the resolved template.
fn build_summary(setup: &ProjectSetup, resolved: &Option<ProjectTemplate>) -> (s: Summary)
    requires
        setup.wf(),
    ensures
        summary_matches(*setup, *resolved, s),
{
    let template_name: Option<String> = match resolved {
        Some(t) => Some(t.name.clone()),
        None => None,
    };
    let frontend: Option<String> = match &setup.selected_frontend {
        Some(f) => Some(f.clone()),
        None => None,
    };
    let n: usize = setup.selected_components.len();
    let mut components: Vec<(String, String)> = Vec::new();
    let mut i: usize = 0;
    proof {
        assert(setup.selected_components.deep_view().subrange(0, 0) =~= Seq::<Seq<char>>::empty());
        assert(components.deep_view() =~= Seq::<(Seq<char>, Seq<char>)>::empty());
    }
    while i < n
        invariant
            i <= n,
            n == setup.selected_components.len(),
            setup.wf(),
            components.deep_view() == recognized_components(
                setup.selected_components.deep_view().subrange(0, i as int),
            ),
        decreases n - i,
    {
        let id: &String = &setup.selected_components[i];
        match setup.config.get(id.as_str()) {
            Some(c) => {
                components.push((id.clone(), c.description.clone()));
            },
            None => {},
        }
        proof {
            let dv = setup.selected_components.deep_view();
            assert(dv.subrange(0, (i + 1) as int).drop_last() =~= dv.subrange(0, i as int));
            assert(dv.subrange(0, (i + 1) as int).last() == dv[i as int]);
            assert(components.deep_view() =~~= recognized_components(
                dv.subrange(0, (i + 1) as int),
            ));
        }
        i = i + 1;
    }
    proof {
        let dv = setup.selected_components.deep_view();
        assert(dv.subrange(0, n as int) =~= dv);
    }
    Summary { template_name, frontend, components }
}

} // verus!

//! The orchestrator: one stage-sequenced machine for both execution
//! modes. The caller performs each returned action (process spawns,
//! directory probes) and hands the outcome back; every decision --
//! which stage follows, which failures are fatal in which mode, what
//! is logged, and the single terminal completion event -- is verified
//! here against the transition relation `step_spec`.

use vstd::prelude::*;

use crate::events::JobEvent;
use crate::events::Transcript;
use crate::guard::check_target;
use crate::guard::inaccessible_conflict_message;
use crate::guard::nonempty_conflict_message;
use crate::guard::DirProbe;
use crate::job::JobSpec;
use crate::job::Language;
use crate::job::TemplateKind;
use crate::patcher::feature_requested;
use crate::registry::build_install_plan;
use crate::registry::spec_install_plan;
use crate::registry::FeatureDescriptor;
use crate::registry::PackageAdd;
use crate::scaffold::build_generator_plan;
use crate::scaffold::spec_generator_args;
use crate::scaffold::GeneratorPlan;
use crate::scaffold::ScaffoldError;

verus! {

/// How a job runs: a blocking call, or a background job streaming its
/// progress. The stage logic is shared; only failure handling in the
/// installer stages differs.
#[derive(Clone, Copy, PartialEq, Eq, Structural, Debug)]
pub enum Mode {
    Blocking,
    Streaming,
}

/// Which platform's binary-name quirks the tool resolver must try.
#[derive(Clone, Copy, PartialEq, Eq, Structural, Debug)]
pub enum Platform {
    Windows,
    Unix,
}

/// The stages of one scaffold job.
#[derive(Clone, Copy, PartialEq, Eq, Structural, Debug)]
pub enum Stage {
    Resolving,
    CheckingDirectory,
    Generating,
    InstallingBase,
    ApplyingFeatures,
    Patching,
    Done,
    Failed,
}

/// What the caller must do next.
pub enum Action {
    /// Probe one candidate binary with a side-effect-free version query.
    ProbeTool { candidate: String },
    /// Ask the system path-lookup utility for the tool's absolute path.
    LookupTool,
    /// Probe the target project directory's state.
    ProbeDirectory,
    /// Run the project generator with the planned arguments.
    RunGenerator { plan: GeneratorPlan },
    /// Run the package manager's bulk install in the project directory.
    RunBaseInstall,
    /// Add one package in the project directory.
    AddPackage { pkg: String, dev: bool },
    /// Patch the entry file and write the supplementary assets.
    ApplyPatches,
    /// The job is over; there is nothing left to do.
    Halt,
}

/// What the caller observed when performing the last action.
pub enum Outcome {
    /// Whether the probed binary answered the version query.
    ToolProbe { ok: bool },
    /// What the path lookup returned, if anything.
    ToolLookup { path: Option<String> },
    /// The target directory's state, and its display path for messages.
    Directory { probe: DirProbe, display_path: String },
    /// A child process finished; `detail` carries its captured output.
    Process { success: bool, detail: String },
    /// Patching was attempted (best-effort, never fatal).
    Patched,
}

/// The candidate binary names for a platform, probed in order.
pub open spec fn spec_tool_candidates(platform: Platform) -> Seq<Seq<char>> {
    if platform == Platform::Windows {
        seq!["pnpm"@, "pnpm.cmd"@, "pnpm.exe"@]
    } else {
        seq!["pnpm"@]
    }
}

/// Builds the candidate binary names for a platform.
pub fn tool_candidates(platform: Platform) -> (r: Vec<String>)
    ensures
        r.deep_view() == spec_tool_candidates(platform),
        r@.len() > 0,
{
    let mut r: Vec<String> = Vec::new();
    r.push(String::from_str("pnpm"));
    if matches!(platform, Platform::Windows) {
        r.push(String::from_str("pnpm.cmd"));
        r.push(String::from_str("pnpm.exe"));
    }
    proof {
        assert(r.deep_view() =~= spec_tool_candidates(platform));
    }
    r
}

// The progress and completion texts the machine emits.
pub open spec fn msg_intro_name(name: Seq<char>) -> Seq<char> {
    "Creating project: "@ + name
}

pub open spec fn msg_intro_dir(dir: Seq<char>) -> Seq<char> {
    "Target directory: "@ + dir
}

pub open spec fn template_text(kind: TemplateKind) -> Seq<char> {
    if kind == TemplateKind::V3 {
        "vue3"@
    } else {
        "vue2"@
    }
}

pub open spec fn language_text(lang: Language) -> Seq<char> {
    if lang == Language::Ts {
        "ts"@
    } else {
        "js"@
    }
}

pub open spec fn msg_intro_template(kind: TemplateKind, lang: Language) -> Seq<char> {
    "Template: "@ + template_text(kind) + ", language: "@ + language_text(lang)
}

/// The requested feature keys joined with a comma and a space.
pub open spec fn spec_join_features(feats: Seq<Seq<char>>) -> Seq<char>
    decreases feats.len(),
{
    if feats.len() == 0 {
        Seq::empty()
    } else if feats.len() == 1 {
        feats[0]
    } else {
        spec_join_features(feats.drop_last()) + ", "@ + feats.last()
    }
}

pub open spec fn msg_intro_features(feats: Seq<Seq<char>>) -> Seq<char> {
    if feats.len() == 0 {
        "Selected features: none"@
    } else {
        "Selected features: "@ + spec_join_features(feats)
    }
}

pub open spec fn msg_scaffold_start() -> Seq<char> {
    "Running scaffold and installing dependencies..."@
}

pub open spec fn msg_scaffold_done() -> Seq<char> {
    "Scaffold generation complete."@
}

pub open spec fn msg_generator_output(detail: Seq<char>) -> Seq<char> {
    "Generator output: "@ + detail
}

pub open spec fn msg_install_done() -> Seq<char> {
    "Base dependency installation complete."@
}

pub open spec fn msg_install_failed() -> Seq<char> {
    "Base dependency installation failed; continuing."@
}

pub open spec fn msg_added_dep(pkg: Seq<char>, dev: bool) -> Seq<char> {
    "Added dependency: "@ + (if dev {
        "(dev) "@
    } else {
        Seq::<char>::empty()
    }) + pkg
}

pub open spec fn msg_add_failed(pkg: Seq<char>) -> Seq<char> {
    "Failed to add dependency: "@ + pkg
}

pub open spec fn msg_success() -> Seq<char> {
    "Project created successfully."@
}

/// The completion-event message for each failure kind.
pub open spec fn scaffold_error_message(e: ScaffoldError) -> Seq<char> {
    match e {
        ScaffoldError::ToolNotFound => "pnpm not found"@,
        ScaffoldError::UnsupportedTemplate => "unknown version"@,
        ScaffoldError::DirectoryConflict(m) => m@,
        ScaffoldError::GenerationFailed(_) => "project creation failed"@,
        ScaffoldError::InstallFailed => "dependency installation failed"@,
        ScaffoldError::DependencyAddFailed(p) => "failed to add dependency: "@ + p@,
        ScaffoldError::Timeout => "operation timed out"@,
        ScaffoldError::IoFailure(d) => d@,
    }
}

/// `e` is one progress event with the line `l`.
pub open spec fn is_progress(e: JobEvent, l: Seq<char>) -> bool {
    match e {
        JobEvent::Progress { line } => line@ == l,
        _ => false,
    }
}

/// `e` is one completion event with the given verdict and message.
pub open spec fn is_completion(e: JobEvent, success: bool, error: Option<Seq<char>>) -> bool {
    match e {
        JobEvent::Completion { success: s, error: er } => s == success && (match er {
            Some(m) => error == Some(m@),
            None => error is None,
        }),
        _ => false,
    }
}

/// The whole machine state of one job.
pub struct Pipeline {
    pub mode: Mode,
    pub stage: Stage,
    pub job: JobSpec,
    pub candidates: Vec<String>,
    pub cand_idx: usize,
    pub looked_up: bool,
    pub lookup_candidate: Option<String>,
    pub tool: Option<String>,
    pub plan: Vec<PackageAdd>,
    pub plan_idx: usize,
    pub transcript: Transcript,
    pub fail: Option<ScaffoldError>,
}

impl Pipeline {
    /// The job is over, one way or the other.
    pub open spec fn is_over(&self) -> bool {
        self.stage == Stage::Done || self.stage == Stage::Failed
    }

    /// The machine's internal consistency.
    pub open spec fn wf(&self) -> bool {
        &&& self.transcript.wf()
        &&& (self.is_over() <==> self.transcript.completed())
        &&& self.cand_idx <= self.candidates@.len()
        &&& self.plan_idx <= self.plan@.len()
        &&& (self.stage == Stage::Resolving && !self.looked_up ==> self.cand_idx
            < self.candidates@.len())
        &&& (self.stage == Stage::ApplyingFeatures ==> self.plan_idx < self.plan@.len())
        &&& (!self.is_over() ==> self.fail is None)
        &&& (self.stage == Stage::Failed ==> self.fail is Some)
    }

    /// The outcome kind the machine awaits, given its state.
    pub open spec fn awaits(&self, o: Outcome) -> bool {
        match self.stage {
            Stage::Resolving => if !self.looked_up {
                o matches Outcome::ToolProbe { .. }
            } else if self.lookup_candidate is None {
                o matches Outcome::ToolLookup { .. }
            } else {
                o matches Outcome::ToolProbe { .. }
            },
            Stage::CheckingDirectory => o matches Outcome::Directory { .. },
            Stage::Generating => o matches Outcome::Process { .. },
            Stage::InstallingBase => o matches Outcome::Process { .. },
            Stage::ApplyingFeatures => o matches Outcome::Process { .. },
            Stage::Patching => o matches Outcome::Patched,
            _ => false,
        }
    }

    /// The fields the step function never touches.
    pub open spec fn same_job(&self, post: Pipeline) -> bool {
        &&& post.mode == self.mode
        &&& post.job == self.job
        &&& post.candidates == self.candidates
        &&& post.plan == self.plan
    }
}

/// A failure at this stage ends the job in this mode. Installer-stage
/// failures are fatal only to a blocking job; a streaming job logs
/// them and goes on. Patching is best-effort in both modes.
pub open spec fn fatal_in_mode(mode: Mode, stage: Stage) -> bool {
    match stage {
        Stage::Resolving => true,
        Stage::CheckingDirectory => true,
        Stage::Generating => true,
        Stage::InstallingBase => mode == Mode::Blocking,
        Stage::ApplyingFeatures => mode == Mode::Blocking,
        _ => false,
    }
}

/// The state and transcript of a failed job.
pub open spec fn failed_with(pre: Pipeline, post: Pipeline, err: ScaffoldError, fresh: Seq<
    JobEvent,
>, already: int) -> bool {
    &&& post.stage == Stage::Failed
    &&& post.fail == Some(err)
    &&& fresh.len() == already + 1
    &&& is_completion(fresh.last(), false, Some(scaffold_error_message(err)))
    &&& post.transcript.events_view() == pre.transcript.events_view() + fresh
}

/// What must hold after stepping from the machine's next-to-act state:
/// the full transition relation of the orchestrator.
pub open spec fn step_spec(
    pre: Pipeline,
    o: Outcome,
    post: Pipeline,
    a: Action,
    fresh: Seq<JobEvent>,
) -> bool {
    &&& pre.same_job(post)
    &&& post.transcript.events_view() == pre.transcript.events_view() + fresh
    &&& (post.is_over() <==> a matches Action::Halt)
    &&& match pre.stage {
        Stage::Resolving => match o {
            Outcome::ToolProbe { ok } => {
                if ok {
                    // the probed binary works: it is the tool
                    &&& post.stage == Stage::CheckingDirectory
                    &&& (match post.tool {
                        Some(t) => if !pre.looked_up {
                            t@ == pre.candidates.deep_view()[pre.cand_idx as int]
                        } else {
                            t@ == pre.lookup_candidate.unwrap()@
                        },
                        None => false,
                    })
                    &&& a matches Action::ProbeDirectory
                    &&& fresh.len() == 0
                } else if !pre.looked_up && pre.cand_idx + 1 < pre.candidates@.len() {
                    // try the next candidate name
                    &&& post.stage == Stage::Resolving
                    &&& post.cand_idx == pre.cand_idx + 1
                    &&& !post.looked_up
                    &&& (a matches Action::ProbeTool { candidate } && candidate@
                        == pre.candidates.deep_view()[pre.cand_idx + 1])
                    &&& fresh.len() == 0
                } else if !pre.looked_up {
                    // names exhausted: fall back to the path lookup
                    &&& post.stage == Stage::Resolving
                    &&& post.looked_up
                    &&& a matches Action::LookupTool
                    &&& fresh.len() == 0
                } else {
                    // even the looked-up path fails: no tool anywhere
                    failed_with(pre, post, ScaffoldError::ToolNotFound, fresh, 0)
                }
            },
            Outcome::ToolLookup { path } => match path {
                Some(p) => {
                    // probe the absolute path the lookup produced
                    &&& post.stage == Stage::Resolving
                    &&& post.looked_up
                    &&& post.lookup_candidate == Some(p)
                    &&& (a matches Action::ProbeTool { candidate } && candidate@ == p@)
                    &&& fresh.len() == 0
                },
                None => failed_with(pre, post, ScaffoldError::ToolNotFound, fresh, 0),
            },
            _ => false,
        },
        Stage::CheckingDirectory => match o {
            Outcome::Directory { probe, display_path } => {
                if probe == DirProbe::Absent || probe == DirProbe::EmptyDir {
                    &&& post.stage == Stage::Generating
                    &&& fresh.len() == 1
                    &&& is_progress(fresh[0], msg_scaffold_start())
                    &&& (a matches Action::RunGenerator { plan } && plan.args.deep_view()
                        == spec_generator_args(
                        pre.job.template_kind,
                        pre.job.language,
                        pre.job.project_name@,
                        feature_requested(pre.job.requested_features.deep_view(), "router"@),
                        feature_requested(pre.job.requested_features.deep_view(), "pinia"@),
                    ) && plan.non_interactive_env == (pre.job.template_kind
                        == TemplateKind::V3))
                } else {
                    exists|m: Seq<char>|
                        {
                            &&& m == (if probe == DirProbe::NonEmpty {
                                nonempty_conflict_message(
                                    pre.job.project_name@,
                                    display_path@,
                                )
                            } else {
                                inaccessible_conflict_message(
                                    pre.job.project_name@,
                                    display_path@,
                                )
                            })
                            &&& (post.fail matches Some(
                                ScaffoldError::DirectoryConflict(msg),
                            ) && msg@ == m)
                            &&& post.stage == Stage::Failed
                            &&& fresh.len() == 1
                            &&& is_completion(fresh.last(), false, Some(m))
                        }
                }
            },
            _ => false,
        },
        Stage::Generating => match o {
            Outcome::Process { success, detail } => {
                if success {
                    &&& post.stage == Stage::InstallingBase
                    &&& a matches Action::RunBaseInstall
                    &&& fresh.len() == 1
                    &&& is_progress(fresh[0], msg_scaffold_done())
                } else {
                    let logged: int = if detail@.len() > 0 {
                        1
                    } else {
                        0
                    };
                    &&& (detail@.len() > 0 ==> is_progress(
                        fresh[0],
                        msg_generator_output(detail@),
                    ))
                    &&& (post.fail matches Some(ScaffoldError::GenerationFailed(d)) && d@
                        == detail@)
                    &&& post.stage == Stage::Failed
                    &&& fresh.len() == logged + 1
                    &&& is_completion(
                        fresh.last(),
                        false,
                        Some(scaffold_error_message(ScaffoldError::GenerationFailed(detail))),
                    )
                }
            },
            _ => false,
        },
        Stage::InstallingBase => match o {
            Outcome::Process { success, .. } => {
                if !success && fatal_in_mode(pre.mode, Stage::InstallingBase) {
                    failed_with(pre, post, ScaffoldError::InstallFailed, fresh, 0)
                } else {
                    &&& fresh.len() == 1
                    &&& is_progress(
                        fresh[0],
                        if success {
                            msg_install_done()
                        } else {
                            msg_install_failed()
                        },
                    )
                    &&& post.plan_idx == 0
                    &&& if pre.plan@.len() > 0 {
                        &&& post.stage == Stage::ApplyingFeatures
                        &&& (a matches Action::AddPackage { pkg, dev } && pkg@
                            == pre.plan@[0].pkg@ && dev == pre.plan@[0].dev)
                    } else {
                        &&& post.stage == Stage::Patching
                        &&& a matches Action::ApplyPatches
                    }
                }
            },
            _ => false,
        },
        Stage::ApplyingFeatures => match o {
            Outcome::Process { success, .. } => {
                let cur = pre.plan@[pre.plan_idx as int];
                if !success && fatal_in_mode(pre.mode, Stage::ApplyingFeatures) {
                    exists|p: Seq<char>|
                        {
                            &&& p == cur.pkg@
                            &&& (post.fail matches Some(
                                ScaffoldError::DependencyAddFailed(q),
                            ) && q@ == p)
                            &&& post.stage == Stage::Failed
                            &&& fresh.len() == 1
                            &&& is_completion(
                                fresh.last(),
                                false,
                                Some("failed to add dependency: "@ + p),
                            )
                        }
                } else {
                    &&& fresh.len() == 1
                    &&& is_progress(
                        fresh[0],
                        if success {
                            msg_added_dep(cur.pkg@, cur.dev)
                        } else {
                            msg_add_failed(cur.pkg@)
                        },
                    )
                    &&& post.plan_idx == pre.plan_idx + 1
                    &&& if pre.plan_idx + 1 < pre.plan@.len() {
                        &&& post.stage == Stage::ApplyingFeatures
                        &&& (a matches Action::AddPackage { pkg, dev } && pkg@
                            == pre.plan@[pre.plan_idx + 1].pkg@ && dev == pre.plan@[pre.plan_idx
                            + 1].dev)
                    } else {
                        &&& post.stage == Stage::Patching
                        &&& a matches Action::ApplyPatches
                    }
                }
            },
            _ => false,
        },
        Stage::Patching => match o {
            Outcome::Patched => {
                &&& post.stage == Stage::Done
                &&& post.fail is None
                &&& fresh.len() == 2
                &&& is_progress(fresh[0], msg_success())
                &&& is_completion(fresh[1], true, None)
            },
            _ => false,
        },
        _ => false,
    }
}

impl Pipeline {
    /// Whether the job is over; the blocking caller's loop condition.
    pub fn is_terminal(&self) -> (r: bool)
        ensures
            r == self.is_over(),
    {
        matches!(self.stage, Stage::Done | Stage::Failed)
    }

    /// The failure the job ended with, if it failed.
    pub fn failure(&self) -> (r: &Option<ScaffoldError>)
        ensures
            r == &self.fail,
    {
        &self.fail
    }

    /// Starts a job: emits the introductory progress lines, plans the
    /// feature installs from the registry as it stands now, and asks
    /// the caller to probe the first candidate binary.
    pub fn start(
        job: JobSpec,
        registry: &Vec<FeatureDescriptor>,
        platform: Platform,
        mode: Mode,
    ) -> (r: (Pipeline, Action, Vec<JobEvent>))
        requires
            job.wf(),
        ensures
            ({
                let (p, a, fresh) = r;
                &&& p.wf()
                &&& !p.is_over()
                &&& p.stage == Stage::Resolving
                &&& p.mode == mode
                &&& p.job == job
                &&& p.candidates.deep_view() == spec_tool_candidates(platform)
                &&& p.cand_idx == 0
                &&& !p.looked_up
                &&& p.plan@.len() == spec_install_plan(
                    registry@,
                    job.requested_features.deep_view(),
                    job.template_kind,
                    job.language,
                ).len()
                &&& forall|j: int|
                    0 <= j < p.plan@.len() ==> (#[trigger] p.plan@[j].pkg@, p.plan@[j].dev)
                        == spec_install_plan(
                        registry@,
                        job.requested_features.deep_view(),
                        job.template_kind,
                        job.language,
                    )[j]
                &&& (a matches Action::ProbeTool { candidate } && candidate@
                    == spec_tool_candidates(platform)[0])
                &&& fresh@.len() == 4
                &&& is_progress(fresh@[0], msg_intro_name(job.project_name@))
                &&& is_progress(fresh@[1], msg_intro_dir(job.target_directory@))
                &&& is_progress(fresh@[2], msg_intro_template(job.template_kind, job.language))
                &&& is_progress(
                    fresh@[3],
                    msg_intro_features(job.requested_features.deep_view()),
                )
                &&& p.transcript.events_view() == fresh@
            }),
    {
        let mut transcript = Transcript::new();
        let mut fresh: Vec<JobEvent> = Vec::new();
        let line0 = {
            let mut m = String::from_str("Creating project: ");
            m.append(job.project_name.as_str());
            m
        };
        transcript.log(line0.clone());
        fresh.push(JobEvent::Progress { line: line0 });
        let line1 = {
            let mut m = String::from_str("Target directory: ");
            m.append(job.target_directory.as_str());
            m
        };
        transcript.log(line1.clone());
        fresh.push(JobEvent::Progress { line: line1 });
        let line2 = {
            let mut m = String::from_str("Template: ");
            m.append(if matches!(job.template_kind, TemplateKind::V3) {
                "vue3"
            } else {
                "vue2"
            });
            m.append(", language: ");
            m.append(if matches!(job.language, Language::Ts) {
                "ts"
            } else {
                "js"
            });
            m
        };
        transcript.log(line2.clone());
        fresh.push(JobEvent::Progress { line: line2 });
        let line3 = if job.requested_features.len() == 0 {
            String::from_str("Selected features: none")
        } else {
            let mut m = String::from_str("Selected features: ");
            let joined = join_features(&job.requested_features);
            m.append(joined.as_str());
            m
        };
        transcript.log(line3.clone());
        fresh.push(JobEvent::Progress { line: line3 });
        let candidates = tool_candidates(platform);
        let plan = build_install_plan(
            registry,
            &job.requested_features,
            job.template_kind,
            job.language,
        );
        let first = candidates[0].clone();
        let p = Pipeline {
            mode,
            stage: Stage::Resolving,
            job,
            candidates,
            cand_idx: 0,
            looked_up: false,
            lookup_candidate: None,
            tool: None,
            plan,
            plan_idx: 0,
            transcript,
            fail: None,
        };
        proof {
            assert(p.transcript.events_view() =~= fresh@);
        }
        (p, Action::ProbeTool { candidate: first }, fresh)
    }

    /// Ends the job in failure: records the error and emits the one
    /// completion event carrying its message.
    fn finish_failure(&mut self, err: ScaffoldError) -> (fresh: Vec<JobEvent>)
        requires
            old(self).transcript.wf(),
            !old(self).transcript.completed(),
        ensures
            old(self).same_job(*final(self)),
            final(self).stage == Stage::Failed,
            final(self).fail == Some(err),
            final(self).cand_idx == old(self).cand_idx,
            final(self).looked_up == old(self).looked_up,
            final(self).lookup_candidate == old(self).lookup_candidate,
            final(self).tool == old(self).tool,
            final(self).plan_idx == old(self).plan_idx,
            final(self).transcript.wf(),
            final(self).transcript.completed(),
            fresh@.len() == 1,
            is_completion(fresh@[0], false, Some(scaffold_error_message(err))),
            final(self).transcript.events_view() == old(self).transcript.events_view()
                + fresh@,
    {
        let message = error_text(&err);
        let mut fresh: Vec<JobEvent> = Vec::new();
        self.transcript.complete(false, Some(message.clone()));
        fresh.push(JobEvent::Completion { success: false, error: Some(message) });
        self.stage = Stage::Failed;
        self.fail = Some(err);
        proof {
            assert(self.transcript.events_view() =~= old(
                self,
            ).transcript.events_view() + fresh@);
        }
        fresh
    }

    /// Feeds the outcome of the last action to the machine and learns
    /// what to do next.
    pub fn step(&mut self, outcome: Outcome) -> (r: (Action, Vec<JobEvent>))
        requires
            old(self).wf(),
            !old(self).is_over(),
            old(self).awaits(outcome),
        ensures
            final(self).wf(),
            step_spec(*old(self), outcome, *final(self), r.0, r.1@),
    {
        match outcome {
            Outcome::ToolProbe { ok } => {
                let n_cands = self.candidates.len();
                proof {
                    if !self.looked_up {
                        assert(self.cand_idx < self.candidates@.len());
                    }
                }
                if ok {
                    let c = if !self.looked_up {
                        self.candidates[self.cand_idx].clone()
                    } else {
                        match &self.lookup_candidate {
                            Some(p) => p.clone(),
                            None => {
                                proof {
                                    assert(false);
                                }
                                String::new()
                            },
                        }
                    };
                    self.tool = Some(c);
                    self.stage = Stage::CheckingDirectory;
                    let fresh: Vec<JobEvent> = Vec::new();
                    proof {
                        assert(self.transcript.events_view() =~= old(
                            self,
                        ).transcript.events_view() + fresh@);
                    }
                    (Action::ProbeDirectory, fresh)
                } else if !self.looked_up && self.cand_idx + 1 < n_cands {
                    self.cand_idx = self.cand_idx + 1;
                    let next = self.candidates[self.cand_idx].clone();
                    let fresh: Vec<JobEvent> = Vec::new();
                    proof {
                        assert(self.transcript.events_view() =~= old(
                            self,
                        ).transcript.events_view() + fresh@);
                    }
                    (Action::ProbeTool { candidate: next }, fresh)
                } else if !self.looked_up {
                    self.looked_up = true;
                    let fresh: Vec<JobEvent> = Vec::new();
                    proof {
                        assert(self.transcript.events_view() =~= old(
                            self,
                        ).transcript.events_view() + fresh@);
                    }
                    (Action::LookupTool, fresh)
                } else {
                    let fresh = self.finish_failure(ScaffoldError::ToolNotFound);
                    (Action::Halt, fresh)
                }
            },
            Outcome::ToolLookup { path } => {
                match path {
                    Some(p) => {
                        self.lookup_candidate = Some(p.clone());
                        self.looked_up = true;
                        let fresh: Vec<JobEvent> = Vec::new();
                        proof {
                            assert(self.transcript.events_view() =~= old(
                                self,
                            ).transcript.events_view() + fresh@);
                        }
                        (Action::ProbeTool { candidate: p }, fresh)
                    },
                    None => {
                        let fresh = self.finish_failure(ScaffoldError::ToolNotFound);
                        (Action::Halt, fresh)
                    },
                }
            },
            Outcome::Directory { probe, display_path } => {
                match check_target(probe, self.job.project_name.as_str(), display_path.as_str()) {
                    Ok(()) => {
                        let mut fresh: Vec<JobEvent> = Vec::new();
                        let line = String::from_str(
                            "Running scaffold and installing dependencies...",
                        );
                        self.transcript.log(line.clone());
                        fresh.push(JobEvent::Progress { line });
                        proof {
                            assert(self.transcript.events_view() =~= old(
                                self,
                            ).transcript.events_view() + fresh@);
                        }
                        let router = crate::patcher::has_feature(
                            &self.job.requested_features,
                            "router",
                        );
                        let pinia = crate::patcher::has_feature(
                            &self.job.requested_features,
                            "pinia",
                        );
                        let plan = build_generator_plan(
                            self.job.template_kind,
                            self.job.language,
                            self.job.project_name.as_str(),
                            router,
                            pinia,
                        );
                        self.stage = Stage::Generating;
                        (Action::RunGenerator { plan }, fresh)
                    },
                    Err(m) => {
                        let fresh = self.finish_failure(ScaffoldError::DirectoryConflict(m));
                        (Action::Halt, fresh)
                    },
                }
            },
            Outcome::Process { success, detail } => {
                match self.stage {
                    Stage::Generating => {
                        if success {
                            let mut fresh: Vec<JobEvent> = Vec::new();
                            let line = String::from_str("Scaffold generation complete.");
                            self.transcript.log(line.clone());
                            fresh.push(JobEvent::Progress { line });
                            self.stage = Stage::InstallingBase;
                            proof {
                                assert(self.transcript.events_view() =~= old(
                                    self,
                                ).transcript.events_view() + fresh@);
                            }
                            (Action::RunBaseInstall, fresh)
                        } else {
                            let mut fresh: Vec<JobEvent> = Vec::new();
                            if detail.unicode_len() > 0 {
                                let mut line = String::from_str("Generator output: ");
                                line.append(detail.as_str());
                                self.transcript.log(line.clone());
                                fresh.push(JobEvent::Progress { line });
                            }
                            let message = String::from_str("project creation failed");
                            self.transcript.complete(false, Some(message.clone()));
                            fresh.push(
                                JobEvent::Completion { success: false, error: Some(message) },
                            );
                            self.stage = Stage::Failed;
                            self.fail = Some(ScaffoldError::GenerationFailed(detail));
                            proof {
                                assert(self.transcript.events_view() =~= old(
                                    self,
                                ).transcript.events_view() + fresh@);
                            }
                            (Action::Halt, fresh)
                        }
                    },
                    Stage::InstallingBase => {
                        if !success && matches!(self.mode, Mode::Blocking) {
                            let fresh = self.finish_failure(ScaffoldError::InstallFailed);
                            (Action::Halt, fresh)
                        } else {
                            let mut fresh: Vec<JobEvent> = Vec::new();
                            let line = if success {
                                String::from_str("Base dependency installation complete.")
                            } else {
                                String::from_str(
                                    "Base dependency installation failed; continuing.",
                                )
                            };
                            self.transcript.log(line.clone());
                            fresh.push(JobEvent::Progress { line });
                            proof {
                                assert(self.transcript.events_view() =~= old(
                                    self,
                                ).transcript.events_view() + fresh@);
                            }
                            self.plan_idx = 0;
                            if self.plan.len() > 0 {
                                self.stage = Stage::ApplyingFeatures;
                                let pkg = self.plan[0].pkg.clone();
                                let dev = self.plan[0].dev;
                                (Action::AddPackage { pkg, dev }, fresh)
                            } else {
                                self.stage = Stage::Patching;
                                (Action::ApplyPatches, fresh)
                            }
                        }
                    },
                    Stage::ApplyingFeatures => {
                        let n_plan = self.plan.len();
                        proof {
                            assert(self.plan_idx < self.plan@.len());
                        }
                        let cur_pkg = self.plan[self.plan_idx].pkg.clone();
                        let cur_dev = self.plan[self.plan_idx].dev;
                        if !success && matches!(self.mode, Mode::Blocking) {
                            let fresh = self.finish_failure(
                                ScaffoldError::DependencyAddFailed(cur_pkg),
                            );
                            (Action::Halt, fresh)
                        } else {
                            let mut fresh: Vec<JobEvent> = Vec::new();
                            let line = if success {
                                let mut m = String::from_str("Added dependency: ");
                                if cur_dev {
                                    m.append("(dev) ");
                                }
                                m.append(cur_pkg.as_str());
                                m
                            } else {
                                let mut m = String::from_str("Failed to add dependency: ");
                                m.append(cur_pkg.as_str());
                                m
                            };
                            self.transcript.log(line.clone());
                            fresh.push(JobEvent::Progress { line });
                            proof {
                                assert(self.transcript.events_view() =~= old(
                                    self,
                                ).transcript.events_view() + fresh@);
                            }
                            self.plan_idx = self.plan_idx + 1;
                            if self.plan_idx < self.plan.len() {
                                let pkg = self.plan[self.plan_idx].pkg.clone();
                                let dev = self.plan[self.plan_idx].dev;
                                (Action::AddPackage { pkg, dev }, fresh)
                            } else {
                                self.stage = Stage::Patching;
                                (Action::ApplyPatches, fresh)
                            }
                        }
                    },
                    _ => {
                        proof {
                            assert(false);
                        }
                        (Action::Halt, Vec::new())
                    },
                }
            },
            Outcome::Patched => {
                let mut fresh: Vec<JobEvent> = Vec::new();
                let line = String::from_str("Project created successfully.");
                self.transcript.log(line.clone());
                fresh.push(JobEvent::Progress { line });
                self.transcript.complete(true, None);
                fresh.push(JobEvent::Completion { success: true, error: None });
                self.stage = Stage::Done;
                proof {
                    assert(self.transcript.events_view() =~= old(
                        self,
                    ).transcript.events_view() + fresh@);
                }
                (Action::Halt, fresh)
            },
        }
    }
}

/// A finished job, whichever way it ended, has emitted exactly one
/// completion event, after all of its progress events.
pub proof fn lemma_job_completes_exactly_once(p: &Pipeline)
    requires
        p.wf(),
        p.is_over(),
    ensures
        p.transcript.events_view().len() > 0,
        forall|i: int|
            0 <= i < p.transcript.events_view().len() ==> ((
            #[trigger] p.transcript.events_view()[i] matches JobEvent::Completion { .. }) <==> i
                == p.transcript.events_view().len() - 1),
{
    crate::events::lemma_completion_exactly_once_and_last(&p.transcript);
}

/// The failure message of each error kind, as carried by the
/// completion event.
pub fn error_text(e: &ScaffoldError) -> (r: String)
    ensures
        r@ == scaffold_error_message(*e),
{
    match e {
        ScaffoldError::ToolNotFound => String::from_str("pnpm not found"),
        ScaffoldError::UnsupportedTemplate => String::from_str("unknown version"),
        ScaffoldError::DirectoryConflict(m) => m.clone(),
        ScaffoldError::GenerationFailed(_) => String::from_str("project creation failed"),
        ScaffoldError::InstallFailed => String::from_str("dependency installation failed"),
        ScaffoldError::DependencyAddFailed(p) => {
            let mut m = String::from_str("failed to add dependency: ");
            m.append(p.as_str());
            m
        },
        ScaffoldError::Timeout => String::from_str("operation timed out"),
        ScaffoldError::IoFailure(d) => d.clone(),
    }
}

/// Joins the requested feature keys with a comma and a space.
pub fn join_features(feats: &Vec<String>) -> (r: String)
    ensures
        r@ == spec_join_features(feats.deep_view()),
{
    let mut out = String::new();
    let n = feats.len();
    let mut i: usize = 0;
    while i < n
        invariant
            i <= n,
            n == feats@.len(),
            out@ == spec_join_features(feats.deep_view().subrange(0, i as int)),
        decreases n - i,
    {
        if i > 0 {
            out.append(", ");
        }
        out.append(feats[i].as_str());
        proof {
            let cur = feats.deep_view().subrange(0, i + 1);
            assert(cur.drop_last() =~= feats.deep_view().subrange(0, i as int));
            assert(cur.last() == feats.deep_view()[i as int]);
            if i == 0 {
                assert(out@ =~= cur[0]);
            }
        }
        i += 1;
    }
    proof {
        assert(feats.deep_view().subrange(0, n as int) =~= feats.deep_view());
    }
    out
}

} // verus!

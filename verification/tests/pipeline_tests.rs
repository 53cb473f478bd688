use scaffolder::events::JobEvent;
use scaffolder::guard::DirProbe;
use scaffolder::job::JobSpec;
use scaffolder::job::Language;
use scaffolder::job::TemplateKind;
use scaffolder::pipeline::Action;
use scaffolder::pipeline::Mode;
use scaffolder::pipeline::Outcome;
use scaffolder::pipeline::Pipeline;
use scaffolder::pipeline::Platform;
use scaffolder::pipeline::Stage;
use scaffolder::registry::default_registry;
use scaffolder::scaffold::ScaffoldError;

fn job(features: Vec<&str>) -> JobSpec {
    JobSpec {
        template_kind: TemplateKind::V3,
        language: Language::Ts,
        project_name: "demo".to_string(),
        target_directory: "/tmp/projects".to_string(),
        persist_as_default: false,
        requested_features: features.into_iter().map(|s| s.to_string()).collect(),
    }
}

fn count_completions(events: &[JobEvent]) -> usize {
    events
        .iter()
        .filter(|e| matches!(e, JobEvent::Completion { .. }))
        .count()
}

#[test]
fn tool_absent_everywhere_fails_before_any_generator_runs() {
    let reg = default_registry();
    let (mut p, mut action, _intro) =
        Pipeline::start(job(vec![]), &reg, Platform::Windows, Mode::Streaming);
    let mut saw_generator = false;
    let mut steps = 0;
    while !p.is_terminal() {
        steps += 1;
        assert!(steps < 20, "resolver did not terminate");
        if matches!(action, Action::RunGenerator { .. }) {
            saw_generator = true;
        }
        let outcome = match &action {
            Action::ProbeTool { .. } => Outcome::ToolProbe { ok: false },
            Action::LookupTool => Outcome::ToolLookup { path: None },
            _ => panic!("unexpected action while the tool is absent"),
        };
        let (next, _events) = p.step(outcome);
        action = next;
    }
    assert!(!saw_generator);
    assert_eq!(p.stage, Stage::Failed);
    assert!(matches!(p.failure(), Some(ScaffoldError::ToolNotFound)));
    let events = p.transcript.events();
    match events.last().unwrap() {
        JobEvent::Completion { success, error } => {
            assert!(!success);
            assert_eq!(error.as_deref(), Some("pnpm not found"));
        }
        _ => panic!("last event must be the completion"),
    }
}

#[test]
fn lookup_fallback_is_probed_before_giving_up() {
    let reg = default_registry();
    let (mut p, a0, _intro) =
        Pipeline::start(job(vec![]), &reg, Platform::Windows, Mode::Streaming);
    assert!(matches!(&a0, Action::ProbeTool { candidate } if candidate == "pnpm"));
    let (a1, _) = p.step(Outcome::ToolProbe { ok: false });
    assert!(matches!(&a1, Action::ProbeTool { candidate } if candidate == "pnpm.cmd"));
    let (a2, _) = p.step(Outcome::ToolProbe { ok: false });
    assert!(matches!(&a2, Action::ProbeTool { candidate } if candidate == "pnpm.exe"));
    let (a3, _) = p.step(Outcome::ToolProbe { ok: false });
    assert!(matches!(a3, Action::LookupTool));
    let (a4, _) = p.step(Outcome::ToolLookup {
        path: Some("C:\\tools\\pnpm.exe".to_string()),
    });
    assert!(matches!(&a4, Action::ProbeTool { candidate } if candidate == "C:\\tools\\pnpm.exe"));
    let (a5, _) = p.step(Outcome::ToolProbe { ok: true });
    assert!(matches!(a5, Action::ProbeDirectory));
    assert_eq!(p.stage, Stage::CheckingDirectory);
}

#[test]
fn streaming_job_emits_exactly_one_completion_last() {
    let reg = default_registry();
    let (mut p, a0, intro) =
        Pipeline::start(job(vec!["sass"]), &reg, Platform::Unix, Mode::Streaming);
    let mut all: Vec<JobEvent> = intro;
    assert!(matches!(a0, Action::ProbeTool { .. }));
    let (a1, ev) = p.step(Outcome::ToolProbe { ok: true });
    all.extend(ev);
    assert!(matches!(a1, Action::ProbeDirectory));
    let (a2, ev) = p.step(Outcome::Directory {
        probe: DirProbe::Absent,
        display_path: "/tmp/projects/demo".to_string(),
    });
    all.extend(ev);
    assert!(matches!(a2, Action::RunGenerator { .. }));
    let (a3, ev) = p.step(Outcome::Process { success: true, detail: String::new() });
    all.extend(ev);
    assert!(matches!(a3, Action::RunBaseInstall));
    // base install fails: a streaming job logs it and goes on
    let (a4, ev) = p.step(Outcome::Process { success: false, detail: String::new() });
    all.extend(ev);
    assert!(matches!(&a4, Action::AddPackage { pkg, dev } if pkg == "sass@^1.94.0" && *dev));
    // one package add fails: streaming continues to the next
    let (a5, ev) = p.step(Outcome::Process { success: false, detail: String::new() });
    all.extend(ev);
    assert!(matches!(&a5, Action::AddPackage { pkg, .. } if pkg == "sass-loader@^1.94.0"));
    let (a6, ev) = p.step(Outcome::Process { success: true, detail: String::new() });
    all.extend(ev);
    assert!(matches!(a6, Action::ApplyPatches));
    let (a7, ev) = p.step(Outcome::Patched);
    all.extend(ev);
    assert!(matches!(a7, Action::Halt));
    assert_eq!(p.stage, Stage::Done);
    // exactly one completion, in the last position, after all progress
    assert_eq!(count_completions(&all), 1);
    assert!(matches!(all.last().unwrap(), JobEvent::Completion { success: true, error: None }));
    assert_eq!(p.transcript.events().len(), all.len());
}

#[test]
fn blocking_job_aborts_on_first_failed_package_add() {
    let reg = default_registry();
    let (mut p, _a0, _intro) =
        Pipeline::start(job(vec!["sass", "router"]), &reg, Platform::Unix, Mode::Blocking);
    let (_a1, _) = p.step(Outcome::ToolProbe { ok: true });
    let (_a2, _) = p.step(Outcome::Directory {
        probe: DirProbe::EmptyDir,
        display_path: "/tmp/projects/demo".to_string(),
    });
    let (_a3, _) = p.step(Outcome::Process { success: true, detail: String::new() });
    let (a4, _) = p.step(Outcome::Process { success: true, detail: String::new() });
    assert!(matches!(&a4, Action::AddPackage { pkg, .. } if pkg == "sass@^1.94.0"));
    let (a5, ev) = p.step(Outcome::Process { success: false, detail: String::new() });
    assert!(matches!(a5, Action::Halt));
    assert_eq!(p.stage, Stage::Failed);
    match p.failure() {
        Some(ScaffoldError::DependencyAddFailed(pkg)) => assert_eq!(pkg, "sass@^1.94.0"),
        other => panic!("expected a dependency-add failure, got {:?}", other.is_some()),
    }
    match ev.last().unwrap() {
        JobEvent::Completion { success, error } => {
            assert!(!success);
            assert_eq!(error.as_deref(), Some("failed to add dependency: sass@^1.94.0"));
        }
        _ => panic!("last event must be the completion"),
    }
}

#[test]
fn blocking_job_fails_on_base_install_failure() {
    let reg = default_registry();
    let (mut p, _a0, _intro) =
        Pipeline::start(job(vec![]), &reg, Platform::Unix, Mode::Blocking);
    let (_a1, _) = p.step(Outcome::ToolProbe { ok: true });
    let (_a2, _) = p.step(Outcome::Directory {
        probe: DirProbe::Absent,
        display_path: "/tmp/projects/demo".to_string(),
    });
    let (_a3, _) = p.step(Outcome::Process { success: true, detail: String::new() });
    let (a4, _) = p.step(Outcome::Process { success: false, detail: String::new() });
    assert!(matches!(a4, Action::Halt));
    assert!(matches!(p.failure(), Some(ScaffoldError::InstallFailed)));
}

#[test]
fn directory_conflict_is_fatal_and_names_the_target() {
    let reg = default_registry();
    let (mut p, _a0, _intro) =
        Pipeline::start(job(vec![]), &reg, Platform::Unix, Mode::Streaming);
    let (_a1, _) = p.step(Outcome::ToolProbe { ok: true });
    let (a2, ev) = p.step(Outcome::Directory {
        probe: DirProbe::NonEmpty,
        display_path: "/tmp/projects/demo".to_string(),
    });
    assert!(matches!(a2, Action::Halt));
    assert_eq!(p.stage, Stage::Failed);
    match ev.last().unwrap() {
        JobEvent::Completion { success, error } => {
            assert!(!success);
            let msg = error.as_deref().unwrap();
            assert!(msg.contains("\"demo\""));
            assert!(msg.contains("/tmp/projects/demo"));
            assert!(msg.contains("not empty"));
        }
        _ => panic!("last event must be the completion"),
    }
}

#[test]
fn generator_failure_surfaces_its_output_then_completes() {
    let reg = default_registry();
    let (mut p, _a0, _intro) =
        Pipeline::start(job(vec![]), &reg, Platform::Unix, Mode::Streaming);
    let (_a1, _) = p.step(Outcome::ToolProbe { ok: true });
    let (_a2, _) = p.step(Outcome::Directory {
        probe: DirProbe::Absent,
        display_path: "/tmp/projects/demo".to_string(),
    });
    let (a3, ev) = p.step(Outcome::Process {
        success: false,
        detail: "boom: template not found".to_string(),
    });
    assert!(matches!(a3, Action::Halt));
    assert_eq!(ev.len(), 2);
    match &ev[0] {
        JobEvent::Progress { line } => {
            assert_eq!(line, "Generator output: boom: template not found")
        }
        _ => panic!("the generator's output must be logged first"),
    }
    match &ev[1] {
        JobEvent::Completion { success, error } => {
            assert!(!success);
            assert_eq!(error.as_deref(), Some("project creation failed"));
        }
        _ => panic!("the completion must come last"),
    }
}

#[test]
fn generator_plan_for_v3_uses_create_vue_with_feature_flags() {
    let reg = default_registry();
    let (mut p, _a0, _intro) = Pipeline::start(
        job(vec!["router", "pinia"]),
        &reg,
        Platform::Unix,
        Mode::Blocking,
    );
    let (_a1, _) = p.step(Outcome::ToolProbe { ok: true });
    let (a2, _) = p.step(Outcome::Directory {
        probe: DirProbe::Absent,
        display_path: "/tmp/projects/demo".to_string(),
    });
    match a2 {
        Action::RunGenerator { plan } => {
            assert_eq!(
                plan.args,
                vec![
                    "dlx",
                    "create-vue@latest",
                    "demo",
                    "--ts",
                    "--router",
                    "--pinia",
                    "--packageManager",
                    "pnpm",
                ]
            );
            assert!(plan.non_interactive_env);
        }
        _ => panic!("the directory being clear must start the generator"),
    }
}

#[test]
fn generator_plan_for_v2_uses_classic_cli_with_inline_preset() {
    let reg = default_registry();
    let mut spec = job(vec![]);
    spec.template_kind = TemplateKind::V2;
    let (mut p, _a0, _intro) = Pipeline::start(spec, &reg, Platform::Unix, Mode::Blocking);
    let (_a1, _) = p.step(Outcome::ToolProbe { ok: true });
    let (a2, _) = p.step(Outcome::Directory {
        probe: DirProbe::Absent,
        display_path: "/tmp/projects/demo".to_string(),
    });
    match a2 {
        Action::RunGenerator { plan } => {
            assert_eq!(
                plan.args,
                vec![
                    "dlx",
                    "@vue/cli@5",
                    "create",
                    "demo",
                    "--inlinePreset",
                    "{\"plugins\":{\"@vue/cli-plugin-babel\":{}},\"vueVersion\":\"2\"}",
                    "--packageManager",
                    "pnpm",
                    "--no-git",
                    "--force",
                ]
            );
            assert!(!plan.non_interactive_env);
        }
        _ => panic!("the directory being clear must start the generator"),
    }
}

#[test]
fn intro_events_describe_the_job() {
    let reg = default_registry();
    let (_p, _a, intro) = Pipeline::start(
        job(vec!["sass", "router"]),
        &reg,
        Platform::Unix,
        Mode::Streaming,
    );
    let lines: Vec<&str> = intro
        .iter()
        .map(|e| match e {
            JobEvent::Progress { line } => line.as_str(),
            _ => panic!("the intro holds progress lines only"),
        })
        .collect();
    assert_eq!(
        lines,
        vec![
            "Creating project: demo",
            "Target directory: /tmp/projects",
            "Template: vue3, language: ts",
            "Selected features: sass, router",
        ]
    );
}

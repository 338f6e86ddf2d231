use rustychains::sandbox::Chunk;
use rustychains::sandbox::DirectoryProbe;
use rustychains::sandbox::DockerSandbox;
use rustychains::sandbox::RunAction;
use rustychains::sandbox::RunEvent;
use rustychains::sandbox::RunOutput;
use rustychains::sandbox::SandboxError;
use rustychains::sandbox::SandboxRun;
use rustychains::sandbox::SetupAction;
use rustychains::sandbox::SetupEvent;
use rustychains::timespan::TimeSpan;
use rustychains::workflow::Export;
use rustychains::workflow::Language;
use rustychains::workflow::Step;
use rustychains::workflow::Workflow;
use rustychains::workflow::WorkflowAction;
use rustychains::workflow::WorkflowBuilder;
use rustychains::workflow::WorkflowError;
use rustychains::workflow::WorkflowEvent;
use rustychains::workflow::WorkflowResult;

/// A stand-in for the world around a workflow: it runs scripted programs in
/// place of containers and counts what it is asked to do.
struct World {
    steps_run: Vec<String>,
    inputs: Vec<Option<String>>,
    exports_run: Vec<String>,
    failing_export: Option<usize>,
    live: i64,
}

fn new_world() -> World {
    World { steps_run: Vec::new(), inputs: Vec::new(), exports_run: Vec::new(), failing_export: None, live: 0 }
}

fn numbers_of(text: &str) -> Vec<u64> {
    text.split(|c: char| !c.is_ascii_digit()).filter(|p| !p.is_empty()).map(|p| p.parse().unwrap()).collect()
}

/// What the program in a file writes for an input, and the seconds it takes.
fn program_output(file: &str, stdin: Option<&str>) -> (Vec<Chunk>, u64) {
    let text = stdin.unwrap_or("");
    if file.ends_with("move_point.py") {
        let p = numbers_of(text);
        (vec![Chunk::StdOut(format!("{{\"x\":{},\"y\":{}}}\n", p[0] + 1, p[1] - 2).into_bytes())], 1)
    } else if file.ends_with("move_point.js") {
        let p = numbers_of(text);
        (vec![Chunk::StdOut(format!("{{\"x\":{},\"y\":{}}}\n", p[0] * 3, p[1] * 3).into_bytes())], 2)
    } else if file.ends_with("shout.py") {
        (vec![Chunk::StdErr(b"shouting".to_vec()), Chunk::StdOut(text.to_uppercase().into_bytes())], 1)
    } else if file.ends_with("sleepy.py") {
        (vec![Chunk::StdOut(text.as_bytes().to_vec())], 9)
    } else if file.ends_with("garbage.py") {
        (vec![Chunk::StdOut(vec![0xff])], 1)
    } else {
        (vec![Chunk::StdOut(text.as_bytes().to_vec())], 1)
    }
}

fn drive_step(world: &mut World, mut run: SandboxRun) -> (Result<RunOutput, SandboxError>, TimeSpan) {
    let mut file = String::new();
    let mut written: Option<String> = None;
    let mut chunks: Vec<Chunk> = Vec::new();
    let mut is_build = false;
    let mut spent: u64 = 0;
    for _ in 0..64 {
        let event = match run.action() {
            RunAction::Finish { result } => {
                world.inputs.push(written);
                return (result, TimeSpan::from_secs(spent));
            }
            RunAction::CreateStaging => {
                world.live += 1;
                RunEvent::StagingCreated { directory: "/tmp/w".to_string() }
            }
            RunAction::CopyCode { src, .. } => {
                world.steps_run.push(src.clone());
                file = src;
                RunEvent::Completed
            }
            RunAction::CreateContainer { config, .. } => {
                world.live += 1;
                is_build = config.cmd[0] == "javac";
                RunEvent::ContainerCreated { container_id: "box".to_string() }
            }
            RunAction::Attach { .. } | RunAction::Start { .. } => RunEvent::Completed,
            RunAction::WriteStdin { payload, .. } => {
                written = Some(payload);
                RunEvent::Completed
            }
            RunAction::AwaitExit { timeout, .. } => {
                if is_build {
                    RunEvent::Exited { status: 0 }
                } else {
                    let (out, needed) = program_output(&file, written.as_deref());
                    chunks = out;
                    if TimeSpan::from_secs(needed) > timeout {
                        spent += (timeout.nanos / 1_000_000_000) as u64;
                        RunEvent::TimedOut
                    } else {
                        spent += needed;
                        RunEvent::Exited { status: 0 }
                    }
                }
            }
            RunAction::Drain { .. } => RunEvent::Drained { chunks: std::mem::take(&mut chunks) },
            RunAction::RemoveContainer { .. } | RunAction::RemoveStaging { .. } => {
                world.live -= 1;
                RunEvent::Completed
            }
        };
        run = run.advance(event);
    }
    panic!("the step did not come to an end");
}

fn sandbox_from(builder: &WorkflowBuilder, fit: bool) -> Result<DockerSandbox, SandboxError> {
    let mut setup = builder.sandbox_setup();
    for _ in 0..8 {
        let event = match setup.action() {
            SetupAction::Probe { .. } => SetupEvent::Probed {
                probe: DirectoryProbe { is_directory: true, has_dockerfile: fit, absolute: Ok("/abs/docker".to_string()) },
            },
            SetupAction::BuildImage { .. } => SetupEvent::BuildEnded,
            SetupAction::Finish { result } => return result,
        };
        setup = setup.advance(event);
    }
    panic!("the setup did not come to an end");
}

fn build(builder: WorkflowBuilder) -> Result<Workflow, WorkflowError> {
    let sandbox = sandbox_from(&builder, true);
    builder.build(sandbox)
}

fn execute(world: &mut World, workflow: &Workflow) -> Result<WorkflowResult, WorkflowError> {
    let mut run = workflow.execute();
    for _ in 0..64 {
        let event = match run.action() {
            WorkflowAction::Finish { result } => return result,
            WorkflowAction::RunStep { step_idx, run: step } => {
                assert_eq!(world.inputs.len() % workflow.steps().len(), step_idx);
                let (outcome, exec_time) = drive_step(world, step);
                WorkflowEvent::StepFinished { outcome, exec_time }
            }
            WorkflowAction::RunExport { export_idx, export, output } => {
                let what = match export {
                    Export::SaveFile { path, .. } => format!("save {path}"),
                    Export::SendEmail { to, subject, .. } => format!("mail {to} {subject}"),
                };
                world.exports_run.push(format!("{what}: {}", output.unwrap_or_default()));
                let failure = if world.failing_export == Some(export_idx) {
                    Some(SandboxError::Execute { cmd: what, cause: "refused".to_string() })
                } else {
                    None
                };
                WorkflowEvent::ExportFinished { failure, exec_time: TimeSpan::from_millis(500) }
            }
        };
        run = run.advance(event);
    }
    panic!("the workflow did not come to an end");
}

fn step(lang: Language, file: &str, secs: u64) -> Step {
    Step::new(lang, file, TimeSpan::from_secs(secs), "a step")
}

#[test]
fn test_workflow_success() {
    let point = format!("{}\n", "{\"x\":2,\"y\":5}");
    let workflow = build(
        Workflow::builder("./docker", "sandbox")
            .input(Some(&point))
            .add_step(Step::new(Language::Python, "./example_code/move_point.py", TimeSpan::from_secs(3), "python script to move a point"))
            .add_step(Step::new(Language::JavaScript, "./example_code/move_point.js", TimeSpan::from_secs(3), "JS script to move a point"))
            .add_step(Step::new(Language::Python, "./example_code/move_point.py", TimeSpan::from_secs(3), "python script to move a point"))
            .add_step(Step::new(Language::JavaScript, "./example_code/move_point.js", TimeSpan::from_secs(3), "JS script to move a point")),
    )
    .unwrap();
    let mut world = new_world();
    let result = execute(&mut world, &workflow).unwrap();
    let output = result.output().expect("Workflow did not produce any output");
    assert_eq!(vec![30, 21], numbers_of(output));
    assert!(result.exec_time() <= TimeSpan::from_secs(12));
    assert_eq!(TimeSpan::from_secs(6), result.exec_time());
    assert_eq!(Some(TimeSpan::from_secs(6)), result.checked_exec_time());
    assert_eq!(4, result.step_results().len());
    assert_eq!(0, result.export_results().len());
    for (place, step_result) in result.step_results().iter().enumerate() {
        assert_eq!(place, step_result.step_idx);
        assert!(step_result.stderr.is_empty());
    }
    assert_eq!("{\"x\":3,\"y\":3}\n", result.step_results()[0].stdout);
    assert_eq!("{\"x\":9,\"y\":9}\n", result.step_results()[1].stdout);
    assert_eq!("{\"x\":10,\"y\":7}\n", result.step_results()[2].stdout);
    assert_eq!(0, world.live);
}

#[test]
fn each_step_is_fed_the_output_of_the_one_before() {
    let workflow = build(
        Workflow::builder("./docker", "sandbox")
            .input(Some("seed"))
            .add_step(step(Language::Python, "shout.py", 3))
            .add_step(step(Language::JavaScript, "echo.js", 3))
            .add_step(step(Language::Java, "Echo.java", 3)),
    )
    .unwrap();
    let mut world = new_world();
    let result = execute(&mut world, &workflow).unwrap();
    assert_eq!(vec![Some("seed".to_string()), Some("SEED".to_string()), Some("SEED".to_string())], world.inputs);
    assert_eq!("shouting", result.step_results()[0].stderr);
    assert_eq!(Some("SEED"), result.output());
}

#[test]
fn first_step_of_a_workflow_without_input_gets_none() {
    let workflow = build(Workflow::builder("./docker", "sandbox").add_step(step(Language::Python, "echo.py", 3))).unwrap();
    assert_eq!(None, workflow.input());
    let mut world = new_world();
    let result = execute(&mut world, &workflow).unwrap();
    assert_eq!(vec![None], world.inputs);
    assert_eq!(Some(""), result.output());
}

#[test]
fn failed_step_keeps_the_results_before_it() {
    for failing in 0..4 {
        let mut builder = Workflow::builder("./docker", "sandbox").input(Some("in"));
        for place in 0..4 {
            let file = if place == failing { "sleepy.py" } else { "echo.py" };
            builder = builder.add_step(step(Language::Python, file, 3));
        }
        builder = builder.add_export(Export::SaveFile { desc: "keep".to_string(), path: "out.txt".to_string() });
        let workflow = build(builder).unwrap();
        let mut world = new_world();
        match execute(&mut world, &workflow) {
            Err(WorkflowError::StepError { source, prev_steps_results }) => {
                assert!(matches!(source, SandboxError::Timeout { .. }));
                assert_eq!(failing, prev_steps_results.len());
                for (place, step_result) in prev_steps_results.iter().enumerate() {
                    assert_eq!(place, step_result.step_idx);
                    assert_eq!("in", step_result.stdout);
                    assert_eq!(TimeSpan::from_secs(1), step_result.exec_time);
                }
            }
            other => panic!("step {failing} did not fail: {other:?}"),
        }
        assert_eq!(failing + 1, world.steps_run.len());
        assert!(world.exports_run.is_empty());
        assert_eq!(0, world.live);
    }
}

#[test]
fn failed_step_reports_its_place() {
    let workflow = build(
        Workflow::builder("./docker", "sandbox")
            .add_step(step(Language::Python, "echo.py", 3))
            .add_step(step(Language::Python, "garbage.py", 3)),
    )
    .unwrap();
    let mut world = new_world();
    let error = execute(&mut world, &workflow).unwrap_err();
    assert_eq!(Some(1), error.failed_step());
    assert!(matches!(error, WorkflowError::StepError { source: SandboxError::InvalidBytesStdOut { valid_up_to: 0 }, .. }));
}

#[test]
fn exports_run_in_order_after_the_last_step() {
    let workflow = build(
        Workflow::builder("./docker", "sandbox")
            .input(Some("report"))
            .add_step(step(Language::Python, "shout.py", 3))
            .add_export(Export::SaveFile { desc: "file".to_string(), path: "/out/report.txt".to_string() })
            .add_export(Export::SendEmail { desc: "mail".to_string(), to: "ops@example.org".to_string(), subject: "done".to_string() }),
    )
    .unwrap();
    assert_eq!(2, workflow.exports().len());
    let mut world = new_world();
    let result = execute(&mut world, &workflow).unwrap();
    assert_eq!(vec!["save /out/report.txt: REPORT", "mail ops@example.org done: REPORT"], world.exports_run);
    assert_eq!(2, result.export_results().len());
    assert_eq!(0, result.export_results()[0].export_idx);
    assert_eq!(1, result.export_results()[1].export_idx);
    assert_eq!(TimeSpan::from_millis(500), result.export_results()[1].exec_time);
    assert_eq!(TimeSpan::from_secs(2), result.exec_time());
}

#[test]
fn failed_export_keeps_steps_and_earlier_exports() {
    let workflow = build(
        Workflow::builder("./docker", "sandbox")
            .input(Some("x"))
            .add_step(step(Language::Python, "echo.py", 3))
            .add_step(step(Language::Python, "echo.py", 3))
            .add_export(Export::SaveFile { desc: "a".to_string(), path: "a".to_string() })
            .add_export(Export::SaveFile { desc: "b".to_string(), path: "b".to_string() })
            .add_export(Export::SaveFile { desc: "c".to_string(), path: "c".to_string() }),
    )
    .unwrap();
    let mut world = new_world();
    world.failing_export = Some(1);
    match execute(&mut world, &workflow) {
        Err(WorkflowError::ExportError { source, prev_step_results, prev_export_results }) => {
            assert!(matches!(source, SandboxError::Execute { .. }));
            assert_eq!(2, prev_step_results.len());
            assert_eq!(1, prev_export_results.len());
            assert_eq!(0, prev_export_results[0].export_idx);
        }
        other => panic!("{other:?}"),
    }
    assert_eq!(2, world.exports_run.len());
    let error = WorkflowError::SandboxInit(SandboxError::InvalidBytesStdErr { valid_up_to: 0 });
    assert_eq!(None, error.failed_step());
}

#[test]
fn workflow_without_steps_has_no_output() {
    let workflow = build(Workflow::builder("./docker", "sandbox").input(Some("unused"))).unwrap();
    assert_eq!(0, workflow.steps().len());
    let mut world = new_world();
    let result = execute(&mut world, &workflow).unwrap();
    assert_eq!(None, result.output());
    assert_eq!(TimeSpan::from_nanos(0), result.exec_time());
    assert!(world.steps_run.is_empty());
}

#[test]
fn workflow_without_steps_still_runs_its_exports() {
    let workflow = build(
        Workflow::builder("./docker", "sandbox").add_export(Export::SaveFile { desc: "d".to_string(), path: "p".to_string() }),
    )
    .unwrap();
    let mut world = new_world();
    let result = execute(&mut world, &workflow).unwrap();
    assert_eq!(vec!["save p: "], world.exports_run);
    assert_eq!(1, result.export_results().len());
}

#[test]
fn sandbox_that_cannot_be_set_up_gives_no_workflow() {
    let builder = Workflow::builder("./nowhere", "sandbox").add_step(step(Language::Python, "echo.py", 3));
    let sandbox = sandbox_from(&builder, false);
    match builder.build(sandbox) {
        Err(WorkflowError::SandboxInit(SandboxError::MissingDockerfile(directory))) => assert_eq!("./nowhere", directory),
        other => panic!("{other:?}"),
    }
}

#[test]
fn builder_keeps_what_it_was_given() {
    let workflow = build(
        Workflow::builder("./docker", "tagged")
            .input(Some("first"))
            .input(Some("second"))
            .add_step(Step::new(Language::Java, "A.java", TimeSpan::from_millis(1500), "compile and run"))
            .add_step(step(Language::JavaScript, "b.js", 2)),
    )
    .unwrap();
    assert_eq!(Some("second"), workflow.input());
    assert_eq!("tagged", workflow.sandbox().image_tag());
    assert_eq!(2, workflow.steps().len());
    let first = &workflow.steps()[0];
    assert_eq!(Language::Java, first.lang);
    assert_eq!("A.java", first.code_file);
    assert_eq!(1_500_000_000, first.timeout.nanos);
    assert_eq!("compile and run", first.desc);
    assert_eq!("b.js", workflow.steps()[1].code_file);
    let cleared = build(Workflow::builder("./docker", "t").input(Some("x")).input(None)).unwrap();
    assert_eq!(None, cleared.input());
}

#[test]
fn executing_twice_gives_two_results_of_their_own() {
    let workflow = build(
        Workflow::builder("./docker", "sandbox")
            .input(Some("again"))
            .add_step(step(Language::Python, "shout.py", 3))
            .add_step(step(Language::Java, "Echo.java", 3)),
    )
    .unwrap();
    let mut world = new_world();
    let first = execute(&mut world, &workflow).unwrap();
    let second = execute(&mut world, &workflow).unwrap();
    assert_eq!(Some("AGAIN"), first.output());
    assert_eq!(first.output(), second.output());
    assert_eq!(2, first.step_results().len());
    assert_eq!(2, second.step_results().len());
    assert_eq!(first.exec_time(), second.exec_time());
    assert_eq!(4, world.steps_run.len());
    assert_eq!(0, world.live);
}

#[test]
fn failed_run_can_be_repeated_with_more_time() {
    let hasty = build(Workflow::builder("./docker", "sandbox").input(Some("z")).add_step(step(Language::Python, "sleepy.py", 3))).unwrap();
    let patient = build(Workflow::builder("./docker", "sandbox").input(Some("z")).add_step(step(Language::Python, "sleepy.py", 10))).unwrap();
    let mut world = new_world();
    assert!(matches!(execute(&mut world, &hasty), Err(WorkflowError::StepError { .. })));
    let result = execute(&mut world, &patient).unwrap();
    assert_eq!(Some("z"), result.output());
    assert_eq!(TimeSpan::from_secs(9), result.exec_time());
}

#[test]
fn exec_time_that_is_too_long_to_hold_is_told() {
    let workflow = build(
        Workflow::builder("./docker", "sandbox")
            .add_step(step(Language::Python, "echo.py", 3))
            .add_step(step(Language::Python, "echo.py", 3)),
    )
    .unwrap();
    let mut run = workflow.execute();
    for _ in 0..2 {
        run = run.advance(WorkflowEvent::StepFinished {
            outcome: Ok(RunOutput { stdout: String::new(), stderr: String::new() }),
            exec_time: TimeSpan::from_nanos(u128::MAX / 2 + 1),
        });
    }
    match run.action() {
        WorkflowAction::Finish { result: Ok(result) } => assert_eq!(None, result.checked_exec_time()),
        other => panic!("{other:?}"),
    }
}

#[test]
fn event_of_the_wrong_kind_changes_nothing() {
    let workflow = build(Workflow::builder("./docker", "sandbox").add_step(step(Language::Python, "echo.py", 3))).unwrap();
    let run = workflow.execute();
    let run = run.advance(WorkflowEvent::ExportFinished { failure: None, exec_time: TimeSpan::from_secs(1) });
    match run.action() {
        WorkflowAction::RunStep { step_idx, .. } => assert_eq!(0, step_idx),
        other => panic!("{other:?}"),
    }
}

use rustychains::sandbox::Chunk;
use rustychains::sandbox::DirectoryProbe;
use rustychains::sandbox::DockerSandbox;
use rustychains::sandbox::Language;
use rustychains::sandbox::RunAction;
use rustychains::sandbox::RunEvent;
use rustychains::sandbox::RunOutput;
use rustychains::sandbox::SandboxError;
use rustychains::sandbox::SetupAction;
use rustychains::sandbox::SetupEvent;
use rustychains::sandbox::Stage;
use rustychains::timespan::TimeSpan;

/// What a scripted program does with its input: the chunks it writes and the
/// seconds it takes.
type Program = fn(Option<&str>) -> (Vec<Chunk>, u64);

/// A stand-in for the container runtime and the file system. It does as it
/// is asked and fails where it is told to.
struct Runtime {
    program: Program,
    build_status: u64,
    fail_at: Option<&'static str>,
    log: Vec<String>,
    live_containers: usize,
    live_staging: usize,
    containers_made: usize,
}

fn runtime_for(program: Program) -> Runtime {
    Runtime {
        program,
        build_status: 0,
        fail_at: None,
        log: Vec::new(),
        live_containers: 0,
        live_staging: 0,
        containers_made: 0,
    }
}

fn failing(runtime: &Runtime, action: &str) -> Option<RunEvent> {
    if runtime.fail_at == Some(action) {
        Some(RunEvent::Failed { cause: format!("{action} went wrong") })
    } else {
        None
    }
}

fn drive(runtime: &mut Runtime, sandbox: &DockerSandbox, file: &str, lang: Language, secs: u64, stdin: Option<&str>) -> Result<RunOutput, SandboxError> {
    let mut run = sandbox.run_code(file, lang, TimeSpan::from_secs(secs), stdin);
    let mut written: Option<String> = None;
    let mut is_build = false;
    let mut chunks: Vec<Chunk> = Vec::new();
    for _ in 0..64 {
        let event = match run.action() {
            RunAction::Finish { result } => return result,
            RunAction::CreateStaging => {
                runtime.log.push("stage".to_string());
                failing(runtime, "stage").unwrap_or_else(|| {
                    runtime.live_staging += 1;
                    RunEvent::StagingCreated { directory: "/tmp/stage".to_string() }
                })
            }
            RunAction::CopyCode { src, dest } => {
                runtime.log.push(format!("copy {src} {dest}"));
                failing(runtime, "copy").unwrap_or(RunEvent::Completed)
            }
            RunAction::CreateContainer { config, .. } => {
                runtime.log.push(format!("create {}", config.cmd.join(" ")));
                is_build = config.cmd[0] == "javac";
                failing(runtime, "create").unwrap_or_else(|| {
                    runtime.live_containers += 1;
                    runtime.containers_made += 1;
                    RunEvent::ContainerCreated { container_id: format!("c{}", runtime.containers_made) }
                })
            }
            RunAction::Attach { container_id } => {
                runtime.log.push(format!("attach {container_id}"));
                failing(runtime, "attach").unwrap_or(RunEvent::Completed)
            }
            RunAction::Start { container_id } => {
                runtime.log.push(format!("start {container_id}"));
                failing(runtime, "start").unwrap_or(RunEvent::Completed)
            }
            RunAction::WriteStdin { payload, .. } => {
                runtime.log.push("write".to_string());
                written = Some(payload);
                failing(runtime, "write").unwrap_or(RunEvent::Completed)
            }
            RunAction::AwaitExit { timeout, .. } => {
                runtime.log.push("wait".to_string());
                if let Some(event) = failing(runtime, "wait") {
                    event
                } else if is_build {
                    RunEvent::Exited { status: runtime.build_status }
                } else {
                    let (out, needed) = (runtime.program)(written.as_deref());
                    chunks = out;
                    if TimeSpan::from_secs(needed) > timeout {
                        RunEvent::TimedOut
                    } else {
                        RunEvent::Exited { status: 0 }
                    }
                }
            }
            RunAction::Drain { .. } => {
                runtime.log.push("drain".to_string());
                failing(runtime, "drain")
                    .unwrap_or(RunEvent::Drained { chunks: std::mem::take(&mut chunks) })
            }
            RunAction::RemoveContainer { container_id, removal, .. } => {
                assert!(removal.force);
                assert!(removal.volumes);
                runtime.log.push(format!("remove {container_id}"));
                runtime.live_containers -= 1;
                failing(runtime, "remove").unwrap_or(RunEvent::Completed)
            }
            RunAction::RemoveStaging { directory } => {
                runtime.log.push(format!("unstage {directory}"));
                runtime.live_staging -= 1;
                failing(runtime, "unstage").unwrap_or(RunEvent::Completed)
            }
        };
        run = run.advance(event);
    }
    panic!("the run did not come to an end");
}

fn ready_sandbox(directory: &str, tag: &str) -> DockerSandbox {
    let mut setup = DockerSandbox::new(directory, tag);
    for _ in 0..8 {
        let event = match setup.action() {
            SetupAction::Probe { .. } => SetupEvent::Probed {
                probe: DirectoryProbe {
                    is_directory: true,
                    has_dockerfile: true,
                    absolute: Ok(format!("/work/{}", directory.trim_start_matches("./"))),
                },
            },
            SetupAction::BuildImage { .. } => SetupEvent::BuildEnded,
            SetupAction::Finish { result } => return result.expect("the sandbox is set up"),
        };
        setup = setup.advance(event);
    }
    panic!("the setup did not come to an end");
}

fn hello(_stdin: Option<&str>) -> (Vec<Chunk>, u64) {
    (vec![Chunk::StdOut(b"Hello World\n".to_vec())], 0)
}

fn echo(stdin: Option<&str>) -> (Vec<Chunk>, u64) {
    let text = stdin.unwrap_or("");
    (vec![Chunk::StdIn(text.as_bytes().to_vec()), Chunk::StdOut(text.as_bytes().to_vec())], 0)
}

fn slow_echo(stdin: Option<&str>) -> (Vec<Chunk>, u64) {
    (vec![Chunk::StdOut(stdin.unwrap_or("").as_bytes().to_vec())], 4)
}

fn sum_of(stdin: Option<&str>) -> u64 {
    stdin.unwrap_or("").split_whitespace().map(|n| n.parse::<u64>().unwrap()).sum()
}

fn sum_line(stdin: Option<&str>) -> (Vec<Chunk>, u64) {
    (vec![Chunk::StdOut(format!("{}\n", sum_of(stdin)).into_bytes())], 0)
}

fn sum_bare(stdin: Option<&str>) -> (Vec<Chunk>, u64) {
    (vec![Chunk::StdOut(sum_of(stdin).to_string().into_bytes())], 0)
}

fn point_of(text: &str) -> (u64, u64) {
    let digits: Vec<u64> = text
        .split(|c: char| !c.is_ascii_digit())
        .filter(|part| !part.is_empty())
        .map(|part| part.parse().unwrap())
        .collect();
    (digits[0], digits[1])
}

fn move_point_py(stdin: Option<&str>) -> (Vec<Chunk>, u64) {
    let (x, y) = point_of(stdin.unwrap());
    (vec![Chunk::StdOut(format!("{{\"x\":{},\"y\":{}}}\n", x + 1, y - 2).into_bytes())], 0)
}

fn move_point_js(stdin: Option<&str>) -> (Vec<Chunk>, u64) {
    let (x, y) = point_of(stdin.unwrap());
    (vec![Chunk::StdOut(format!("{{\"x\":{},\"y\":{}}}\n", x * 3, y * 3).into_bytes())], 0)
}

fn noisy(_stdin: Option<&str>) -> (Vec<Chunk>, u64) {
    (
        vec![
            Chunk::StdErr(b"warn ".to_vec()),
            Chunk::StdOut(b"a".to_vec()),
            Chunk::StdIn(b"ignored".to_vec()),
            Chunk::StdErr(b"twice".to_vec()),
            Chunk::StdOut(b"b".to_vec()),
        ],
        0,
    )
}

fn bad_stdout(_stdin: Option<&str>) -> (Vec<Chunk>, u64) {
    (vec![Chunk::StdOut(vec![0x66, 0xff, 0x6f]), Chunk::StdErr(vec![0xc0])], 0)
}

fn bad_stderr(_stdin: Option<&str>) -> (Vec<Chunk>, u64) {
    (vec![Chunk::StdOut(b"fine".to_vec()), Chunk::StdErr(vec![0xe2, 0x82])], 0)
}

fn run_once(program: Program, file: &str, lang: Language, secs: u64, stdin: Option<&str>) -> Result<RunOutput, SandboxError> {
    let sandbox = ready_sandbox("./docker", "sandbox");
    let mut runtime = runtime_for(program);
    let result = drive(&mut runtime, &sandbox, file, lang, secs, stdin);
    assert_eq!(0, runtime.live_containers);
    assert_eq!(0, runtime.live_staging);
    result
}

#[test]
fn test_chain() {
    let point = "{\"x\":2,\"y\":5}";
    let point = run_once(move_point_py, "./example_code/move_point.py", Language::Python, 3, Some(&format!("{point}\n"))).unwrap().stdout;
    let point = run_once(move_point_js, "./example_code/move_point.js", Language::JavaScript, 3, Some(&point)).unwrap().stdout;
    let point = run_once(move_point_py, "./example_code/move_point.py", Language::Python, 3, Some(&point)).unwrap().stdout;
    let point = run_once(move_point_js, "./example_code/move_point.js", Language::JavaScript, 3, Some(&point)).unwrap().stdout;
    assert_eq!((30, 21), point_of(&point));
}

#[test]
fn test_python_hello_world() {
    let output = run_once(hello, "./example_code/hello.py", Language::Python, 3, None).unwrap();
    assert_eq!("Hello World\n", &output.stdout);
    assert!(&output.stderr.is_empty());
}

#[test]
fn test_java_hello_world() {
    let output = run_once(hello, "./example_code/Hello.java", Language::Java, 3, None).unwrap();
    assert_eq!("Hello World\n", &output.stdout);
    assert!(&output.stderr.is_empty());
}

#[test]
fn test_python_echo() {
    let output = run_once(echo, "./example_code/hello.py", Language::Python, 3, Some("Hello World\n")).unwrap();
    assert_eq!("Hello World\n", &output.stdout);
    assert!(&output.stderr.is_empty());
}

#[test]
fn test_java_echo() {
    let output = run_once(echo, "./example_code/Echo.java", Language::Java, 3, Some("Hello World\n")).unwrap();
    assert_eq!("Hello World\n", &output.stdout);
    assert!(&output.stderr.is_empty());
}

#[test]
fn test_javascript_echo() {
    let output = run_once(echo, "./example_code/echo.js", Language::JavaScript, 3, Some("héllo wörld ✓\n")).unwrap();
    assert_eq!("héllo wörld ✓\n", &output.stdout);
    assert!(&output.stderr.is_empty());
}

#[test]
fn test_python_sum() {
    let output = run_once(sum_line, "./example_code/sum.py", Language::Python, 3, Some("3\n5\n8\n")).unwrap();
    assert_eq!("16\n", &output.stdout);
    assert!(&output.stderr.is_empty());
}

#[test]
fn test_javascript_sum() {
    let output = run_once(sum_line, "./example_code/sum.js", Language::JavaScript, 3, Some("3\n5\n8\n")).unwrap();
    assert_eq!("16\n", &output.stdout);
    assert!(&output.stderr.is_empty());
}

#[test]
fn test_java_sum() {
    let output = run_once(sum_bare, "./example_code/Sum.java", Language::Java, 3, Some("3 5 8 ")).unwrap();
    assert_eq!("16", &output.stdout);
    assert!(&output.stderr.is_empty());
}

#[test]
fn test_python_timeout() {
    let result = run_once(slow_echo, "./example_code/slow_echo.py", Language::Python, 3, Some("Hello\n"));
    assert!(match result {
        Ok(_) => false,
        Err(err) => matches!(err, SandboxError::Timeout { .. }),
    });
    let output = run_once(slow_echo, "./example_code/slow_echo.py", Language::Python, 5, Some("Hello\n")).unwrap();
    assert_eq!("Hello\n", output.stdout);
}

#[test]
fn test_java_timeout() {
    let result = run_once(slow_echo, "./example_code/SlowEcho.java", Language::Java, 3, Some("Hello\n"));
    assert!(match result {
        Ok(_) => false,
        Err(err) => matches!(err, SandboxError::Timeout { .. }),
    });
    let output = run_once(slow_echo, "./example_code/SlowEcho.java", Language::Java, 6, Some("Hello\n")).unwrap();
    assert_eq!("Hello\n", output.stdout);
}

#[test]
fn timeout_carries_the_time_that_was_given() {
    match run_once(slow_echo, "slow.py", Language::Python, 3, None) {
        Err(SandboxError::Timeout { timeout }) => assert_eq!(3_000_000_000, timeout.nanos),
        other => panic!("no timeout: {other:?}"),
    }
}

#[test]
fn timed_out_container_is_removed_by_force_before_the_run_ends() {
    let sandbox = ready_sandbox("./docker", "sandbox");
    let mut runtime = runtime_for(slow_echo);
    let result = drive(&mut runtime, &sandbox, "slow.py", Language::Python, 1, Some("x"));
    assert!(matches!(result, Err(SandboxError::Timeout { .. })));
    assert_eq!(
        vec!["stage", "copy slow.py /tmp/stage/slow.py", "create python slow.py", "attach c1", "start c1", "write", "wait", "remove c1", "unstage /tmp/stage"],
        runtime.log
    );
}

#[test]
fn failed_removal_does_not_mask_the_timeout() {
    let sandbox = ready_sandbox("./docker", "sandbox");
    let mut runtime = runtime_for(slow_echo);
    runtime.fail_at = Some("remove");
    let result = drive(&mut runtime, &sandbox, "slow.py", Language::Python, 1, None);
    assert!(matches!(result, Err(SandboxError::Timeout { .. })));
    assert_eq!(0, runtime.live_staging);
}

#[test]
fn failure_of_the_teardown_is_set_aside_not_lost() {
    let sandbox = ready_sandbox("./docker", "sandbox");
    let mut run = sandbox.run_code("slow.py", Language::Python, TimeSpan::from_secs(1), None);
    let events = vec![
        RunEvent::StagingCreated { directory: "/s".to_string() },
        RunEvent::Completed,
        RunEvent::ContainerCreated { container_id: "c9".to_string() },
        RunEvent::Completed,
        RunEvent::Completed,
        RunEvent::TimedOut,
    ];
    for event in events {
        run = run.advance(event);
    }
    assert!(run.later_failures().is_empty());
    run = run.advance(RunEvent::Failed { cause: "daemon gone".to_string() });
    run = run.advance(RunEvent::Failed { cause: "disk gone".to_string() });
    assert!(run.is_done());
    assert!(matches!(run.action(), RunAction::Finish { result: Err(SandboxError::Timeout { .. }) }));
    assert_eq!(2, run.later_failures().len());
    match &run.later_failures()[0] {
        SandboxError::RemoveContainer { container_id, cause } => {
            assert_eq!("c9", container_id);
            assert_eq!("daemon gone", cause);
        }
        other => panic!("{other:?}"),
    }
    match &run.later_failures()[1] {
        SandboxError::RemoveTempDirectory(cause) => assert_eq!("disk gone", cause),
        other => panic!("{other:?}"),
    }
}

#[test]
fn interpreted_run_asks_for_each_action_in_order() {
    let sandbox = ready_sandbox("./docker", "sandbox");
    let mut runtime = runtime_for(echo);
    let output = drive(&mut runtime, &sandbox, "./example_code/echo.js", Language::JavaScript, 3, Some("hi")).unwrap();
    assert_eq!("hi", output.stdout);
    assert_eq!(
        vec![
            "stage",
            "copy ./example_code/echo.js /tmp/stage/echo.js",
            "create node echo.js",
            "attach c1",
            "start c1",
            "write",
            "wait",
            "drain",
            "remove c1",
            "unstage /tmp/stage",
        ],
        runtime.log
    );
}

#[test]
fn run_without_input_writes_nothing() {
    let sandbox = ready_sandbox("./docker", "sandbox");
    let mut runtime = runtime_for(hello);
    drive(&mut runtime, &sandbox, "hello.py", Language::Python, 3, None).unwrap();
    assert!(!runtime.log.contains(&"write".to_string()));
}

#[test]
fn compiled_run_builds_in_a_container_of_its_own() {
    let sandbox = ready_sandbox("./docker", "sandbox");
    let mut runtime = runtime_for(echo);
    let output = drive(&mut runtime, &sandbox, "./example_code/Echo.java", Language::Java, 3, Some("hi")).unwrap();
    assert_eq!("hi", output.stdout);
    assert_eq!(
        vec![
            "stage",
            "copy ./example_code/Echo.java /tmp/stage/Echo.java",
            "create javac Echo.java",
            "attach c1",
            "start c1",
            "wait",
            "remove c1",
            "create java Echo",
            "attach c2",
            "start c2",
            "write",
            "wait",
            "drain",
            "remove c2",
            "unstage /tmp/stage",
        ],
        runtime.log
    );
}

#[test]
fn failed_compile_never_reaches_the_run() {
    let sandbox = ready_sandbox("./docker", "sandbox");
    let mut runtime = runtime_for(hello);
    runtime.build_status = 1;
    let result = drive(&mut runtime, &sandbox, "./example_code/Broken.java", Language::Java, 3, Some("x"));
    match result {
        Err(SandboxError::Execute { cmd, cause }) => {
            assert_eq!("javac Broken.java", cmd);
            assert_eq!("the build command exited with a failure", cause);
        }
        other => panic!("the build did not fail: {other:?}"),
    }
    assert_eq!(1, runtime.containers_made);
    assert_eq!(0, runtime.live_containers);
    assert_eq!(0, runtime.live_staging);
    assert!(!runtime.log.iter().any(|line| line.starts_with("create java ")));
    assert!(!runtime.log.contains(&"drain".to_string()));
}

#[test]
fn build_that_cannot_start_aborts_the_run() {
    let sandbox = ready_sandbox("./docker", "sandbox");
    let mut runtime = runtime_for(hello);
    runtime.fail_at = Some("start");
    let result = drive(&mut runtime, &sandbox, "Hello.java", Language::Java, 3, None);
    match result {
        Err(SandboxError::StartContainer { container_id, cause }) => {
            assert_eq!("c1", container_id);
            assert_eq!("start went wrong", cause);
        }
        other => panic!("{other:?}"),
    }
    assert_eq!(1, runtime.containers_made);
    assert_eq!(0, runtime.live_containers);
}

#[test]
fn streams_are_told_apart_and_echoes_dropped() {
    let output = run_once(noisy, "noisy.py", Language::Python, 3, None).unwrap();
    assert_eq!("ab", output.stdout);
    assert_eq!("warn twice", output.stderr);
}

#[test]
fn bytes_that_are_no_text_on_stdout_are_an_error() {
    let result = run_once(bad_stdout, "bad.py", Language::Python, 3, None);
    assert!(matches!(result, Err(SandboxError::InvalidBytesStdOut { valid_up_to: 1 })));
}

#[test]
fn bytes_that_are_no_text_on_stderr_are_an_error() {
    let result = run_once(bad_stderr, "bad.py", Language::Python, 3, None);
    assert!(matches!(result, Err(SandboxError::InvalidBytesStdErr { valid_up_to: 0 })));
}

#[test]
fn path_without_a_stem_is_refused_before_any_container() {
    let sandbox = ready_sandbox("./docker", "sandbox");
    let mut runtime = runtime_for(hello);
    let result = drive(&mut runtime, &sandbox, "/", Language::Python, 3, None);
    match result {
        Err(SandboxError::InvalidCodeFile(path)) => assert_eq!("/", path),
        other => panic!("{other:?}"),
    }
    assert_eq!(vec!["stage", "unstage /tmp/stage"], runtime.log);
}

#[test]
fn staging_that_cannot_be_created_ends_the_run() {
    let sandbox = ready_sandbox("./docker", "sandbox");
    let mut runtime = runtime_for(hello);
    runtime.fail_at = Some("stage");
    let result = drive(&mut runtime, &sandbox, "hello.py", Language::Python, 3, None);
    match result {
        Err(SandboxError::CreateTempDirectory(cause)) => assert_eq!("stage went wrong", cause),
        other => panic!("{other:?}"),
    }
    assert_eq!(vec!["stage"], runtime.log);
}

#[test]
fn failed_copy_removes_the_staging_directory() {
    let sandbox = ready_sandbox("./docker", "sandbox");
    let mut runtime = runtime_for(hello);
    runtime.fail_at = Some("copy");
    let result = drive(&mut runtime, &sandbox, "src/hello.py", Language::Python, 3, None);
    match result {
        Err(SandboxError::CopyCodeFile { src, dest, cause }) => {
            assert_eq!("src/hello.py", src);
            assert_eq!("/tmp/stage/hello.py", dest);
            assert_eq!("copy went wrong", cause);
        }
        other => panic!("{other:?}"),
    }
    assert_eq!(vec!["stage", "copy src/hello.py /tmp/stage/hello.py", "unstage /tmp/stage"], runtime.log);
}

#[test]
fn failed_create_carries_the_image_tag() {
    let sandbox = ready_sandbox("./docker", "runner:1");
    let mut runtime = runtime_for(hello);
    runtime.fail_at = Some("create");
    let result = drive(&mut runtime, &sandbox, "hello.py", Language::Python, 3, None);
    match result {
        Err(SandboxError::CreateContainer { image_tag, cause }) => {
            assert_eq!("runner:1", image_tag);
            assert_eq!("create went wrong", cause);
        }
        other => panic!("{other:?}"),
    }
    assert_eq!(0, runtime.live_staging);
}

#[test]
fn failed_attach_removes_the_container() {
    let sandbox = ready_sandbox("./docker", "sandbox");
    let mut runtime = runtime_for(hello);
    runtime.fail_at = Some("attach");
    let result = drive(&mut runtime, &sandbox, "hello.py", Language::Python, 3, None);
    match result {
        Err(SandboxError::AtachToContainer { container_id, .. }) => assert_eq!("c1", container_id),
        other => panic!("{other:?}"),
    }
    assert_eq!(0, runtime.live_containers);
    assert!(!runtime.log.contains(&"start c1".to_string()));
}

#[test]
fn failed_write_is_reported_as_such() {
    let sandbox = ready_sandbox("./docker", "sandbox");
    let mut runtime = runtime_for(echo);
    runtime.fail_at = Some("write");
    let result = drive(&mut runtime, &sandbox, "echo.py", Language::Python, 3, Some("in"));
    match result {
        Err(SandboxError::WriteToStdin(cause)) => assert_eq!("write went wrong", cause),
        other => panic!("{other:?}"),
    }
    assert_eq!(0, runtime.live_containers);
    assert!(!runtime.log.contains(&"wait".to_string()));
}

#[test]
fn failed_wait_and_failed_drain_carry_the_command() {
    for stage in ["wait", "drain"] {
        let sandbox = ready_sandbox("./docker", "sandbox");
        let mut runtime = runtime_for(echo);
        runtime.fail_at = Some(stage);
        let result = drive(&mut runtime, &sandbox, "dir/echo.py", Language::Python, 3, None);
        match result {
            Err(SandboxError::Execute { cmd, cause }) => {
                assert_eq!("python echo.py", cmd);
                assert_eq!(format!("{stage} went wrong"), cause);
            }
            other => panic!("{other:?}"),
        }
        assert_eq!(0, runtime.live_containers);
        assert_eq!(0, runtime.live_staging);
    }
}

#[test]
fn failed_removal_after_a_good_run_is_the_error() {
    let sandbox = ready_sandbox("./docker", "sandbox");
    let mut runtime = runtime_for(hello);
    runtime.fail_at = Some("remove");
    let result = drive(&mut runtime, &sandbox, "hello.py", Language::Python, 3, None);
    match result {
        Err(SandboxError::RemoveContainer { container_id, cause }) => {
            assert_eq!("c1", container_id);
            assert_eq!("remove went wrong", cause);
        }
        other => panic!("{other:?}"),
    }
    assert_eq!(0, runtime.live_staging);
}

#[test]
fn failed_unstaging_after_a_good_run_is_the_error() {
    let sandbox = ready_sandbox("./docker", "sandbox");
    let mut runtime = runtime_for(hello);
    runtime.fail_at = Some("unstage");
    let result = drive(&mut runtime, &sandbox, "hello.py", Language::Python, 3, None);
    match result {
        Err(SandboxError::RemoveTempDirectory(cause)) => assert_eq!("unstage went wrong", cause),
        other => panic!("{other:?}"),
    }
}

#[test]
fn stray_event_changes_nothing() {
    let sandbox = ready_sandbox("./docker", "sandbox");
    let run = sandbox.run_code("hello.py", Language::Python, TimeSpan::from_secs(3), None);
    assert_eq!(Stage::Staging, run.stage());
    let run = run.advance(RunEvent::Completed);
    assert_eq!(Stage::Staging, run.stage());
    let run = run.advance(RunEvent::Exited { status: 0 });
    assert_eq!(Stage::Staging, run.stage());
    let run = run.advance(RunEvent::StagingCreated { directory: "/s".to_string() });
    assert_eq!(Stage::Copying, run.stage());
    let run = run.advance(RunEvent::TimedOut);
    assert_eq!(Stage::Copying, run.stage());
    assert!(!run.is_done());
}

#[test]
fn nonzero_exit_of_the_run_command_still_gives_its_output() {
    let sandbox = ready_sandbox("./docker", "sandbox");
    let mut run = sandbox.run_code("fail.py", Language::Python, TimeSpan::from_secs(3), None);
    let events = vec![
        RunEvent::StagingCreated { directory: "/s".to_string() },
        RunEvent::Completed,
        RunEvent::ContainerCreated { container_id: "c".to_string() },
        RunEvent::Completed,
        RunEvent::Completed,
        RunEvent::Exited { status: 2 },
        RunEvent::Drained { chunks: vec![Chunk::StdErr(b"Traceback".to_vec())] },
        RunEvent::Completed,
        RunEvent::Completed,
    ];
    for event in events {
        run = run.advance(event);
    }
    assert!(run.is_done());
    match run.action() {
        RunAction::Finish { result: Ok(output) } => {
            assert_eq!("", output.stdout);
            assert_eq!("Traceback", output.stderr);
        }
        other => panic!("{other:?}"),
    }
}

#[test]
fn same_sandbox_runs_again_with_nothing_left_over() {
    let sandbox = ready_sandbox("./docker", "sandbox");
    let mut runtime = runtime_for(echo);
    let first = drive(&mut runtime, &sandbox, "echo.py", Language::Python, 3, Some("one")).unwrap();
    let second = drive(&mut runtime, &sandbox, "echo.py", Language::Python, 3, Some("two")).unwrap();
    assert_eq!("one", first.stdout);
    assert_eq!("two", second.stdout);
    assert_eq!(2, runtime.containers_made);
    assert_eq!(0, runtime.live_containers);
    assert_eq!(0, runtime.live_staging);
}

use rig::config::ProjectConfig;
use rig::executor::ProcessOutcome;
use rig::locate::RootError;
use rig::manifest::manifest_name;
use rig::new::{
    handle_project_directory_creation, new_project, next_steps_text, overwrite_confirmed,
    DirectoryAction, NewError,
};
use rig::run::{executable_path, find_project_details, RunAction, RunError, RunEvent, RunSession};
use rig::vcpkg::{initialize_manifest_and_dependencies, Platform, VcpkgPaths};

fn demo_config(deps: &[&str]) -> ProjectConfig {
    ProjectConfig::new(
        "demo".to_string(),
        VcpkgPaths::for_root("/opt/vcpkg".to_string(), Platform::Unix),
        deps.iter().map(|d| d.to_string()).collect(),
        "17".to_string(),
    )
}

fn strings(v: &[&str]) -> Vec<String> {
    v.iter().map(|s| s.to_string()).collect()
}

#[test]
fn new_demo_with_two_dependencies() {
    let c = demo_config(&["fmt", "spdlog"]);
    let plan = new_project(&c, Platform::Unix, false, "").ok().unwrap();
    assert_eq!(plan.directory, DirectoryAction::Create);
    assert_eq!(plan.files.len(), 5);
    assert_eq!(plan.files[0].path, "demo/CMakeLists.txt");
    assert!(plan.files[0].content.contains("find_package(fmt CONFIG REQUIRED)"));
    assert!(plan.files[0].content.contains("find_package(spdlog CONFIG REQUIRED)"));
    assert!(plan.files[0].content.contains("PRIVATE fmt::fmt spdlog::spdlog)"));
    let args: Vec<Vec<String>> = plan.commands.iter().map(|c| c.args.clone()).collect();
    assert_eq!(
        args,
        vec![
            strings(&["new", "--application"]),
            strings(&["add", "port", "fmt"]),
            strings(&["add", "port", "spdlog"])
        ]
    );
    for cmd in &plan.commands {
        assert_eq!(cmd.program, "/opt/vcpkg/vcpkg");
        assert_eq!(cmd.dir, Some("demo".to_string()));
    }
}

#[test]
fn new_declined_overwrite_aborts() {
    let c = demo_config(&["fmt"]);
    assert_eq!(new_project(&c, Platform::Unix, true, "n\n").err(), Some(NewError::Aborted));
    assert_eq!(new_project(&c, Platform::Unix, true, "\n").err(), Some(NewError::Aborted));
}

#[test]
fn new_confirmed_overwrite_replaces() {
    let c = demo_config(&[]);
    let plan = new_project(&c, Platform::Unix, true, " Y \n").ok().unwrap();
    assert_eq!(plan.directory, DirectoryAction::Replace);
    assert_eq!(plan.commands.len(), 1);
}

#[test]
fn manifest_commands_skip_empty_names() {
    let c = demo_config(&["", "fmt", ""]);
    let cmds = initialize_manifest_and_dependencies(&c);
    assert_eq!(cmds.len(), 2);
    assert_eq!(cmds[1].args, strings(&["add", "port", "fmt"]));
}

#[test]
fn overwrite_answers() {
    assert!(overwrite_confirmed("y"));
    assert!(overwrite_confirmed("Y\n"));
    assert!(overwrite_confirmed("  y\r\n"));
    assert!(!overwrite_confirmed("yes"));
    assert!(!overwrite_confirmed(""));
    assert!(!overwrite_confirmed("n"));
}

#[test]
fn directory_creation_decision() {
    assert_eq!(handle_project_directory_creation(false, ""), Ok(DirectoryAction::Create));
    assert_eq!(handle_project_directory_creation(true, "y\n"), Ok(DirectoryAction::Replace));
    assert_eq!(handle_project_directory_creation(true, "no\n"), Err(NewError::Aborted));
}

#[test]
fn next_steps_mention_project() {
    let text = next_steps_text("demo", "\"/work/demo\"");
    assert!(text.starts_with("\nProject 'demo' created successfully!\n  Path: \"/work/demo\"\n"));
    assert!(text.contains("1. `cd demo`\n"));
    assert!(text.contains("(e.g., `./build/dev/demo` or `build\\dev\\demo.exe`)\n"));
    assert!(text.ends_with("2. Build: `cmake --build --preset release`\n"));
}

#[test]
fn manifest_name_is_read() {
    let m = "{\n  \"name\": \"demo\",\n  \"version-string\": \"0.1\"\n}\n";
    assert_eq!(manifest_name(m), Some("demo".to_string()));
    assert_eq!(manifest_name("{\r\n  \"name\" : \"x\"\r\n}"), None);
    assert_eq!(manifest_name("\"name\": \"a:b\","), Some("a".to_string()));
    assert_eq!(manifest_name("\"name\": \"\","), None);
    assert_eq!(manifest_name("{}"), None);
    assert_eq!(manifest_name(""), None);
    assert_eq!(manifest_name("{\r\n\t\"name\":\"tool\",\r\n\"name\": \"other\"\r\n}"), Some("tool".to_string()));
}

#[test]
fn target_name_sources() {
    let m = Some("{\n \"name\": \"fromfile\"\n}".to_string());
    assert_eq!(
        find_project_details(Some("t".to_string()), m.clone(), Some("dir".to_string())),
        Ok("t".to_string())
    );
    assert_eq!(find_project_details(None, m, Some("dir".to_string())), Ok("fromfile".to_string()));
    assert_eq!(
        find_project_details(None, Some("{}".to_string()), Some("dir".to_string())),
        Ok("dir".to_string())
    );
    assert_eq!(find_project_details(None, None, None), Err(RunError::TargetNameUnknown));
}

#[test]
fn executable_locations() {
    assert_eq!(executable_path(Platform::Unix, "/p", "dev", "demo"), "/p/build/dev/demo");
    assert_eq!(executable_path(Platform::Windows, "C:\\p", "dev", "demo"), "C:\\p\\build\\dev\\demo.exe");
    assert_eq!(executable_path(Platform::Windows, "C:\\p", "dev", "my.tool"), "C:\\p\\build\\dev\\my.exe");
}

fn session() -> RunSession {
    RunSession::new(Platform::Unix, "dev".to_string(), None, false, strings(&["a", "b"]))
}

#[test]
fn run_builds_first() {
    let mut s = session();
    match s.step(RunEvent::Begin) {
        RunAction::Build(preset, clean) => {
            assert_eq!(preset, "dev");
            assert!(!clean);
        }
        _ => panic!("a run starts with the build"),
    }
}

#[test]
fn run_fails_when_executable_absent_after_build() {
    let mut s = session();
    s.step(RunEvent::Begin);
    assert!(matches!(s.step(RunEvent::BuildFinished(Ok(()))), RunAction::LocateProject));
    match s.step(RunEvent::ProjectFound("/p".to_string(), None, Some("demo".to_string()))) {
        RunAction::CheckExecutable(path) => assert_eq!(path, "/p/build/dev/demo"),
        _ => panic!("the executable is checked"),
    }
    match s.step(RunEvent::ExecutableChecked(false)) {
        RunAction::Fail(e) => {
            assert_eq!(e, RunError::ExecutableNotFound("/p/build/dev/demo".to_string()))
        }
        _ => panic!("a missing executable is never run"),
    }
}

#[test]
fn run_executes_and_forwards_exit_code() {
    let mut s = session();
    s.step(RunEvent::Begin);
    s.step(RunEvent::BuildFinished(Ok(())));
    s.step(RunEvent::ProjectFound("/p".to_string(), None, Some("demo".to_string())));
    match s.step(RunEvent::ExecutableChecked(true)) {
        RunAction::Execute(cmd) => {
            assert_eq!(cmd.program, "/p/build/dev/demo");
            assert_eq!(cmd.args, strings(&["a", "b"]));
            assert_eq!(cmd.dir, Some("/p".to_string()));
        }
        _ => panic!("the executable is run"),
    }
    assert!(matches!(s.step(RunEvent::ProcessEnded(ProcessOutcome::Exited(3))), RunAction::Exit(3)));
}

#[test]
fn run_reports_signal_and_missing_root() {
    let mut s = session();
    s.step(RunEvent::Begin);
    s.step(RunEvent::BuildFinished(Ok(())));
    match s.step(RunEvent::ProjectMissing(RootError::NotFound)) {
        RunAction::Fail(e) => assert_eq!(e, RunError::ProjectRoot(RootError::NotFound)),
        _ => panic!("a missing root fails"),
    }
    let mut t = session();
    t.step(RunEvent::Begin);
    t.step(RunEvent::BuildFinished(Ok(())));
    t.step(RunEvent::ProjectFound("/p".to_string(), None, Some("demo".to_string())));
    t.step(RunEvent::ExecutableChecked(true));
    match t.step(RunEvent::ProcessEnded(ProcessOutcome::Terminated)) {
        RunAction::Fail(e) => assert_eq!(e, RunError::Terminated),
        _ => panic!("a signal is an error"),
    }
}

#[test]
fn run_out_of_order_event_fails() {
    let mut s = session();
    match s.step(RunEvent::ExecutableChecked(true)) {
        RunAction::Fail(e) => assert_eq!(e, RunError::UnexpectedEvent),
        _ => panic!("the session had not begun"),
    }
}

#[test]
fn run_passes_build_failure_on() {
    let mut s = session();
    s.step(RunEvent::Begin);
    let failure = RunError::Build(rig::build_plan::BuildError {
        step: rig::build_plan::BuildStep::Build,
        preset: "dev".to_string(),
        cause: rig::executor::CommandError::Failed(2),
    });
    let expected = RunError::Build(rig::build_plan::BuildError {
        step: rig::build_plan::BuildStep::Build,
        preset: "dev".to_string(),
        cause: rig::executor::CommandError::Failed(2),
    });
    match s.step(RunEvent::BuildFinished(Err(failure))) {
        RunAction::Fail(e) => assert_eq!(e, expected),
        _ => panic!("a failed build ends the run"),
    }
}

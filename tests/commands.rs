use rig::add::{add_dependencies, AddError};
use rig::build_plan::{
    build_project, cache_file_path, preset_build_dir, check_build_step, BuildError, BuildStep};
use rig::clean::{clean_project, CleanAction, CleanError};
use rig::executor::{check_command_outcome, describe_command, CommandError, ProcessOutcome};
use rig::locate::{find_project_root_by_marker, RootError};
use rig::vcpkg::{
    join_path, locate_and_verify_vcpkg, resolve_vcpkg_root, Platform, ToolchainError, VcpkgPaths,
};

fn strings(v: &[&str]) -> Vec<String> {
    v.iter().map(|s| s.to_string()).collect()
}

#[test]
fn exit_code_zero_is_success() {
    assert_eq!(check_command_outcome(ProcessOutcome::Exited(0)), Ok(()));
}

#[test]
fn exit_code_seven_is_recorded() {
    assert_eq!(check_command_outcome(ProcessOutcome::Exited(7)), Err(CommandError::Failed(7)));
}

#[test]
fn spawn_failure_is_distinct_from_nonzero_exit() {
    let spawn = check_command_outcome(ProcessOutcome::SpawnFailed);
    assert_eq!(spawn, Err(CommandError::SpawnFailed));
    assert_ne!(spawn, check_command_outcome(ProcessOutcome::Exited(1)));
    assert_eq!(check_command_outcome(ProcessOutcome::Terminated), Err(CommandError::Terminated));
}

#[test]
fn command_description() {
    assert_eq!(describe_command("vcpkg", &strings(&["add", "port", "fmt"])), "vcpkg add port fmt");
    assert_eq!(describe_command("cmake", &Vec::new()), "cmake ");
}

#[test]
fn root_found_two_levels_up() {
    let start = strings(&["home", "u", "demo", "src", "core"]);
    let found = vec![false, false, true, false, false, false];
    assert_eq!(find_project_root_by_marker(&start, &found), Ok(strings(&["home", "u", "demo"])));
}

#[test]
fn root_is_start_when_marker_is_there() {
    let start = strings(&["home", "u", "demo"]);
    let found = vec![true, false, true, false];
    assert_eq!(find_project_root_by_marker(&start, &found), Ok(start.clone()));
}

#[test]
fn root_can_be_filesystem_root() {
    let start = strings(&["a", "b"]);
    assert_eq!(find_project_root_by_marker(&start, &vec![false, false, true]), Ok(Vec::new()));
}

#[test]
fn root_not_found_anywhere() {
    let start = strings(&["home", "u", "demo"]);
    let found = vec![false; 4];
    assert_eq!(find_project_root_by_marker(&start, &found), Err(RootError::NotFound));
}

#[test]
fn toolchain_root_resolution_order() {
    assert_eq!(
        resolve_vcpkg_root(Some("/explicit".to_string()), Some("/env".to_string())),
        Ok("/explicit".to_string())
    );
    assert_eq!(resolve_vcpkg_root(None, Some("/env".to_string())), Ok("/env".to_string()));
    assert_eq!(resolve_vcpkg_root(None, None), Err(ToolchainError::RootUnresolved));
}

#[test]
fn toolchain_paths_are_joins_of_root() {
    let p = VcpkgPaths::for_root("/opt/vcpkg".to_string(), Platform::Unix);
    assert_eq!(p.root, "/opt/vcpkg");
    assert_eq!(p.exe, "/opt/vcpkg/vcpkg");
    assert_eq!(p.toolchain, "/opt/vcpkg/scripts/buildsystems/vcpkg.cmake");
    let w = VcpkgPaths::for_root("C:\\vcpkg\\".to_string(), Platform::Windows);
    assert_eq!(w.exe, "C:\\vcpkg\\vcpkg.exe");
    assert_eq!(w.toolchain, "C:\\vcpkg\\scripts/buildsystems/vcpkg.cmake");
}

#[test]
fn toolchain_missing_executable_names_path() {
    let p = VcpkgPaths::for_root("/opt/vcpkg".to_string(), Platform::Unix);
    assert_eq!(
        locate_and_verify_vcpkg(p, false, true).err(),
        Some(ToolchainError::ExecutableMissing("/opt/vcpkg/vcpkg".to_string()))
    );
}

#[test]
fn toolchain_missing_toolchain_file_names_path() {
    let p = VcpkgPaths::for_root("/opt/vcpkg".to_string(), Platform::Unix);
    assert_eq!(
        locate_and_verify_vcpkg(p, true, false).err(),
        Some(ToolchainError::ToolchainFileMissing(
            "/opt/vcpkg/scripts/buildsystems/vcpkg.cmake".to_string()
        ))
    );
}

#[test]
fn toolchain_present_is_accepted() {
    let p = VcpkgPaths::for_root("/opt/vcpkg".to_string(), Platform::Unix);
    let ok = locate_and_verify_vcpkg(p, true, true).ok().unwrap();
    assert_eq!(ok.exe, "/opt/vcpkg/vcpkg");
    assert_eq!(ok.toolchain, "/opt/vcpkg/scripts/buildsystems/vcpkg.cmake");
}

#[test]
fn path_joining() {
    assert_eq!(join_path(Platform::Unix, "a", "b"), "a/b");
    assert_eq!(join_path(Platform::Unix, "a/", "b"), "a/b");
    assert_eq!(join_path(Platform::Unix, "", "b"), "b");
    assert_eq!(join_path(Platform::Windows, "a", "b"), "a\\b");
    assert_eq!(join_path(Platform::Windows, "a/", "b"), "a/b");
}

#[test]
fn clean_all_removes_whole_build_tree() {
    let r = clean_project(Platform::Unix, "/p", Some("dev".to_string()), true, true, true);
    assert_eq!(r, Ok(CleanAction::RemoveAll("/p/build".to_string())));
}

#[test]
fn clean_preset_removes_only_its_directory() {
    let r = clean_project(Platform::Unix, "/p", Some("dev".to_string()), false, true, true);
    assert_eq!(r, Ok(CleanAction::RemovePreset("dev".to_string(), "/p/build/dev".to_string())));
    let release = preset_build_dir(Platform::Unix, "/p", "release");
    assert_ne!(release, "/p/build/dev");
    assert!(!release.starts_with("/p/build/dev/"));
}

#[test]
fn clean_absent_preset_is_noop() {
    let r = clean_project(Platform::Unix, "/p", Some("release".to_string()), false, true, false);
    assert_eq!(
        r,
        Ok(CleanAction::NoPresetDir("release".to_string(), "/p/build/release".to_string()))
    );
}

#[test]
fn clean_without_scope_fails() {
    assert_eq!(
        clean_project(Platform::Unix, "/p", None, false, true, false),
        Err(CleanError::ScopeMissing)
    );
}

#[test]
fn clean_without_scope_fails_even_without_build_dir() {
    assert_eq!(
        clean_project(Platform::Unix, "/p", None, false, false, false),
        Err(CleanError::ScopeMissing)
    );
}

#[test]
fn clean_without_build_dir_does_nothing() {
    assert_eq!(
        clean_project(Platform::Unix, "/p", Some("dev".to_string()), false, false, false),
        Ok(CleanAction::NoBuildDir("/p/build".to_string()))
    );
    assert_eq!(
        clean_project(Platform::Unix, "/p", None, true, false, false),
        Ok(CleanAction::NoBuildDir("/p/build".to_string()))
    );
}

#[test]
fn build_plan_configures_when_not_configured() {
    let plan = build_project(Platform::Unix, "/p", "dev", false, false, false);
    assert_eq!(plan.remove_dir, None);
    let conf = plan.configure.unwrap();
    assert_eq!(conf.program, "cmake");
    assert_eq!(conf.args, strings(&["--preset", "dev"]));
    assert_eq!(conf.dir, Some("/p".to_string()));
    assert_eq!(plan.build.program, "cmake");
    assert_eq!(plan.build.args, strings(&["--build", "/p/build/dev"]));
    assert_eq!(plan.build.dir, Some("/p".to_string()));
}

#[test]
fn build_plan_skips_configure_when_cached() {
    let plan = build_project(Platform::Unix, "/p", "release", false, true, true);
    assert!(plan.configure.is_none());
    assert_eq!(plan.remove_dir, None);
    assert_eq!(plan.build.args, strings(&["--build", "/p/build/release"]));
}

#[test]
fn clean_build_removes_and_reconfigures() {
    let plan = build_project(Platform::Unix, "/p", "dev", true, true, true);
    assert_eq!(plan.remove_dir, Some("/p/build/dev".to_string()));
    assert!(plan.configure.is_some());
    let fresh = build_project(Platform::Unix, "/p", "dev", true, false, false);
    assert_eq!(fresh.remove_dir, None);
}

#[test]
fn cache_file_location() {
    assert_eq!(cache_file_path(Platform::Unix, "/p", "dev"), "/p/build/dev/CMakeCache.txt");
}

#[test]
fn build_step_failure_reports_preset_and_code() {
    assert_eq!(
        check_build_step(BuildStep::Configure, "dev", ProcessOutcome::Exited(2)),
        Err(BuildError {
            step: BuildStep::Configure,
            preset: "dev".to_string(),
            cause: CommandError::Failed(2)
        })
    );
    assert_eq!(check_build_step(BuildStep::Build, "dev", ProcessOutcome::Exited(0)), Ok(()));
}

#[test]
fn add_without_dependencies_fails() {
    assert_eq!(add_dependencies(&Vec::new(), "/p", true, "/v/vcpkg").err(), Some(AddError::NoDependencies));
}

#[test]
fn add_without_manifest_fails() {
    assert_eq!(
        add_dependencies(&strings(&["fmt"]), "/p", false, "/v/vcpkg").err(),
        Some(AddError::ManifestMissing("/p".to_string()))
    );
}

#[test]
fn add_registers_all_in_one_call() {
    let cmd = add_dependencies(&strings(&["fmt", "spdlog"]), "/p", true, "/v/vcpkg").ok().unwrap();
    assert_eq!(cmd.program, "/v/vcpkg");
    assert_eq!(cmd.args, strings(&["add", "port", "fmt", "spdlog"]));
    assert_eq!(cmd.dir, Some("/p".to_string()));
}

use vstd::prelude::*;
use crate::executor::{outcome_result, CommandError, CommandInvocation, ProcessOutcome, check_command_outcome};
use crate::text::{opt_view};
use crate::vcpkg::{join_path, path_join, Platform};

verus! {

/// Directory under the project root that holds one build directory per preset.
pub const BUILD_DIR_NAME: &'static str = "build";

/// File whose presence in a build directory shows that it has been configured.
pub const CMAKE_CACHE_FILENAME: &'static str = "CMakeCache.txt";

/// The build tool that configures and builds a project.
pub const CMAKE_PROGRAM: &'static str = "cmake";

/// The directory that holds all build directories of the project at `root`.
pub open spec fn build_base_path(p: Platform, root: Seq<char>) -> Seq<char> {
    path_join(p, root, BUILD_DIR_NAME@)
}

/// The build directory of `preset` in the project at `root`.
pub open spec fn preset_build_path(p: Platform, root: Seq<char>, preset: Seq<char>) -> Seq<char> {
    path_join(p, build_base_path(p, root), preset)
}

pub fn build_base_dir(p: Platform, project_root: &str) -> (r: String)
    ensures
        r@ == build_base_path(p, project_root@),
{
    join_path(p, project_root, BUILD_DIR_NAME)
}

pub fn preset_build_dir(p: Platform, project_root: &str, preset: &str) -> (r: String)
    ensures
        r@ == preset_build_path(p, project_root@, preset@),
{
    let base = build_base_dir(p, project_root);
    join_path(p, base.as_str(), preset)
}

/// The cache file whose presence means that `preset` is configured.
pub fn cache_file_path(p: Platform, project_root: &str, preset: &str) -> (r: String)
    ensures
        r@ == path_join(p, preset_build_path(p, project_root@, preset@), CMAKE_CACHE_FILENAME@),
{
    let dir = preset_build_dir(p, project_root, preset);
    join_path(p, dir.as_str(), CMAKE_CACHE_FILENAME)
}

/// The steps of one build, in order: an optional removal of the preset's build
/// directory, an optional configure step, and the build step.
pub struct BuildPlan {
    pub remove_dir: Option<String>,
    pub configure: Option<CommandInvocation>,
    pub build: CommandInvocation,
}

/// Plans the build of the project at `project_root` with `preset`.
/// `build_dir_exists` tells whether the preset's build directory exists, and
/// `configured` whether it holds the cache file. A clean build removes an existing
/// build directory and always configures; otherwise configuring is skipped when
/// the cache file is there.
pub fn build_project(
    p: Platform,
    project_root: &str,
    preset: &str,
    clean_build: bool,
    build_dir_exists: bool,
    configured: bool,
) -> (r: BuildPlan)
    ensures
        opt_view(r.remove_dir) == (if clean_build && build_dir_exists {
            Some(preset_build_path(p, project_root@, preset@))
        } else {
            None
        }),
        r.configure is Some <==> (clean_build || !configured),
        r.configure is Some ==> r.configure->Some_0.is(
            CMAKE_PROGRAM@,
            seq!["--preset"@, preset@],
            Some(project_root@),
        ),
        r.build.is(
            CMAKE_PROGRAM@,
            seq!["--build"@, preset_build_path(p, project_root@, preset@)],
            Some(project_root@),
        ),
{
    let dir = preset_build_dir(p, project_root, preset);
    let remove_dir = if clean_build && build_dir_exists {
        Some(dir.clone())
    } else {
        None
    };
    let configure = if clean_build || !configured {
        let mut args: Vec<String> = Vec::new();
        args.push("--preset".to_owned());
        args.push(preset.to_owned());
        assert(crate::text::views(args@) =~= seq!["--preset"@, preset@]);
        Some(
            CommandInvocation {
                program: CMAKE_PROGRAM.to_owned(),
                args,
                dir: Some(project_root.to_owned()),
            },
        )
    } else {
        None
    };
    let mut args: Vec<String> = Vec::new();
    args.push("--build".to_owned());
    args.push(dir);
    assert(crate::text::views(args@) =~= seq!["--build"@, preset_build_path(p, project_root@, preset@)]);
    let build = CommandInvocation {
        program: CMAKE_PROGRAM.to_owned(),
        args,
        dir: Some(project_root.to_owned()),
    };
    BuildPlan { remove_dir, configure, build }
}

/// The two external steps of a build.
#[derive(Clone, Copy, Debug, PartialEq, Eq, Structural)]
pub enum BuildStep {
    Configure,
    Build,
}

/// A failed build step, with the preset it was run for.
#[derive(Debug, PartialEq, Eq)]
pub struct BuildError {
    pub step: BuildStep,
    pub preset: String,
    pub cause: CommandError,
}

/// The result of a build step that ended with `outcome`: success only on exit
/// code 0, otherwise the step, the preset and the cause of the failure.
pub fn check_build_step(step: BuildStep, preset: &str, outcome: ProcessOutcome) -> (r: Result<
    (),
    BuildError,
>)
    ensures
        outcome_result(outcome) is Ok <==> r is Ok,
        outcome_result(outcome) is Err ==> r is Err && r->Err_0.step == step && r->Err_0.preset@
            == preset@ && r->Err_0.cause == outcome_result(outcome)->Err_0,
{
    match check_command_outcome(outcome) {
        Ok(()) => Ok(()),
        Err(cause) => Err(BuildError { step, preset: preset.to_owned(), cause }),
    }
}

} // verus!

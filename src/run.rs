use vstd::prelude::*;
use crate::build_plan::{preset_build_dir, preset_build_path, BuildError};
use crate::executor::{CommandInvocation, ProcessOutcome};
use crate::locate::RootError;
use crate::manifest::{manifest_name, manifest_name_spec};
use crate::text::{chars_of, opt_view, slice_to_string, views};
use crate::vcpkg::{join_path, path_join, Platform};

verus! {

/// Why running the project failed.
#[derive(Debug, PartialEq, Eq)]
pub enum RunError {
    /// The build that comes first failed.
    Build(BuildError),
    /// The build directory at this path could not be removed for a clean build.
    CleanFailed(String),
    /// The project root was not found.
    ProjectRoot(RootError),
    /// No target name was given, none is in the manifest, and the project
    /// directory has no usable name.
    TargetNameUnknown,
    /// The executable is not at this path, even after the build.
    ExecutableNotFound(String),
    /// The executable at this path could not be started.
    SpawnFailed(String),
    /// The executable ended without an exit code.
    Terminated,
    /// An event came that the session was not waiting for.
    UnexpectedEvent,
}

/// The target to run: the explicit one, else the manifest's name, else the name
/// of the project directory.
pub open spec fn target_name_spec(
    target_override: Option<String>,
    manifest: Option<String>,
    dir_name: Option<String>,
) -> Option<Seq<char>> {
    match target_override {
        Some(t) => Some(t@),
        None => match (match manifest {
            Some(m) => manifest_name_spec(m@),
            None => None,
        }) {
            Some(n) => Some(n),
            None => opt_view(dir_name),
        },
    }
}

/// Determines the name of the target to run. `manifest` is the manifest's text
/// when the project has one, `dir_name` the name of the project directory when
/// it has a name.
pub fn find_project_details(
    target_override: Option<String>,
    manifest: Option<String>,
    dir_name: Option<String>,
) -> (r: Result<String, RunError>)
    ensures
        match target_name_spec(target_override, manifest, dir_name) {
            Some(n) => r is Ok && r->Ok_0@ == n,
            None => r == Err::<String, RunError>(RunError::TargetNameUnknown),
        },
{
    if let Some(t) = target_override {
        return Ok(t);
    }
    if let Some(m) = manifest {
        if let Some(n) = manifest_name(m.as_str()) {
            return Ok(n);
        }
    }
    match dir_name {
        Some(d) => Ok(d),
        None => Err(RunError::TargetNameUnknown),
    }
}

/// The index of the last `.` in `s`, or -1.
pub open spec fn last_dot(s: Seq<char>) -> int
    decreases s.len(),
{
    if s.len() == 0 {
        -1
    } else if s.last() == '.' {
        s.len() - 1
    } else {
        last_dot(s.drop_last())
    }
}

/// The executable's file name for target `name` on `p`: on Windows its
/// extension becomes `exe`, as `Path::set_extension` makes it (a dot that starts
/// the name starts no extension).
pub open spec fn exe_file_name(p: Platform, name: Seq<char>) -> Seq<char> {
    if p == Platform::Unix {
        name
    } else if last_dot(name) > 0 {
        name.subrange(0, last_dot(name)) + ".exe"@
    } else {
        name + ".exe"@
    }
}

/// Where the build with `preset` puts the executable of target `name`.
pub open spec fn executable_path_spec(p: Platform, root: Seq<char>, preset: Seq<char>, name: Seq<char>) -> Seq<
    char,
> {
    path_join(p, preset_build_path(p, root, preset), exe_file_name(p, name))
}

fn exe_name(p: Platform, name: &str) -> (r: String)
    ensures
        r@ == exe_file_name(p, name@),
{
    match p {
        Platform::Unix => name.to_owned(),
        Platform::Windows => {
            let cs = chars_of(name);
            let mut k = cs.len();
            assert(cs@.subrange(0, cs@.len() as int) =~= cs@);
            while k > 0 && cs[k - 1] != '.'
                invariant
                    k <= cs@.len(),
                    cs@ == name@,
                    last_dot(name@) == last_dot(cs@.subrange(0, k as int)),
                decreases k,
            {
                assert(cs@.subrange(0, k as int).drop_last() =~= cs@.subrange(0, k - 1));
                k = k - 1;
            }
            if k > 1 {
                let mut r = slice_to_string(name, 0, k - 1);
                r.append(".exe");
                r
            } else {
                let mut r = name.to_owned();
                r.append(".exe");
                r
            }
        },
    }
}

pub fn executable_path(p: Platform, project_root: &str, preset: &str, name: &str) -> (r: String)
    ensures
        r@ == executable_path_spec(p, project_root@, preset@, name@),
{
    let dir = preset_build_dir(p, project_root, preset);
    let file = exe_name(p, name);
    join_path(p, dir.as_str(), file.as_str())
}

/// Where a run session stands.
pub enum RunState {
    /// Nothing has been done yet.
    Start,
    /// Waiting for the build to finish.
    AwaitBuild,
    /// Waiting for the project root and what names the target.
    AwaitProject,
    /// Waiting to learn whether the executable exists: the project root and the
    /// executable's path.
    AwaitProbe(String, String),
    /// Waiting for the executable, at this path, to end.
    AwaitExit(String),
    /// The session is over.
    Done,
}

/// What the caller reports back to a run session.
pub enum RunEvent {
    /// The session is to start.
    Begin,
    /// The build ended: well, or with the failure to pass on.
    BuildFinished(Result<(), RunError>),
    /// The project root was found: its path, its manifest's text if it has one,
    /// and the name of its directory if it has one.
    ProjectFound(String, Option<String>, Option<String>),
    /// The project root was not found.
    ProjectMissing(RootError),
    /// Whether the executable exists.
    ExecutableChecked(bool),
    /// How the executable ended.
    ProcessEnded(ProcessOutcome),
}

/// What a run session asks the caller to do next.
pub enum RunAction {
    /// Build the project with this preset, cleaning first if the flag is set.
    Build(String, bool),
    /// Find the project root by its manifest.
    LocateProject,
    /// Check whether the executable exists at this path.
    CheckExecutable(String),
    /// Run this command with inherited streams.
    Execute(CommandInvocation),
    /// Stop with this exit code, the executable's own.
    Exit(i32),
    /// Stop with this error.
    Fail(RunError),
}

/// One `run` of the project: build, find the executable, run it, and forward its
/// exit code.
pub struct RunSession {
    pub platform: Platform,
    pub preset: String,
    pub target_override: Option<String>,
    pub clean: bool,
    pub args: Vec<String>,
    pub state: RunState,
}

/// One step of a run session from `s` on event `e`, to `t` with action `a`.
pub open spec fn run_step_spec(s: RunSession, e: RunEvent, t: RunSession, a: RunAction) -> bool {
    &&& t.platform == s.platform
    &&& t.preset == s.preset
    &&& t.target_override == s.target_override
    &&& t.clean == s.clean
    &&& t.args == s.args
    &&& match (s.state, e) {
        (RunState::Start, RunEvent::Begin) => t.state is AwaitBuild && a is Build && a->Build_0@
            == s.preset@ && a->Build_1 == s.clean,
        (RunState::AwaitBuild, RunEvent::BuildFinished(Ok(()))) => t.state is AwaitProject
            && a is LocateProject,
        (RunState::AwaitBuild, RunEvent::BuildFinished(Err(err))) => t.state is Done && a
            == RunAction::Fail(err),
        (RunState::AwaitProject, RunEvent::ProjectFound(root, manifest, dir_name)) => match target_name_spec(
            s.target_override,
            manifest,
            dir_name,
        ) {
            Some(name) => {
                let exe = executable_path_spec(s.platform, root@, s.preset@, name);
                &&& t.state is AwaitProbe
                &&& t.state->AwaitProbe_0@ == root@
                &&& t.state->AwaitProbe_1@ == exe
                &&& a is CheckExecutable
                &&& a->CheckExecutable_0@ == exe
            },
            None => t.state is Done && a == RunAction::Fail(RunError::TargetNameUnknown),
        },
        (RunState::AwaitProject, RunEvent::ProjectMissing(err)) => t.state is Done && a
            == RunAction::Fail(RunError::ProjectRoot(err)),
        (RunState::AwaitProbe(root, exe), RunEvent::ExecutableChecked(exists)) => if exists {
            &&& t.state is AwaitExit
            &&& t.state->AwaitExit_0@ == exe@
            &&& a is Execute
            &&& a->Execute_0.is(exe@, views(s.args@), Some(root@))
        } else {
            &&& t.state is Done
            &&& a is Fail
            &&& a->Fail_0 is ExecutableNotFound
            &&& a->Fail_0->ExecutableNotFound_0@ == exe@
        },
        (RunState::AwaitExit(exe), RunEvent::ProcessEnded(o)) => t.state is Done && match o {
            ProcessOutcome::Exited(code) => a == RunAction::Exit(code),
            ProcessOutcome::SpawnFailed => a is Fail && a->Fail_0 is SpawnFailed
                && a->Fail_0->SpawnFailed_0@ == exe@,
            ProcessOutcome::Terminated => a == RunAction::Fail(RunError::Terminated),
        },
        _ => t.state is Done && a == RunAction::Fail(RunError::UnexpectedEvent),
    }
}

fn clone_args(v: &Vec<String>) -> (r: Vec<String>)
    ensures
        r@ == v@,
{
    let mut r: Vec<String> = Vec::new();
    let mut i: usize = 0;
    while i < v.len()
        invariant
            i <= v@.len(),
            r@ == v@.subrange(0, i as int),
        decreases v@.len() - i,
    {
        r.push(v[i].clone());
        assert(r@ =~= v@.subrange(0, i + 1));
        i = i + 1;
    }
    assert(v@.subrange(0, v@.len() as int) =~= v@);
    r
}

impl RunSession {
    /// A session that has not started: `run` builds with `preset` (cleaning first
    /// when `clean` is set), then runs the target with `args`.
    pub fn new(
        platform: Platform,
        preset: String,
        target_override: Option<String>,
        clean: bool,
        args: Vec<String>,
    ) -> (r: RunSession)
        ensures
            r.platform == platform,
            r.preset == preset,
            r.target_override == target_override,
            r.clean == clean,
            r.args == args,
            r.state is Start,
    {
        RunSession { platform, preset, target_override, clean, args, state: RunState::Start }
    }

    /// Takes in what the caller observed and says what to do next.
    pub fn step(&mut self, event: RunEvent) -> (a: RunAction)
        ensures
            run_step_spec(*old(self), event, *final(self), a),
    {
        let state = &self.state;
        match (state, event) {
            (RunState::Start, RunEvent::Begin) => {
                self.state = RunState::AwaitBuild;
                RunAction::Build(self.preset.clone(), self.clean)
            },
            (RunState::AwaitBuild, RunEvent::BuildFinished(Ok(()))) => {
                self.state = RunState::AwaitProject;
                RunAction::LocateProject
            },
            (RunState::AwaitBuild, RunEvent::BuildFinished(Err(err))) => {
                self.state = RunState::Done;
                RunAction::Fail(err)
            },
            (RunState::AwaitProject, RunEvent::ProjectFound(root, manifest, dir_name)) => {
                let over = self.target_override.clone();
                match find_project_details(over, manifest, dir_name) {
                    Ok(name) => {
                        let exe = executable_path(
                            self.platform,
                            root.as_str(),
                            self.preset.as_str(),
                            name.as_str(),
                        );
                        let probe = exe.clone();
                        self.state = RunState::AwaitProbe(root, exe);
                        RunAction::CheckExecutable(probe)
                    },
                    Err(e) => {
                        self.state = RunState::Done;
                        RunAction::Fail(e)
                    },
                }
            },
            (RunState::AwaitProject, RunEvent::ProjectMissing(err)) => {
                self.state = RunState::Done;
                RunAction::Fail(RunError::ProjectRoot(err))
            },
            (RunState::AwaitProbe(root, exe), RunEvent::ExecutableChecked(exists)) => {
                let root = root.clone();
                let exe = exe.clone();
                if exists {
                    let cmd = CommandInvocation {
                        program: exe.clone(),
                        args: clone_args(&self.args),
                        dir: Some(root),
                    };
                    self.state = RunState::AwaitExit(exe);
                    RunAction::Execute(cmd)
                } else {
                    self.state = RunState::Done;
                    RunAction::Fail(RunError::ExecutableNotFound(exe))
                }
            },
            (RunState::AwaitExit(exe), RunEvent::ProcessEnded(o)) => {
                let exe = exe.clone();
                self.state = RunState::Done;
                match o {
                    ProcessOutcome::Exited(code) => RunAction::Exit(code),
                    ProcessOutcome::SpawnFailed => RunAction::Fail(RunError::SpawnFailed(exe)),
                    ProcessOutcome::Terminated => RunAction::Fail(RunError::Terminated),
                }
            },
            _ => {
                self.state = RunState::Done;
                RunAction::Fail(RunError::UnexpectedEvent)
            },
        }
    }
}

/// A run starts with the build; only a successful build leads on to finding the
/// project; the executable is run only after it was found to exist, and when it
/// is missing the run fails with the path it looked at instead of running it.
pub proof fn lemma_run_builds_first(s: RunSession, e: RunEvent, t: RunSession, a: RunAction)
    requires
        run_step_spec(s, e, t, a),
    ensures
        s.state is Start ==> (a is Build || a == RunAction::Fail(RunError::UnexpectedEvent)),
        s.state is Start && e is Begin ==> a is Build && t.state is AwaitBuild,
        t.state is AwaitProject ==> s.state is AwaitBuild && e is BuildFinished
            && e->BuildFinished_0 is Ok,
        a is Execute ==> s.state is AwaitProbe && e == RunEvent::ExecutableChecked(true),
        s.state is AwaitProbe && e == RunEvent::ExecutableChecked(false) ==> !(a is Execute)
            && a is Fail && a->Fail_0 is ExecutableNotFound && a->Fail_0->ExecutableNotFound_0@
            == s.state->AwaitProbe_1@,
{
}

} // verus!

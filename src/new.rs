use vstd::prelude::*;
use crate::config::ProjectConfig;
use crate::executor::CommandInvocation;
use crate::scaffold::{project_files, project_files_spec, GeneratedFile};
use crate::text::{chars_of, strip_bounds, trim_spec, CharClass};
use crate::vcpkg::{initialize_manifest_and_dependencies, manifest_commands_spec, Platform};

verus! {

/// Whether an answer to the overwrite prompt says yes: once trimmed it is `y`
/// in either case.
pub open spec fn confirms(response: Seq<char>) -> bool {
    trim_spec(response) == "y"@ || trim_spec(response) == "Y"@
}

pub fn overwrite_confirmed(response: &str) -> (r: bool)
    ensures
        r == confirms(response@),
{
    let chars = chars_of(response);
    let (a, b) = strip_bounds(&chars, 0, chars.len(), CharClass::Space);
    let r = b - a == 1 && (chars[a] == 'y' || chars[a] == 'Y');
    proof {
        reveal_strlit("y");
        reveal_strlit("Y");
        let t = chars@.subrange(a as int, b as int);
        assert(chars@.subrange(0, chars@.len() as int) =~= response@);
        if r {
            if chars[a as int] == 'y' {
                assert(t =~= "y"@);
            } else {
                assert(t =~= "Y"@);
            }
        } else {
            assert(t.len() != 1 || (t[0] != 'y' && t[0] != 'Y'));
        }
    }
    r
}

/// What happens to the project directory.
#[derive(Clone, Copy, Debug, PartialEq, Eq, Structural)]
pub enum DirectoryAction {
    /// It does not exist yet and is created.
    Create,
    /// It exists and the user agreed to replace it: it is removed and created anew.
    Replace,
}

/// Why a new project was not created.
#[derive(Debug, PartialEq, Eq)]
pub enum NewError {
    /// The directory exists and the user declined to overwrite it.
    Aborted,
}

/// Decides what to do with the project directory. `dir_exists` tells whether it
/// exists; `response` is the answer to the overwrite prompt, which is asked only
/// then.
pub fn handle_project_directory_creation(dir_exists: bool, response: &str) -> (r: Result<
    DirectoryAction,
    NewError,
>)
    ensures
        !dir_exists ==> r == Ok::<DirectoryAction, NewError>(DirectoryAction::Create),
        dir_exists && confirms(response@) ==> r == Ok::<DirectoryAction, NewError>(
            DirectoryAction::Replace,
        ),
        dir_exists && !confirms(response@) ==> r == Err::<DirectoryAction, NewError>(
            NewError::Aborted,
        ),
{
    if !dir_exists {
        Ok(DirectoryAction::Create)
    } else if overwrite_confirmed(response) {
        Ok(DirectoryAction::Replace)
    } else {
        Err(NewError::Aborted)
    }
}

/// Everything a new project is made of, in the order it is done: the directory,
/// the package-manager calls, and the files to write.
pub struct NewProjectPlan {
    pub directory: DirectoryAction,
    pub commands: Vec<CommandInvocation>,
    pub files: Vec<GeneratedFile>,
}

/// Plans the creation of the project that `config` describes. An existing
/// directory is replaced only when `response` confirms it; otherwise nothing is
/// done and the creation is aborted.
pub fn new_project(config: &ProjectConfig, p: Platform, dir_exists: bool, response: &str) -> (r:
    Result<NewProjectPlan, NewError>)
    ensures
        dir_exists && !confirms(response@) ==> r is Err && r->Err_0 == NewError::Aborted,
        !dir_exists || confirms(response@) ==> r is Ok,
        r is Ok ==> {
            &&& r->Ok_0.directory == (if dir_exists {
                DirectoryAction::Replace
            } else {
                DirectoryAction::Create
            })
            &&& manifest_commands_spec(r->Ok_0.commands@, *config)
            &&& project_files_spec(r->Ok_0.files@, *config, p)
        },
{
    let directory = match handle_project_directory_creation(dir_exists, response) {
        Ok(d) => d,
        Err(e) => return Err(e),
    };
    let commands = initialize_manifest_and_dependencies(config);
    let files = project_files(config, p);
    Ok(NewProjectPlan { directory, commands, files })
}

pub const NEXT_STEPS_HEAD: &'static str = "\nProject '";

pub const NEXT_STEPS_CREATED: &'static str = "' created successfully!\n  Path: ";

pub const NEXT_STEPS_CD: &'static str = "\n\nNext steps:\n1. `cd ";

pub const NEXT_STEPS_BUILD: &'static str = "`\n2. Configure: `cmake --preset dev`\n3. Build: `cmake --build --preset dev`\n4. Run your executable (e.g., `./build/dev/";

pub const NEXT_STEPS_OR: &'static str = "` or `build\\dev\\";

pub const NEXT_STEPS_TAIL: &'static str = ".exe`)\n\nTo build for release (after `dev` preset used once):\n1. Configure: `cmake --preset release`\n2. Build: `cmake --build --preset release`\n";

/// The message shown once a project named `name` was created at the place that
/// `path_shown` displays.
pub open spec fn next_steps_spec(name: Seq<char>, path_shown: Seq<char>) -> Seq<char> {
    NEXT_STEPS_HEAD@ + name + NEXT_STEPS_CREATED@ + path_shown + NEXT_STEPS_CD@ + name
        + NEXT_STEPS_BUILD@ + name + NEXT_STEPS_OR@ + name + NEXT_STEPS_TAIL@
}

/// The follow-up instructions after a project was created: where it is, and
/// how to configure, build and run it with the dev and release presets.
pub fn next_steps_text(project_name: &str, path_shown: &str) -> (r: String)
    ensures
        r@ == next_steps_spec(project_name@, path_shown@),
{
    let mut r = NEXT_STEPS_HEAD.to_owned();
    r.append(project_name);
    r.append(NEXT_STEPS_CREATED);
    r.append(path_shown);
    r.append(NEXT_STEPS_CD);
    r.append(project_name);
    r.append(NEXT_STEPS_BUILD);
    r.append(project_name);
    r.append(NEXT_STEPS_OR);
    r.append(project_name);
    r.append(NEXT_STEPS_TAIL);
    r
}

} // verus!

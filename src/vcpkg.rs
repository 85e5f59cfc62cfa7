use vstd::prelude::*;
use crate::add::add_port_args;
use crate::cmake::{kept, lemma_kept_step};
use crate::config::ProjectConfig;
use crate::executor::CommandInvocation;
use crate::text::views;

verus! {

/// Name of the environment variable that gives the package manager's root.
pub const VCPKG_ROOT_ENV: &'static str = "VCPKG_ROOT";

/// Name of the package manager's manifest file.
pub const VCPKG_JSON_FILENAME: &'static str = "vcpkg.json";

/// The toolchain file's place under the package manager's root.
pub const VCPKG_TOOLCHAIN_SUFFIX: &'static str = "scripts/buildsystems/vcpkg.cmake";

/// The operating-system family that paths and tool names are made for.
#[derive(Clone, Copy, Debug, PartialEq, Eq, Structural)]
pub enum Platform {
    Windows,
    Unix,
}

/// Whether `c` separates path components on `p`.
pub open spec fn is_separator(p: Platform, c: char) -> bool {
    c == '/' || (p == Platform::Windows && c == '\\')
}

/// The separator that `p` puts between path components.
pub open spec fn separator(p: Platform) -> Seq<char> {
    if p == Platform::Windows {
        "\\"@
    } else {
        "/"@
    }
}

/// `rel` appended to `base` as a relative path: a separator goes between them
/// unless `base` is empty or already ends with one.
pub open spec fn path_join(p: Platform, base: Seq<char>, rel: Seq<char>) -> Seq<char> {
    if base.len() == 0 || is_separator(p, base.last()) {
        base + rel
    } else {
        base + separator(p) + rel
    }
}

/// Appends the relative path `rel` to `base`, as `Path::join` does for a relative
/// name.
pub fn join_path(p: Platform, base: &str, rel: &str) -> (r: String)
    ensures
        r@ == path_join(p, base@, rel@),
{
    let mut r = base.to_owned();
    let n = base.unicode_len();
    let needs_sep = if n == 0 {
        false
    } else {
        let c = base.get_char(n - 1);
        !(c == '/' || (p == Platform::Windows && c == '\\'))
    };
    if needs_sep {
        match p {
            Platform::Windows => r.append("\\"),
            Platform::Unix => r.append("/"),
        }
    }
    r.append(rel);
    r
}

/// The package manager's executable name on `p`.
pub open spec fn vcpkg_exe_name(p: Platform) -> Seq<char> {
    if p == Platform::Windows {
        "vcpkg.exe"@
    } else {
        "vcpkg"@
    }
}

pub fn vcpkg_exe_file_name(p: Platform) -> (r: &'static str)
    ensures
        r@ == vcpkg_exe_name(p),
{
    match p {
        Platform::Windows => "vcpkg.exe",
        Platform::Unix => "vcpkg",
    }
}

/// Where the package manager keeps its executable and its toolchain file.
pub struct VcpkgPaths {
    pub root: String,
    pub exe: String,
    pub toolchain: String,
}

impl VcpkgPaths {
    /// The paths are those under `root` on `p`.
    pub open spec fn under(&self, root: Seq<char>, p: Platform) -> bool {
        &&& self.root@ == root
        &&& self.exe@ == path_join(p, root, vcpkg_exe_name(p))
        &&& self.toolchain@ == path_join(p, root, VCPKG_TOOLCHAIN_SUFFIX@)
    }

    /// The paths that an installation rooted at `root` has on `p`, not yet checked.
    pub fn for_root(root: String, p: Platform) -> (r: VcpkgPaths)
        ensures
            r.under(root@, p),
    {
        let exe = join_path(p, root.as_str(), vcpkg_exe_file_name(p));
        let toolchain = join_path(p, root.as_str(), VCPKG_TOOLCHAIN_SUFFIX);
        VcpkgPaths { root, exe, toolchain }
    }
}

/// Why the package manager's installation could not be used.
#[derive(Debug, PartialEq, Eq)]
pub enum ToolchainError {
    /// Neither an explicit root nor the environment variable was given.
    RootUnresolved,
    /// The executable is not a file at this path.
    ExecutableMissing(String),
    /// The toolchain file is not a file at this path.
    ToolchainFileMissing(String),
}

/// The root that is used: the explicit one if given, else the environment's.
pub open spec fn resolved_root(root_override: Option<String>, env_root: Option<String>) -> Option<
    Seq<char>,
> {
    match root_override {
        Some(r) => Some(r@),
        None => match env_root {
            Some(e) => Some(e@),
            None => None,
        },
    }
}

/// Picks the package manager's root: the explicit override first, then the value
/// of the environment variable; fails when neither is present.
pub fn resolve_vcpkg_root(root_override: Option<String>, env_root: Option<String>) -> (r: Result<
    String,
    ToolchainError,
>)
    ensures
        match resolved_root(root_override, env_root) {
            Some(root) => r is Ok && r->Ok_0@ == root,
            None => r == Err::<String, ToolchainError>(ToolchainError::RootUnresolved),
        },
{
    match root_override {
        Some(path) => Ok(path),
        None => match env_root {
            Some(path) => Ok(path),
            None => Err(ToolchainError::RootUnresolved),
        },
    }
}

/// The outcome of checking `candidate`: the executable is checked first, then
/// the toolchain file.
pub open spec fn verified_paths(candidate: VcpkgPaths, exe_is_file: bool, toolchain_is_file: bool) -> Result<
    VcpkgPaths,
    ToolchainError,
> {
    if !exe_is_file {
        Err(ToolchainError::ExecutableMissing(candidate.exe))
    } else if !toolchain_is_file {
        Err(ToolchainError::ToolchainFileMissing(candidate.toolchain))
    } else {
        Ok(candidate)
    }
}

/// Checks the candidate paths against what the file system holds:
/// `exe_is_file` and `toolchain_is_file` tell whether each is a regular file.
pub fn locate_and_verify_vcpkg(
    candidate: VcpkgPaths,
    exe_is_file: bool,
    toolchain_is_file: bool,
) -> (r: Result<VcpkgPaths, ToolchainError>)
    ensures
        r == verified_paths(candidate, exe_is_file, toolchain_is_file),
{
    if !exe_is_file {
        return Err(ToolchainError::ExecutableMissing(candidate.exe));
    }
    if !toolchain_is_file {
        return Err(ToolchainError::ToolchainFileMissing(candidate.toolchain));
    }
    Ok(candidate)
}

/// For the paths of an installation rooted at `root`: when the executable is
/// missing the check fails naming exactly the path it tried, the root joined with
/// the executable's name; when both files are there it succeeds with the root
/// joined with the executable's name and with the toolchain file's fixed place.
pub proof fn lemma_toolchain_locator(
    candidate: VcpkgPaths,
    root: Seq<char>,
    p: Platform,
    toolchain_is_file: bool,
)
    requires
        candidate.under(root, p),
    ensures
        verified_paths(candidate, false, toolchain_is_file) is Err,
        verified_paths(candidate, false, toolchain_is_file)->Err_0 is ExecutableMissing,
        verified_paths(candidate, false, toolchain_is_file)->Err_0->ExecutableMissing_0@
            == path_join(p, root, vcpkg_exe_name(p)),
        verified_paths(candidate, true, true) is Ok,
        verified_paths(candidate, true, true)->Ok_0.root@ == root,
        verified_paths(candidate, true, true)->Ok_0.exe@ == path_join(p, root, vcpkg_exe_name(p)),
        verified_paths(candidate, true, true)->Ok_0.toolchain@ == path_join(
            p,
            root,
            VCPKG_TOOLCHAIN_SUFFIX@,
        ),
{
}

/// The package-manager calls that set up a new project, each run in the project
/// directory: one that creates the manifest, then one per non-empty dependency
/// that registers it.
pub open spec fn manifest_commands_spec(cmds: Seq<CommandInvocation>, config: ProjectConfig) -> bool {
    let ks = kept(config.deps());
    let exe = config.vcpkg_paths.exe@;
    let dir = Some(config.project_path@);
    &&& cmds.len() == ks.len() + 1
    &&& cmds[0].is(exe, seq!["new"@, "--application"@], dir)
    &&& forall|i: int|
        0 <= i < ks.len() ==> #[trigger] cmds[i + 1].is(exe, add_port_args(seq![ks[i]]), dir)
}

fn vcpkg_call(exe: &str, dir: &str, a: &str, b: &str, c: Option<&str>) -> (r: CommandInvocation)
    ensures
        r.program@ == exe@,
        crate::text::opt_view(r.dir) == Some(dir@),
        match c {
            Some(c) => views(r.args@) == seq![a@, b@, c@],
            None => views(r.args@) == seq![a@, b@],
        },
{
    let mut args: Vec<String> = Vec::new();
    args.push(a.to_owned());
    args.push(b.to_owned());
    match c {
        Some(c) => {
            args.push(c.to_owned());
            assert(views(args@) =~= seq![a@, b@, c@]);
        },
        None => {
            assert(views(args@) =~= seq![a@, b@]);
        },
    }
    CommandInvocation { program: exe.to_owned(), args, dir: Some(dir.to_owned()) }
}

/// The package-manager calls that create the manifest of a new project and
/// register each of its non-empty dependencies, one call per dependency.
pub fn initialize_manifest_and_dependencies(config: &ProjectConfig) -> (r: Vec<CommandInvocation>)
    ensures
        manifest_commands_spec(r@, *config),
{
    let exe = config.vcpkg_paths.exe.as_str();
    let dir = config.project_path.as_str();
    let ghost all = config.deps();
    let ghost ddir = Some(config.project_path@);
    let mut r: Vec<CommandInvocation> = Vec::new();
    r.push(vcpkg_call(exe, dir, "new", "--application", None));
    let deps = &config.dependencies;
    let mut i: usize = 0;
    while i < deps.len()
        invariant
            i <= deps.len(),
            deps == &config.dependencies,
            all == views(deps@),
            exe@ == config.vcpkg_paths.exe@,
            dir@ == config.project_path@,
            ddir == Some(config.project_path@),
            r@.len() == kept(all.subrange(0, i as int)).len() + 1,
            r@[0].is(exe@, seq!["new"@, "--application"@], ddir),
            forall|j: int|
                0 <= j < kept(all.subrange(0, i as int)).len() ==> #[trigger] r@[j + 1].is(
                    exe@,
                    add_port_args(seq![kept(all.subrange(0, i as int))[j]]),
                    ddir,
                ),
        decreases deps.len() - i,
    {
        let d = deps[i].as_str();
        proof {
            lemma_kept_step(all, i as int);
        }
        if !d.is_empty() {
            let c = vcpkg_call(exe, dir, "add", "port", Some(d));
            assert(add_port_args(seq![d@]) =~= seq!["add"@, "port"@, d@]);
            r.push(c);
        }
        i = i + 1;
    }
    assert(all.subrange(0, deps.len() as int) =~= all);
    r
}

} // verus!

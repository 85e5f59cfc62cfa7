use vstd::prelude::*;
use crate::build_plan::{
    build_base_dir, build_base_path, preset_build_dir, preset_build_path, BUILD_DIR_NAME,
};
use crate::vcpkg::Platform;

verus! {

/// What a clean operation does to the file system.
#[derive(Debug, PartialEq, Eq)]
pub enum CleanAction {
    /// There is no build directory at this path: nothing is removed.
    NoBuildDir(String),
    /// The whole build directory at this path is removed.
    RemoveAll(String),
    /// The build directory of the preset, at this path, is removed.
    RemovePreset(String, String),
    /// The preset has no build directory at this path: nothing is removed.
    NoPresetDir(String, String),
}

/// Why a clean operation was refused.
#[derive(Debug, PartialEq, Eq)]
pub enum CleanError {
    /// Neither a preset nor "all" was asked for.
    ScopeMissing,
}

/// Decides what cleaning the project at `project_root` removes.
/// `build_dir_is_dir` tells whether the build directory exists as a directory,
/// and `preset_dir_exists` whether the preset's own build directory exists.
/// A scope must be given: "all", or a preset; "all" takes precedence.
pub fn clean_project(
    p: Platform,
    project_root: &str,
    preset: Option<String>,
    all: bool,
    build_dir_is_dir: bool,
    preset_dir_exists: bool,
) -> (r: Result<CleanAction, CleanError>)
    ensures
        !all && preset is None ==> r == Err::<CleanAction, CleanError>(CleanError::ScopeMissing),
        (all || preset is Some) && !build_dir_is_dir ==> r is Ok && r->Ok_0 is NoBuildDir
            && r->Ok_0->NoBuildDir_0@ == build_base_path(p, project_root@),
        build_dir_is_dir && all ==> r is Ok && r->Ok_0 is RemoveAll && r->Ok_0->RemoveAll_0@
            == build_base_path(p, project_root@),
        build_dir_is_dir && !all && preset is Some && preset_dir_exists ==> r is Ok
            && r->Ok_0 is RemovePreset && r->Ok_0->RemovePreset_0@ == preset->Some_0@
            && r->Ok_0->RemovePreset_1@ == preset_build_path(p, project_root@, preset->Some_0@),
        build_dir_is_dir && !all && preset is Some && !preset_dir_exists ==> r is Ok
            && r->Ok_0 is NoPresetDir && r->Ok_0->NoPresetDir_0@ == preset->Some_0@
            && r->Ok_0->NoPresetDir_1@ == preset_build_path(p, project_root@, preset->Some_0@),
{
    if !all && preset.is_none() {
        return Err(CleanError::ScopeMissing);
    }
    let base = build_base_dir(p, project_root);
    if !build_dir_is_dir {
        return Ok(CleanAction::NoBuildDir(base));
    }
    if all {
        return Ok(CleanAction::RemoveAll(base));
    }
    match preset {
        Some(name) => {
            let dir = preset_build_dir(p, project_root, name.as_str());
            if preset_dir_exists {
                Ok(CleanAction::RemovePreset(name, dir))
            } else {
                Ok(CleanAction::NoPresetDir(name, dir))
            }
        },
        None => Err(CleanError::ScopeMissing),
    }
}

/// Whether `inner` is the directory `outer` or lies somewhere below it.
pub open spec fn within(p: Platform, outer: Seq<char>, inner: Seq<char>) -> bool {
    inner == outer || (inner.len() > outer.len() && inner.subrange(0, outer.len() as int) == outer
        && (crate::vcpkg::is_separator(p, inner[outer.len() as int]) || (outer.len() > 0
        && crate::vcpkg::is_separator(p, outer.last()))))
}

/// Whether `s` holds no path separator of `p`.
pub open spec fn single_component(p: Platform, s: Seq<char>) -> bool {
    forall|i: int| 0 <= i < s.len() ==> !crate::vcpkg::is_separator(p, #[trigger] s[i])
}

/// Removing the build directory of one preset leaves that of any other preset in
/// place: for two different preset names that are single path components, the
/// second's build directory is neither the first's nor inside it. Every preset's
/// build directory lies inside the whole build directory that "all" removes.
pub proof fn lemma_clean_scope(p: Platform, root: Seq<char>, a: Seq<char>, b: Seq<char>)
    requires
        a != b,
        a.len() > 0,
        b.len() > 0,
        single_component(p, a),
        single_component(p, b),
    ensures
        !within(p, preset_build_path(p, root, a), preset_build_path(p, root, b)),
        within(p, build_base_path(p, root), preset_build_path(p, root, a)),
{
    reveal_strlit("build");
    reveal_strlit("/");
    reveal_strlit("\\");
    let base = build_base_path(p, root);
    let sep = crate::vcpkg::separator(p);
    let pre = base + sep;
    let pa = preset_build_path(p, root, a);
    let pb = preset_build_path(p, root, b);
    assert(BUILD_DIR_NAME@ == "build"@);
    assert(base.len() > 0 && base.last() == 'd');
    assert(sep.len() == 1 && crate::vcpkg::is_separator(p, sep[0]));
    assert(pa == pre + a);
    assert(pb == pre + b);
    if within(p, pa, pb) {
        if pb == pa {
            assert(a =~= pa.subrange(pre.len() as int, pa.len() as int));
            assert(b =~= pb.subrange(pre.len() as int, pb.len() as int));
        } else {
            assert(pa.last() == a.last());
            assert(pb[pa.len() as int] == b[a.len() as int]);
        }
    }
    assert(pa.subrange(0, base.len() as int) =~= base);
    assert(pa[base.len() as int] == sep[0]);
}

} // verus!

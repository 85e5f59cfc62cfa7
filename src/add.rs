use vstd::prelude::*;
use crate::executor::CommandInvocation;
use crate::text::views;

verus! {

/// Why dependencies could not be added.
#[derive(Debug, PartialEq, Eq)]
pub enum AddError {
    /// No dependency was named.
    NoDependencies,
    /// The project at this root has no manifest yet.
    ManifestMissing(String),
}

/// The package manager's arguments that register `deps`.
pub open spec fn add_port_args(deps: Seq<Seq<char>>) -> Seq<Seq<char>> {
    seq!["add"@, "port"@] + deps
}

/// `add port` followed by the given names.
pub fn add_port_arguments(deps: &Vec<String>) -> (r: Vec<String>)
    ensures
        views(r@) == add_port_args(views(deps@)),
{
    let mut r: Vec<String> = Vec::new();
    r.push("add".to_owned());
    r.push("port".to_owned());
    assert(views(r@) =~= add_port_args(views(deps@).subrange(0, 0)));
    let mut i: usize = 0;
    while i < deps.len()
        invariant
            i <= deps.len(),
            views(r@) == add_port_args(views(deps@).subrange(0, i as int)),
        decreases deps.len() - i,
    {
        let ghost old_r = r@;
        let d = deps[i].clone();
        r.push(d);
        assert(views(r@) =~= views(old_r).push(d@));
        assert(views(deps@).subrange(0, i + 1) =~= views(deps@).subrange(0, i as int).push(d@));
        assert(views(r@) =~= add_port_args(views(deps@).subrange(0, i + 1)));
        i = i + 1;
    }
    assert(views(deps@).subrange(0, deps.len() as int) =~= views(deps@));
    r
}

/// Plans adding `dependencies_to_add` to the project at `project_root` with one
/// call of the package manager at `vcpkg_exe`, run in the project root.
/// `manifest_exists` tells whether the project's manifest is there: it must be.
pub fn add_dependencies(
    dependencies_to_add: &Vec<String>,
    project_root: &str,
    manifest_exists: bool,
    vcpkg_exe: &str,
) -> (r: Result<CommandInvocation, AddError>)
    ensures
        dependencies_to_add@.len() == 0 ==> r == Err::<CommandInvocation, AddError>(
            AddError::NoDependencies,
        ),
        dependencies_to_add@.len() > 0 && !manifest_exists ==> r is Err && r->Err_0 is ManifestMissing
            && r->Err_0->ManifestMissing_0@ == project_root@,
        dependencies_to_add@.len() > 0 && manifest_exists ==> r is Ok && r->Ok_0.is(
            vcpkg_exe@,
            add_port_args(views(dependencies_to_add@)),
            Some(project_root@),
        ),
{
    if dependencies_to_add.len() == 0 {
        return Err(AddError::NoDependencies);
    }
    if !manifest_exists {
        return Err(AddError::ManifestMissing(project_root.to_owned()));
    }
    Ok(
        CommandInvocation {
            program: vcpkg_exe.to_owned(),
            args: add_port_arguments(dependencies_to_add),
            dir: Some(project_root.to_owned()),
        },
    )
}

} // verus!

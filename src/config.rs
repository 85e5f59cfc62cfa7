use vstd::prelude::*;
use crate::text::views;
use crate::vcpkg::VcpkgPaths;

verus! {

/// Name of the generated entry-point source file.
pub const MAIN_CPP_FILENAME: &'static str = "main.cc";

/// Name of the generated ignore-patterns file.
pub const GITIGNORE_FILENAME: &'static str = ".gitignore";

/// Everything a `new` operation needs to know about the project it creates.
pub struct ProjectConfig {
    pub project_name: String,
    /// The directory the project is created in, relative to the working directory.
    pub project_path: String,
    pub vcpkg_paths: VcpkgPaths,
    pub dependencies: Vec<String>,
    pub cpp_standard: String,
    pub main_cpp_file: String,
}

impl ProjectConfig {
    /// The requested dependencies, as character sequences, in order.
    pub open spec fn deps(&self) -> Seq<Seq<char>> {
        views(self.dependencies@)
    }

    /// Builds the configuration of a new project: its directory is named after the
    /// project and its entry point is the fixed source file name.
    pub fn new(
        project_name: String,
        vcpkg_paths: VcpkgPaths,
        dependencies: Vec<String>,
        cpp_standard: String,
    ) -> (r: ProjectConfig)
        ensures
            r.project_name@ == project_name@,
            r.project_path@ == project_name@,
            r.vcpkg_paths == vcpkg_paths,
            r.dependencies@ == dependencies@,
            r.cpp_standard@ == cpp_standard@,
            r.main_cpp_file@ == MAIN_CPP_FILENAME@,
    {
        let project_path = project_name.clone();
        ProjectConfig {
            project_name,
            project_path,
            vcpkg_paths,
            dependencies,
            cpp_standard,
            main_cpp_file: MAIN_CPP_FILENAME.to_owned(),
        }
    }
}

} // verus!

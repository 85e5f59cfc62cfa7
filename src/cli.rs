use vstd::prelude::*;

verus! {

/// The command line: one subcommand.
pub struct Args {
    pub command: CliCommand,
}

/// The subcommands and their options.
pub enum CliCommand {
    /// Creates a new project with its build descriptor, presets and manifest.
    New { name: String, vcpkg_root: Option<String>, deps: Vec<String>, std: String },
    /// Builds the project with a preset.
    Build { preset: String, clean: bool },
    /// Builds, then runs the project's executable with the extra arguments.
    Run { preset: String, target: Option<String>, clean: bool, executable_args: Vec<String> },
    /// Adds dependencies to the project's manifest.
    Add { dependencies: Vec<String>, vcpkg_root: Option<String> },
    /// Removes build outputs.
    Clean(CleanArgs),
}

/// What `clean` removes: the build directory of one preset, or all of them.
pub struct CleanArgs {
    pub preset: Option<String>,
    pub all: bool,
}

} // verus!

use vstd::prelude::*;
use crate::cmake::{
    cmakelists_of, cmakepresets_text, cmakeuserpresets_text, generate_cmakelists_content,
    generate_cmakepresets_content, generate_cmakeuserpresets_content, CMAKELISTS_FILENAME,
    CMAKE_PRESETS_FILENAME, CMAKE_USER_PRESETS_FILENAME,
};
use crate::config::{ProjectConfig, GITIGNORE_FILENAME};
use crate::vcpkg::{join_path, path_join, Platform};

verus! {

pub const MAIN_CPP_HEAD: &'static str = r#"#include <iostream>

// If you added "fmt" as a dependency, uncomment the line below
// and the fmt::print line in main():
// #include <fmt/core.h>

int main(int argc, char* argv[]) {
    // fmt::print("Hello from {}!\n", ""#;

pub const MAIN_CPP_MIDDLE: &'static str = r#"");
    std::cout << "Hello from "#;

pub const MAIN_CPP_TAIL: &'static str = r#"!" << std::endl;
    if (argc > 1) {
        std::cout << "Provided arguments:" << std::endl;
        for (int i = 1; i < argc; ++i) {
            std::cout << i << ": " << argv[i] << std::endl;
        }
    }
    return 0;
}
"#;

/// The entry-point source of a project named `name`: it greets with the name and
/// lists any extra arguments by their 1-based index.
pub open spec fn main_cpp_text(name: Seq<char>) -> Seq<char> {
    MAIN_CPP_HEAD@ + name + MAIN_CPP_MIDDLE@ + name + MAIN_CPP_TAIL@
}

pub fn generate_main_cpp_content(project_name: &str) -> (r: String)
    ensures
        r@ == main_cpp_text(project_name@),
{
    let mut r = MAIN_CPP_HEAD.to_owned();
    r.append(project_name);
    r.append(MAIN_CPP_MIDDLE);
    r.append(project_name);
    r.append(MAIN_CPP_TAIL);
    r
}

pub const GITIGNORE_TEXT: &'static str = r#"# CMake
build/
install/
CMakeUserPresets.json
CMakeCache.txt
CMakeFiles/
cmake_install.cmake
compile_commands.json

# vcpkg
vcpkg_installed/

# IDE specific
.vscode/
.idea/
*.suo
*.ntvs*
*.njsproj
*.sln.docstates

# Compiled Object files & Precompiled Headers
*.slo
*.lo
*.o
*.obj
*.gch
*.pch

# Compiled Libraries & Executables
*.so
*.dylib
*.dll
*.lai
*.la
*.a
*.lib
*.exe
*.out
*.app

# Fortran module files
*.mod
*.smod
"#;

/// The ignore-patterns file: build outputs, package-manager installs, IDE metadata
/// and compiled artifacts; the same for every project.
pub fn generate_gitignore_content() -> (r: String)
    ensures
        r@ == GITIGNORE_TEXT@,
{
    GITIGNORE_TEXT.to_owned()
}

/// A file that a new project starts with.
pub struct GeneratedFile {
    pub path: String,
    pub content: String,
}

/// Whether `f` is the file `name` in the project directory, with `content`.
pub open spec fn file_is(
    f: GeneratedFile,
    config: ProjectConfig,
    p: Platform,
    name: Seq<char>,
    content: Seq<char>,
) -> bool {
    f.path@ == path_join(p, config.project_path@, name) && f.content@ == content
}

/// The five files of a new project, in the order they are written: the build
/// descriptor, the entry-point source, the shared and the developer-local presets,
/// and the ignore file.
pub open spec fn project_files_spec(files: Seq<GeneratedFile>, config: ProjectConfig, p: Platform) -> bool {
    &&& files.len() == 5
    &&& file_is(files[0], config, p, CMAKELISTS_FILENAME@, cmakelists_of(config))
    &&& file_is(files[1], config, p, config.main_cpp_file@, main_cpp_text(config.project_name@))
    &&& file_is(files[2], config, p, CMAKE_PRESETS_FILENAME@, cmakepresets_text())
    &&& file_is(
        files[3],
        config,
        p,
        CMAKE_USER_PRESETS_FILENAME@,
        cmakeuserpresets_text(config.vcpkg_paths.root@, p),
    )
    &&& file_is(files[4], config, p, GITIGNORE_FILENAME@, GITIGNORE_TEXT@)
}

/// Paths and contents of the files that a new project is created with.
pub fn project_files(config: &ProjectConfig, p: Platform) -> (r: Vec<GeneratedFile>)
    ensures
        project_files_spec(r@, *config, p),
{
    let dir = config.project_path.as_str();
    let mut r: Vec<GeneratedFile> = Vec::new();
    r.push(
        GeneratedFile {
            path: join_path(p, dir, CMAKELISTS_FILENAME),
            content: generate_cmakelists_content(config),
        },
    );
    r.push(
        GeneratedFile {
            path: join_path(p, dir, config.main_cpp_file.as_str()),
            content: generate_main_cpp_content(config.project_name.as_str()),
        },
    );
    r.push(
        GeneratedFile {
            path: join_path(p, dir, CMAKE_PRESETS_FILENAME),
            content: generate_cmakepresets_content(),
        },
    );
    r.push(
        GeneratedFile {
            path: join_path(p, dir, CMAKE_USER_PRESETS_FILENAME),
            content: generate_cmakeuserpresets_content(config.vcpkg_paths.root.as_str(), p),
        },
    );
    r.push(
        GeneratedFile {
            path: join_path(p, dir, GITIGNORE_FILENAME),
            content: generate_gitignore_content(),
        },
    );
    r
}

} // verus!

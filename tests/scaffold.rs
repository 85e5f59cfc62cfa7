use rig::cmake::{
    generate_cmakelists_content, generate_cmakepresets_content, generate_cmakeuserpresets_content,
};
use rig::config::ProjectConfig;
use rig::scaffold::{generate_gitignore_content, generate_main_cpp_content, project_files};
use rig::vcpkg::{Platform, VcpkgPaths};

fn config(name: &str, deps: &[&str]) -> ProjectConfig {
    let paths = VcpkgPaths::for_root("/opt/vcpkg".to_string(), Platform::Unix);
    ProjectConfig::new(
        name.to_string(),
        paths,
        deps.iter().map(|d| d.to_string()).collect(),
        "17".to_string(),
    )
}

#[test]
fn cmakelists_for_two_dependencies() {
    let text = generate_cmakelists_content(&config("demo", &["fmt", "spdlog"]));
    let expected = "cmake_minimum_required(VERSION 3.19)\nproject(demo CXX)\n\nset(CMAKE_CXX_STANDARD 17)\nset(CMAKE_CXX_STANDARD_REQUIRED ON)\nset(CMAKE_EXPORT_COMPILE_COMMANDS ON)\n\n# Vcpkg integration\nfind_package(fmt CONFIG REQUIRED)\nfind_package(spdlog CONFIG REQUIRED)\n\nadd_executable(demo main.cc)\n\ntarget_link_libraries(demo PRIVATE fmt::fmt spdlog::spdlog)\n";
    assert_eq!(text, expected);
    assert_eq!(text.matches("find_package(").count(), 2);
    let link = text.lines().find(|l| l.starts_with("target_link_libraries")).unwrap();
    assert_eq!(link, "target_link_libraries(demo PRIVATE fmt::fmt spdlog::spdlog)");
}

#[test]
fn cmakelists_without_dependencies_has_placeholders() {
    let text = generate_cmakelists_content(&config("demo", &[]));
    let expected = "cmake_minimum_required(VERSION 3.19)\nproject(demo CXX)\n\nset(CMAKE_CXX_STANDARD 17)\nset(CMAKE_CXX_STANDARD_REQUIRED ON)\nset(CMAKE_EXPORT_COMPILE_COMMANDS ON)\n\n# Vcpkg integration\n# No dependencies specified\n\nadd_executable(demo main.cc)\n\n# No dependencies to link\n";
    assert_eq!(text, expected);
    assert!(!text.contains("find_package("));
    assert!(!text.contains("target_link_libraries("));
    assert!(!text.contains("//"));
}

#[test]
fn cmakelists_skips_empty_dependency_names() {
    let only_empty = generate_cmakelists_content(&config("demo", &["", ""]));
    assert_eq!(only_empty, generate_cmakelists_content(&config("demo", &[])));
    let mixed = generate_cmakelists_content(&config("demo", &["", "fmt", ""]));
    assert!(mixed.contains("# Vcpkg integration\nfind_package(fmt CONFIG REQUIRED)\n\n"));
    assert!(mixed.contains("PRIVATE fmt::fmt)\n"));
}

#[test]
fn generation_is_deterministic() {
    let a = config("demo", &["fmt"]);
    let b = config("demo", &["fmt"]);
    assert_eq!(generate_cmakelists_content(&a), generate_cmakelists_content(&b));
    assert_eq!(generate_cmakelists_content(&a), generate_cmakelists_content(&a));
    assert_eq!(generate_cmakepresets_content(), generate_cmakepresets_content());
    assert_eq!(
        generate_cmakeuserpresets_content("/opt/vcpkg", Platform::Unix),
        generate_cmakeuserpresets_content("/opt/vcpkg", Platform::Unix)
    );
    assert_eq!(generate_main_cpp_content("demo"), generate_main_cpp_content("demo"));
}

#[test]
fn presets_have_base_debug_and_release() {
    let text = generate_cmakepresets_content();
    assert!(text.starts_with("{\n    \"version\": 3,"));
    assert!(text.contains("\"name\": \"vcpkg-base\",\n            \"hidden\": true,"));
    assert!(text.contains("\"CMAKE_TOOLCHAIN_FILE\": \"$env{VCPKG_ROOT}/scripts/buildsystems/vcpkg.cmake\""));
    assert!(text.contains("\"name\": \"debug\""));
    assert!(text.contains("\"name\": \"release\""));
    assert!(text.ends_with("}"));
}

#[test]
fn user_presets_on_unix() {
    let text = generate_cmakeuserpresets_content("/opt/vcpkg", Platform::Unix);
    assert!(text.contains("\"VCPKG_ROOT\": \"/opt/vcpkg\",\n"));
    assert!(text.contains("\"CMAKE_MAKE_PROGRAM\": \"ninja\",\n"));
    assert!(text.contains("\"CMAKE_C_COMPILER\": \"clang\",\n"));
    assert!(text.contains("\"CMAKE_CXX_COMPILER\": \"clang++\"\n"));
    assert!(text.contains("\"inherits\": \"debug\""));
}

#[test]
fn user_presets_on_windows_escape_backslashes() {
    let text = generate_cmakeuserpresets_content("C:\\tools\\vcpkg", Platform::Windows);
    assert!(text.contains("\"VCPKG_ROOT\": \"C:\\\\tools\\\\vcpkg\",\n"));
    assert!(text.contains("\"CMAKE_MAKE_PROGRAM\": \"ninja.exe\",\n"));
    assert!(text.contains("\"CMAKE_C_COMPILER\": \"cl.exe\",\n"));
    assert!(text.contains("\"CMAKE_CXX_COMPILER\": \"cl.exe\"\n"));
}

#[test]
fn main_source_greets_with_project_name() {
    let text = generate_main_cpp_content("demo");
    assert!(text.starts_with("#include <iostream>\n"));
    assert!(text.contains("// fmt::print(\"Hello from {}!\\n\", \"demo\");\n"));
    assert!(text.contains("std::cout << \"Hello from demo!\" << std::endl;\n"));
    assert!(text.contains("std::cout << i << \": \" << argv[i] << std::endl;"));
    assert!(text.ends_with("    return 0;\n}\n"));
}

#[test]
fn gitignore_lists_build_outputs() {
    let text = generate_gitignore_content();
    assert!(text.starts_with("# CMake\nbuild/\ninstall/\nCMakeUserPresets.json\n"));
    assert!(text.contains("vcpkg_installed/\n"));
    assert!(text.ends_with("*.mod\n*.smod\n"));
}

#[test]
fn project_files_are_the_five_expected() {
    let c = config("demo", &["fmt", "spdlog"]);
    let files = project_files(&c, Platform::Unix);
    let paths: Vec<&str> = files.iter().map(|f| f.path.as_str()).collect();
    assert_eq!(
        paths,
        vec![
            "demo/CMakeLists.txt",
            "demo/main.cc",
            "demo/CMakePresets.json",
            "demo/CMakeUserPresets.json",
            "demo/.gitignore"
        ]
    );
    assert_eq!(files[0].content, generate_cmakelists_content(&c));
    assert!(files[0].content.contains("find_package(fmt CONFIG REQUIRED)"));
    assert!(files[0].content.contains("find_package(spdlog CONFIG REQUIRED)"));
    assert_eq!(files[1].content, generate_main_cpp_content("demo"));
    assert_eq!(files[3].content, generate_cmakeuserpresets_content("/opt/vcpkg", Platform::Unix));
}

#[test]
fn config_is_named_after_project() {
    let c = config("demo", &["fmt"]);
    assert_eq!(c.project_name, "demo");
    assert_eq!(c.project_path, "demo");
    assert_eq!(c.main_cpp_file, "main.cc");
    assert_eq!(c.cpp_standard, "17");
    assert_eq!(c.dependencies, vec!["fmt".to_string()]);
}

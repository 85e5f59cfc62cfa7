//! Scaffolding and task running for C++ projects that build with CMake presets
//! and take their packages from vcpkg: the generated files, the search for the
//! project root, and the decisions of each command, with the I/O left to callers.
pub mod executor;
pub mod text;
pub mod vcpkg;
pub mod config;
pub mod cmake;
pub mod scaffold;
pub mod locate;
pub mod build_plan;
pub mod clean;
pub mod add;
pub mod new;
pub mod manifest;
pub mod run;
pub mod cli;

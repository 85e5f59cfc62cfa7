use vstd::prelude::*;
use crate::config::ProjectConfig;
use crate::text::{join_spec, lemma_join_push, views};
use crate::vcpkg::Platform;

verus! {

/// Name of the build descriptor file.
pub const CMAKELISTS_FILENAME: &'static str = "CMakeLists.txt";

/// Name of the shared presets file.
pub const CMAKE_PRESETS_FILENAME: &'static str = "CMakePresets.json";

/// Name of the developer-local presets file.
pub const CMAKE_USER_PRESETS_FILENAME: &'static str = "CMakeUserPresets.json";

/// The non-empty dependencies, in their order.
pub open spec fn kept(deps: Seq<Seq<char>>) -> Seq<Seq<char>>
    decreases deps.len(),
{
    if deps.len() == 0 {
        deps
    } else if deps.last().len() > 0 {
        kept(deps.drop_last()).push(deps.last())
    } else {
        kept(deps.drop_last())
    }
}

/// The directive that requires the package `d`.
pub open spec fn find_package_line(d: Seq<char>) -> Seq<char> {
    "find_package("@ + d + " CONFIG REQUIRED)"@
}

/// The library that a dependency `d` is linked as: `d::d`.
pub open spec fn link_item(d: Seq<char>) -> Seq<char> {
    d + "::"@ + d
}

/// One require directive per non-empty dependency, one per line.
pub open spec fn find_package_lines(deps: Seq<Seq<char>>) -> Seq<char> {
    join_spec(kept(deps).map_values(|d: Seq<char>| find_package_line(d)), "\n"@)
}

/// The libraries to link, separated by single spaces.
pub open spec fn link_line(deps: Seq<Seq<char>>) -> Seq<char> {
    join_spec(kept(deps).map_values(|d: Seq<char>| link_item(d)), " "@)
}

/// What stands where the require directives go.
pub open spec fn find_package_section(deps: Seq<Seq<char>>) -> Seq<char> {
    if kept(deps).len() == 0 {
        "# No dependencies specified"@
    } else {
        find_package_lines(deps)
    }
}

/// The line that links the target `name` with its dependencies, or a comment
/// in its place when there is nothing to link.
pub open spec fn link_directive(name: Seq<char>, deps: Seq<Seq<char>>) -> Seq<char> {
    if kept(deps).len() == 0 {
        "# No dependencies to link"@
    } else {
        "target_link_libraries("@ + name + " PRIVATE "@ + link_line(deps) + ")"@
    }
}

/// The build descriptor of a project.
pub open spec fn cmakelists_text(
    name: Seq<char>,
    main_file: Seq<char>,
    standard: Seq<char>,
    deps: Seq<Seq<char>>,
) -> Seq<char> {
    "cmake_minimum_required(VERSION 3.19)\nproject("@ + name + " CXX)\n\nset(CMAKE_CXX_STANDARD "@
        + standard
        + ")\nset(CMAKE_CXX_STANDARD_REQUIRED ON)\nset(CMAKE_EXPORT_COMPILE_COMMANDS ON)\n\n# Vcpkg integration\n"@
        + find_package_section(deps) + "\n\nadd_executable("@ + name + " "@ + main_file
        + ")\n\n"@ + link_directive(name, deps) + "\n"@
}

/// The build descriptor text for `config`.
pub open spec fn cmakelists_of(config: ProjectConfig) -> Seq<char> {
    cmakelists_text(
        config.project_name@,
        config.main_cpp_file@,
        config.cpp_standard@,
        config.deps(),
    )
}

/// How the non-empty dependencies of a prefix grow by one more dependency.
pub proof fn lemma_kept_step(deps: Seq<Seq<char>>, i: int)
    requires
        0 <= i < deps.len(),
    ensures
        deps[i].len() > 0 ==> kept(deps.subrange(0, i + 1)) == kept(deps.subrange(0, i)).push(
            deps[i],
        ),
        deps[i].len() == 0 ==> kept(deps.subrange(0, i + 1)) == kept(deps.subrange(0, i)),
{
    assert(deps.subrange(0, i + 1).drop_last() =~= deps.subrange(0, i));
}

/// Joining the parts of `ks` with one more part `d` at the end.
proof fn lemma_join_step(
    ks: Seq<Seq<char>>,
    d: Seq<char>,
    f: spec_fn(Seq<char>) -> Seq<char>,
    sep: Seq<char>,
)
    ensures
        ks.len() == 0 ==> join_spec(ks.push(d).map_values(f), sep) == f(d),
        ks.len() > 0 ==> join_spec(ks.push(d).map_values(f), sep) == join_spec(
            ks.map_values(f),
            sep,
        ) + sep + f(d),
{
    assert(ks.push(d).map_values(f) =~= ks.map_values(f).push(f(d)));
    if ks.len() > 0 {
        lemma_join_push(ks.map_values(f), sep, f(d));
    }
}

/// Builds the require directives and the link line of `deps` in one pass.
fn dependency_sections(name: &str, deps: &Vec<String>) -> (r: (String, String))
    ensures
        r.0@ == find_package_section(views(deps@)),
        r.1@ == link_directive(name@, views(deps@)),
{
    let ghost all = views(deps@);
    let mut finds = String::new();
    let mut links = String::new();
    let mut any = false;
    let mut i: usize = 0;
    while i < deps.len()
        invariant
            i <= deps.len(),
            all == views(deps@),
            any == (kept(all.subrange(0, i as int)).len() > 0),
            finds@ == find_package_lines(all.subrange(0, i as int)),
            links@ == link_line(all.subrange(0, i as int)),
        decreases deps.len() - i,
    {
        let d = deps[i].as_str();
        proof {
            lemma_kept_step(all, i as int);
        }
        if !d.is_empty() {
            let ghost ks = kept(all.subrange(0, i as int));
            let ghost fp = |x: Seq<char>| find_package_line(x);
            let ghost li = |x: Seq<char>| link_item(x);
            proof {
                lemma_join_step(ks, d@, fp, "\n"@);
                lemma_join_step(ks, d@, li, " "@);
            }
            let ghost old_finds = finds@;
            let ghost old_links = links@;
            if any {
                finds.append("\n");
                links.append(" ");
            }
            finds.append("find_package(");
            finds.append(d);
            finds.append(" CONFIG REQUIRED)");
            links.append(d);
            links.append("::");
            links.append(d);
            proof {
                if any {
                    assert(finds@ =~= old_finds + "\n"@ + find_package_line(d@));
                    assert(links@ =~= old_links + " "@ + link_item(d@));
                } else {
                    assert(finds@ =~= find_package_line(d@));
                    assert(links@ =~= link_item(d@));
                }
            }
            any = true;
        }
        i = i + 1;
    }
    assert(all.subrange(0, deps.len() as int) =~= all);
    if !any {
        return ("# No dependencies specified".to_owned(), "# No dependencies to link".to_owned());
    }
    let mut directive = "target_link_libraries(".to_owned();
    directive.append(name);
    directive.append(" PRIVATE ");
    directive.append(links.as_str());
    directive.append(")");
    (finds, directive)
}

/// The build descriptor of the project: it declares the project and its language
/// standard, requires each non-empty dependency `X` and links it as `X::X`, and
/// when there is no dependency puts a `#` comment in place of the require
/// directives and of the link directive.
pub fn generate_cmakelists_content(config: &ProjectConfig) -> (r: String)
    ensures
        r@ == cmakelists_of(*config),
{
    let name = config.project_name.as_str();
    let (finds, link) = dependency_sections(name, &config.dependencies);
    let mut r = "cmake_minimum_required(VERSION 3.19)\nproject(".to_owned();
    r.append(name);
    r.append(" CXX)\n\nset(CMAKE_CXX_STANDARD ");
    r.append(config.cpp_standard.as_str());
    r.append(
        ")\nset(CMAKE_CXX_STANDARD_REQUIRED ON)\nset(CMAKE_EXPORT_COMPILE_COMMANDS ON)\n\n# Vcpkg integration\n",
    );
    r.append(finds.as_str());
    r.append("\n\nadd_executable(");
    r.append(name);
    r.append(" ");
    r.append(config.main_cpp_file.as_str());
    r.append(")\n\n");
    r.append(link.as_str());
    r.append("\n");
    r
}

/// The shared presets file: a hidden base profile that wires the toolchain file
/// through the `VCPKG_ROOT` environment variable, and the debug and release
/// profiles that inherit from it.
pub open spec fn cmakepresets_text() -> Seq<char> {
    PRESETS_TEXT@
}

pub const PRESETS_TEXT: &'static str = r#"{
    "version": 3,
    "configurePresets": [
        {
            "name": "vcpkg-base",
            "hidden": true,
            "generator": "Ninja",
            "binaryDir": "${sourceDir}/build/${presetName}",
            "installDir": "${sourceDir}/install/${presetName}",
            "cacheVariables": {
                "CMAKE_TOOLCHAIN_FILE": "$env{VCPKG_ROOT}/scripts/buildsystems/vcpkg.cmake",
                "CMAKE_EXPORT_COMPILE_COMMANDS": "ON"
            }
        },
        {
            "name": "debug",
            "displayName": "Debug Build",
            "inherits": "vcpkg-base",
            "cacheVariables": { "CMAKE_BUILD_TYPE": "Debug" }
        },
        {
            "name": "release",
            "displayName": "Release Build",
            "inherits": "vcpkg-base",
            "cacheVariables": { "CMAKE_BUILD_TYPE": "Release" }
        }
    ],
    "buildPresets": [
        { "name": "debug", "configurePreset": "debug" },
        { "name": "release", "configurePreset": "release" }
    ],
    "testPresets": [
      { "name": "debug", "configurePreset": "debug", "output": {"outputOnFailure": true}, "execution": {"noTestsAction": "error", "stopOnFailure": true} },
      { "name": "release", "configurePreset": "release", "output": {"outputOnFailure": true}, "execution": {"noTestsAction": "error", "stopOnFailure": true} }
    ]
}"#;

/// The shared presets file; it is the same for every project.
pub fn generate_cmakepresets_content() -> (r: String)
    ensures
        r@ == cmakepresets_text(),
{
    PRESETS_TEXT.to_owned()
}

/// `s` with each backslash doubled, as a JSON string needs it.
pub open spec fn json_escape_backslashes(s: Seq<char>) -> Seq<char>
    decreases s.len(),
{
    if s.len() == 0 {
        s
    } else if s.last() == '\\' {
        json_escape_backslashes(s.drop_last()) + "\\\\"@
    } else {
        json_escape_backslashes(s.drop_last()) + seq![s.last()]
    }
}

fn escape_backslashes(s: &str) -> (r: String)
    ensures
        r@ == json_escape_backslashes(s@),
{
    let n = s.unicode_len();
    let mut r = String::new();
    let mut i: usize = 0;
    while i < n
        invariant
            i <= n,
            n == s@.len(),
            r@ == json_escape_backslashes(s@.subrange(0, i as int)),
        decreases n - i,
    {
        let c = s.get_char(i);
        let ghost prev = r@;
        assert(s@.subrange(0, i + 1).drop_last() =~= s@.subrange(0, i as int));
        if c == '\\' {
            r.append("\\\\");
        } else {
            let piece = s.substring_char(i, i + 1);
            r.append(piece);
            assert(piece@ =~= seq![c]);
        }
        i = i + 1;
    }
    assert(s@.subrange(0, n as int) =~= s@);
    r
}

/// The build program that the developer profile names on `p`.
pub open spec fn make_program(p: Platform) -> Seq<char> {
    if p == Platform::Windows {
        "ninja.exe"@
    } else {
        "ninja"@
    }
}

/// The C compiler that the developer profile names on `p`.
pub open spec fn c_compiler(p: Platform) -> Seq<char> {
    if p == Platform::Windows {
        "cl.exe"@
    } else {
        "clang"@
    }
}

/// The C++ compiler that the developer profile names on `p`.
pub open spec fn cxx_compiler(p: Platform) -> Seq<char> {
    if p == Platform::Windows {
        "cl.exe"@
    } else {
        "clang++"@
    }
}

/// The developer-local presets file for a package manager rooted at `root`.
pub open spec fn cmakeuserpresets_text(root: Seq<char>, p: Platform) -> Seq<char> {
    USER_PRESETS_HEAD@ + json_escape_backslashes(root) + USER_PRESETS_MAKE@ + make_program(p)
        + USER_PRESETS_CC@ + c_compiler(p) + USER_PRESETS_CXX@ + cxx_compiler(p)
        + USER_PRESETS_TAIL@
}

pub const USER_PRESETS_HEAD: &'static str = r#"{
    "version": 3,
    "configurePresets": [
        {
            "name": "dev",
            "displayName": "Developer Default (Debug)",
            "inherits": "debug",
            "environment": {
                "VCPKG_ROOT": ""#;

pub const USER_PRESETS_MAKE: &'static str = r#"",
                "CMAKE_MAKE_PROGRAM": ""#;

pub const USER_PRESETS_CC: &'static str = r#"",
                "CMAKE_C_COMPILER": ""#;

pub const USER_PRESETS_CXX: &'static str = r#"",
                "CMAKE_CXX_COMPILER": ""#;

pub const USER_PRESETS_TAIL: &'static str = r#""
            }
        }
    ],
    "buildPresets": [ { "name": "dev", "configurePreset": "dev" } ],
    "testPresets": [ { "name": "dev", "configurePreset": "dev" } ]
}"#;

/// The developer-local presets file: one profile that inherits the debug profile
/// and hard-codes the package manager's root (backslashes escaped for JSON) and
/// the build tools of the platform.
pub fn generate_cmakeuserpresets_content(vcpkg_root_path: &str, p: Platform) -> (r: String)
    ensures
        r@ == cmakeuserpresets_text(vcpkg_root_path@, p),
{
    let escaped = escape_backslashes(vcpkg_root_path);
    let (make, cc, cxx) = match p {
        Platform::Windows => ("ninja.exe", "cl.exe", "cl.exe"),
        Platform::Unix => ("ninja", "clang", "clang++"),
    };
    let mut r = USER_PRESETS_HEAD.to_owned();
    r.append(escaped.as_str());
    r.append(USER_PRESETS_MAKE);
    r.append(make);
    r.append(USER_PRESETS_CC);
    r.append(cc);
    r.append(USER_PRESETS_CXX);
    r.append(cxx);
    r.append(USER_PRESETS_TAIL);
    r
}

proof fn lemma_kept_all_empty(deps: Seq<Seq<char>>)
    requires
        forall|i: int| 0 <= i < deps.len() ==> #[trigger] deps[i].len() == 0,
    ensures
        kept(deps).len() == 0,
    decreases deps.len(),
{
    if deps.len() > 0 {
        lemma_kept_all_empty(deps.drop_last());
    }
}

/// Generation depends on the configuration's contents alone: two configurations
/// with the same name, entry point, standard, dependencies and package-manager
/// root give the same files. A dependency list with no non-empty name gives
/// `#` comments in place of the require directives and of the link directive,
/// so no directive is left with an empty or made-up argument list.
pub proof fn lemma_generation_deterministic(c1: ProjectConfig, c2: ProjectConfig, p: Platform)
    requires
        c1.project_name@ == c2.project_name@,
        c1.main_cpp_file@ == c2.main_cpp_file@,
        c1.cpp_standard@ == c2.cpp_standard@,
        c1.deps() == c2.deps(),
        c1.vcpkg_paths.root@ == c2.vcpkg_paths.root@,
    ensures
        cmakelists_of(c1) == cmakelists_of(c2),
        cmakeuserpresets_text(c1.vcpkg_paths.root@, p) == cmakeuserpresets_text(
            c2.vcpkg_paths.root@,
            p,
        ),
        (forall|i: int| 0 <= i < c1.deps().len() ==> #[trigger] c1.deps()[i].len() == 0) ==> {
            &&& find_package_section(c1.deps()) == "# No dependencies specified"@
            &&& link_directive(c1.project_name@, c1.deps()) == "# No dependencies to link"@
            &&& find_package_section(c1.deps())[0] == '#'
            &&& link_directive(c1.project_name@, c1.deps())[0] == '#'
        },
{
    if forall|i: int| 0 <= i < c1.deps().len() ==> #[trigger] c1.deps()[i].len() == 0 {
        lemma_kept_all_empty(c1.deps());
        reveal_strlit("# No dependencies specified");
        reveal_strlit("# No dependencies to link");
    }
}

/// Whether `t` occurs in `s` as a contiguous piece.
pub open spec fn contains(s: Seq<char>, t: Seq<char>) -> bool {
    exists|i: int| 0 <= i <= s.len() - t.len() && #[trigger] s.subrange(i, i + t.len()) == t
}

proof fn lemma_contains_within(x: Seq<char>, s: Seq<char>, y: Seq<char>, t: Seq<char>)
    requires
        contains(s, t),
    ensures
        contains(x + s + y, t),
{
    let i = choose|i: int| 0 <= i <= s.len() - t.len() && #[trigger] s.subrange(i, i + t.len()) == t;
    let w = x + s + y;
    let at: int = x.len() + i;
    assert(w.subrange(at, at + t.len()) =~= t);
}

proof fn lemma_join_contains(parts: Seq<Seq<char>>, sep: Seq<char>, j: int)
    requires
        0 <= j < parts.len(),
    ensures
        contains(join_spec(parts, sep), parts[j]),
    decreases parts.len(),
{
    let t = parts[j];
    if parts.len() == 1 {
        let w = join_spec(parts, sep);
        let at: int = 0;
        assert(w.subrange(at, at + t.len()) =~= t);
        assert(contains(w, t));
    } else {
        let front = join_spec(parts.drop_last(), sep);
        if j == parts.len() - 1 {
            let w = join_spec(parts, sep);
            assert(w == front + sep + parts.last());
            let at: int = (front.len() + sep.len()) as int;
            assert(w.subrange(at, at + t.len()) =~= t);
            assert(contains(w, t));
        } else {
            assert(parts.drop_last()[j] == t);
            lemma_join_contains(parts.drop_last(), sep, j);
            lemma_contains_within(Seq::empty(), front, sep + parts.last(), t);
            assert(Seq::<char>::empty() + front + (sep + parts.last()) =~= join_spec(parts, sep));
        }
    }
}

proof fn lemma_kept_has(deps: Seq<Seq<char>>, j: int) -> (k: int)
    requires
        0 <= j < deps.len(),
        deps[j].len() > 0,
    ensures
        0 <= k < kept(deps).len(),
        kept(deps)[k] == deps[j],
    decreases deps.len(),
{
    if j == deps.len() - 1 {
        kept(deps.drop_last()).len() as int
    } else {
        let k = lemma_kept_has(deps.drop_last(), j);
        k
    }
}

/// Every non-empty dependency `X` is required by its own directive and linked
/// as `X::X` in the build descriptor.
pub proof fn lemma_dependencies_referenced(
    name: Seq<char>,
    main_file: Seq<char>,
    standard: Seq<char>,
    deps: Seq<Seq<char>>,
    j: int,
)
    requires
        0 <= j < deps.len(),
        deps[j].len() > 0,
    ensures
        contains(cmakelists_text(name, main_file, standard, deps), find_package_line(deps[j])),
        contains(cmakelists_text(name, main_file, standard, deps), link_item(deps[j])),
{
    let d = deps[j];
    let k = lemma_kept_has(deps, j);
    let ks = kept(deps);
    let fp = |x: Seq<char>| find_package_line(x);
    let li = |x: Seq<char>| link_item(x);
    assert(ks.map_values(fp)[k] == find_package_line(d));
    assert(ks.map_values(li)[k] == link_item(d));
    lemma_join_contains(ks.map_values(fp), "\n"@, k);
    lemma_join_contains(ks.map_values(li), " "@, k);
    let pre1 = "cmake_minimum_required(VERSION 3.19)\nproject("@ + name
        + " CXX)\n\nset(CMAKE_CXX_STANDARD "@ + standard
        + ")\nset(CMAKE_CXX_STANDARD_REQUIRED ON)\nset(CMAKE_EXPORT_COMPILE_COMMANDS ON)\n\n# Vcpkg integration\n"@;
    let sec1 = find_package_section(deps);
    let mid = "\n\nadd_executable("@ + name + " "@ + main_file + ")\n\n"@;
    let head = "target_link_libraries("@ + name + " PRIVATE "@;
    let sec2 = link_directive(name, deps);
    let post = "\n"@;
    assert(sec2 == head + link_line(deps) + ")"@);
    lemma_contains_within(head, link_line(deps), ")"@, link_item(d));
    let text = cmakelists_text(name, main_file, standard, deps);
    assert(text =~= pre1 + sec1 + (mid + sec2 + post));
    assert(text =~= (pre1 + sec1 + mid) + sec2 + post);
    lemma_contains_within(pre1, sec1, mid + sec2 + post, find_package_line(d));
    lemma_contains_within(pre1 + sec1 + mid, sec2, post, link_item(d));
}

} // verus!

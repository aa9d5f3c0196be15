//! The dispatch tables of the tool, stated extension by extension over all other
//! inputs: which runner, builder, formatter and checker each file type gets, and
//! which output a failed check reports.
use vstd::prelude::*;
use crate::check::{Checker, json_outcome_spec, checker_command_spec, checker_spec, external_outcome_spec, success_message_spec};
use crate::cli::{Action, Args, all_succeeded, actions_spec, any_action, MainStep, format_outcome_spec, formatter_spec, main_step_spec, template_spec};
use crate::install::{local_bin_spec, path_advice_spec, profile_edit_spec, shell_hint_spec};
use crate::command::{CommandView, Flow, StepView, flow_after_spec};
use crate::diagnostics::{LineStyle, line_style, styled_lines};
use crate::paths::{DirProbe, Marker, first_with, path_joined, path_parent_of, project_root};
use crate::run::{
    PathProbe,
    SnippetPlanView,
    binary_path_spec,
    compile_command_spec,
    include_candidates_spec,
    include_flags,
    needs_clang_probe_spec,
    proceed_plan_spec,
    project_plan_spec,
    snippet_plan_spec,
};
use crate::text::seq_contains;
use crate::text::lines_of;

verus! {

/// The file extensions the tool knows, told apart by length and first character.
proof fn lemma_extension_names()
    ensures
        "c"@.len() == 1 && "c"@[0] == 'c',
        "h"@.len() == 1 && "h"@[0] == 'h',
        "go"@.len() == 2 && "go"@[0] == 'g',
        "rs"@.len() == 2 && "rs"@[0] == 'r',
        "js"@.len() == 2 && "js"@[0] == 'j',
        "ts"@.len() == 2 && "ts"@[0] == 't',
        "py"@.len() == 2 && "py"@[0] == 'p',
        "cpp"@.len() == 3 && "cpp"@[0] == 'c',
        "hpp"@.len() == 3 && "hpp"@[0] == 'h',
        "mjs"@.len() == 3 && "mjs"@[0] == 'm',
        "jsx"@.len() == 3 && "jsx"@[0] == 'j',
        "tsx"@.len() == 3 && "tsx"@[0] == 't',
        "json"@.len() == 4 && "json"@[0] == 'j',
{
    reveal_strlit("c");
    reveal_strlit("h");
    reveal_strlit("go");
    reveal_strlit("rs");
    reveal_strlit("js");
    reveal_strlit("ts");
    reveal_strlit("py");
    reveal_strlit("cpp");
    reveal_strlit("hpp");
    reveal_strlit("mjs");
    reveal_strlit("jsx");
    reveal_strlit("tsx");
    reveal_strlit("json");
}

/// A command with no working directory that does not stop a plan.
pub open spec fn spawn(program: Seq<char>, args: Seq<Seq<char>>, context: Option<Seq<char>>) -> CommandView {
    CommandView { program, args, cwd: None, context, stop_on_failure: false }
}

/// How a single file is run, for every file type the runner knows and whatever
/// the path, the user's arguments and the clang probe: JavaScript (`.js`, `.mjs`)
/// with node, TypeScript (`.ts`, `.tsx`) with ts-node, Go with `go run`, Python
/// with python3, each on the file and then the user's arguments; C with clang (or
/// gcc), C++ with clang (or g++), Rust with rustc, compiled; JSON printed. None of
/// these is left unsupported.
pub proof fn law_snippet_runners(path: Seq<char>, args: Seq<Seq<char>>, clang_ok: bool)
    ensures
        snippet_plan_spec("js"@, path, args, clang_ok) == SnippetPlanView::Run(
            spawn("node"@, seq![path] + args, Some("node not found in PATH"@)),
        ),
        snippet_plan_spec("mjs"@, path, args, clang_ok) == SnippetPlanView::Run(
            spawn("node"@, seq![path] + args, Some("node not found in PATH"@)),
        ),
        snippet_plan_spec("ts"@, path, args, clang_ok) == SnippetPlanView::Run(
            spawn(
                "ts-node"@,
                seq![path] + args,
                Some("ts-node not found in PATH. install it globally with npm."@),
            ),
        ),
        snippet_plan_spec("tsx"@, path, args, clang_ok) == SnippetPlanView::Run(
            spawn(
                "ts-node"@,
                seq![path] + args,
                Some("ts-node not found in PATH. install it globally with npm."@),
            ),
        ),
        snippet_plan_spec("go"@, path, args, clang_ok) == SnippetPlanView::Run(
            spawn("go"@, seq!["run"@, path] + args, Some("go not found in PATH"@)),
        ),
        snippet_plan_spec("py"@, path, args, clang_ok) == SnippetPlanView::Run(
            spawn("python3"@, seq![path] + args, Some("python3 not found in PATH"@)),
        ),
        snippet_plan_spec("c"@, path, args, clang_ok) == SnippetPlanView::Compile(
            if clang_ok {
                "clang"@
            } else {
                "gcc"@
            },
        ),
        snippet_plan_spec("cpp"@, path, args, clang_ok) == SnippetPlanView::Compile(
            if clang_ok {
                "clang"@
            } else {
                "g++"@
            },
        ),
        snippet_plan_spec("rs"@, path, args, clang_ok) == SnippetPlanView::Compile("rustc"@),
        snippet_plan_spec("json"@, path, args, clang_ok) == SnippetPlanView::PrintFile,
{
    lemma_extension_names();
}

/// A command run in a directory, as a plan step.
pub open spec fn run_in_dir(
    program: Seq<char>,
    args: Seq<Seq<char>>,
    dir: Seq<char>,
    context: Option<Seq<char>>,
    stop_on_failure: bool,
) -> StepView {
    StepView::Run(CommandView { program, args, cwd: Some(dir), context, stop_on_failure })
}

/// How a project is run, by the file's type, whatever the path, the root and the
/// user's arguments: a Rust project with `cargo run --`, a Node project (`.js`,
/// `.ts`, `.jsx`, `.tsx` alike) with `npm start --`, a Go module with `go run .`,
/// each in the root with the user's arguments after; a Python file with python3 on
/// the file, with or without a root.
pub proof fn law_project_runners(path: Seq<char>, r: DirProbe, args: Seq<Seq<char>>)
    ensures
        project_plan_spec("rs"@, path, Some(r), args) == Some(
            seq![run_in_dir("cargo"@, seq!["run"@, "--"@] + args, r.dir@, None, false)],
        ),
        project_plan_spec("js"@, path, Some(r), args) == Some(
            seq![run_in_dir("npm"@, seq!["start"@, "--"@] + args, r.dir@, None, false)],
        ),
        project_plan_spec("ts"@, path, Some(r), args) == Some(
            seq![run_in_dir("npm"@, seq!["start"@, "--"@] + args, r.dir@, None, false)],
        ),
        project_plan_spec("jsx"@, path, Some(r), args) == Some(
            seq![run_in_dir("npm"@, seq!["start"@, "--"@] + args, r.dir@, None, false)],
        ),
        project_plan_spec("tsx"@, path, Some(r), args) == Some(
            seq![run_in_dir("npm"@, seq!["start"@, "--"@] + args, r.dir@, None, false)],
        ),
        project_plan_spec("go"@, path, Some(r), args) == Some(
            seq![run_in_dir("go"@, seq!["run"@, "."@] + args, r.dir@, None, false)],
        ),
        project_plan_spec("py"@, path, Some(r), args) == Some(
            seq![StepView::Run(spawn("python3"@, seq![path] + args, None))],
        ),
        project_plan_spec("py"@, path, None, args) == Some(
            seq![StepView::Run(spawn("python3"@, seq![path] + args, None))],
        ),
{
    lemma_extension_names();
}

/// How a C or C++ project (`.c`, `.cpp`, `.h`, `.hpp` alike) is run, by the
/// marker its root holds: CMake (create `build`, `cmake ..` there, stopping when it
/// fails, then `make` there), else make in the root, else `cargo run --` in the
/// root; with none of these there is no project plan.
pub proof fn law_c_project_runners(ext: Seq<char>, path: Seq<char>, r: DirProbe, args: Seq<Seq<char>>)
    requires
        ext == "c"@ || ext == "cpp"@ || ext == "h"@ || ext == "hpp"@,
    ensures
        r.cmake_lists ==> project_plan_spec(ext, path, Some(r), args) == Some(
            seq![
                StepView::CreateDir(path_joined(r.dir@, "build"@)),
                run_in_dir(
                    "cmake"@,
                    seq![".."@],
                    path_joined(r.dir@, "build"@),
                    Some("cmake not found in PATH"@),
                    true,
                ),
                run_in_dir(
                    "make"@,
                    seq![],
                    path_joined(r.dir@, "build"@),
                    Some("make not found in PATH"@),
                    false,
                ),
            ],
        ),
        !r.cmake_lists && r.makefile ==> project_plan_spec(ext, path, Some(r), args) == Some(
            seq![run_in_dir("make"@, seq![], r.dir@, Some("make not found in PATH"@), false)],
        ),
        !r.cmake_lists && !r.makefile && r.cargo_toml ==> project_plan_spec(ext, path, Some(r), args)
            == Some(
            seq![
                run_in_dir(
                    "cargo"@,
                    seq!["run"@, "--"@] + args,
                    r.dir@,
                    Some("cargo not found in PATH"@),
                    false,
                ),
            ],
        ),
        !r.cmake_lists && !r.makefile && !r.cargo_toml ==> project_plan_spec(
            ext,
            path,
            Some(r),
            args,
        ) is None,
{
    lemma_extension_names();
}

/// Without a root, Rust, Node, Go, C and C++ files have no project plan (and are
/// run on their own).
pub proof fn law_no_root_no_project_plan(ext: Seq<char>, path: Seq<char>, args: Seq<Seq<char>>)
    requires
        ext == "rs"@ || ext == "js"@ || ext == "ts"@ || ext == "jsx"@ || ext == "tsx"@ || ext
            == "go"@ || ext == "c"@ || ext == "cpp"@ || ext == "h"@ || ext == "hpp"@,
    ensures
        project_plan_spec(ext, path, None, args) is None,
{
    lemma_extension_names();
}

/// How a project is built, by the file's type and the root's markers: Rust with
/// `cargo build`, Go with `go build .`, in the root; a C or C++ file (`.c`, `.cpp`)
/// with CMake (create `build`, `cmake ..` there without stopping on failure, then
/// `make` there), else make in the root, else `cargo build` in the root. A C or
/// C++ root holding a Makefile always has a build.
pub proof fn law_builders(r: DirProbe)
    ensures
        proceed_plan_spec("rs"@, Some(r)) == Some(
            seq![
                run_in_dir(
                    "cargo"@,
                    seq!["build"@],
                    r.dir@,
                    Some("cargo not found in PATH"@),
                    false,
                ),
            ],
        ),
        proceed_plan_spec("go"@, Some(r)) == Some(
            seq![
                run_in_dir(
                    "go"@,
                    seq!["build"@, "."@],
                    r.dir@,
                    Some("go not found in PATH"@),
                    false,
                ),
            ],
        ),
        forall|ext: Seq<char>|
            (ext == "c"@ || ext == "cpp"@) ==> {
                &&& r.cmake_lists ==> proceed_plan_spec(ext, Some(r)) == Some(
                    seq![
                        StepView::CreateDir(path_joined(r.dir@, "build"@)),
                        run_in_dir(
                            "cmake"@,
                            seq![".."@],
                            path_joined(r.dir@, "build"@),
                            Some("cmake not found in PATH"@),
                            false,
                        ),
                        run_in_dir(
                            "make"@,
                            seq![],
                            path_joined(r.dir@, "build"@),
                            Some("make not found in PATH"@),
                            false,
                        ),
                    ],
                )
                &&& !r.cmake_lists && r.makefile ==> proceed_plan_spec(ext, Some(r)) == Some(
                    seq![
                        run_in_dir(
                            "make"@,
                            seq![],
                            r.dir@,
                            Some("make not found in PATH"@),
                            false,
                        ),
                    ],
                )
                &&& !r.cmake_lists && !r.makefile && r.cargo_toml ==> proceed_plan_spec(
                    ext,
                    Some(r),
                ) == Some(
                    seq![
                        run_in_dir(
                            "cargo"@,
                            seq!["build"@],
                            r.dir@,
                            Some("cargo not found in PATH"@),
                            false,
                        ),
                    ],
                )
                &&& (r.makefile || r.cmake_lists || r.cargo_toml) ==> proceed_plan_spec(
                    ext,
                    Some(r),
                ) is Some
            },
        proceed_plan_spec("h"@, Some(r)) is None,
        proceed_plan_spec("hpp"@, Some(r)) is None,
        proceed_plan_spec("py"@, Some(r)) is None,
        proceed_plan_spec("js"@, Some(r)) is None,
        forall|ext: Seq<char>| proceed_plan_spec(ext, None) is None,
{
    lemma_extension_names();
}

/// What a check reports from how its tool ended: a pass carries the checker's
/// message and no diagnostics; a failure carries no message and the shown lines
/// of standard error, except for TypeScript, whose `tsc` reports on standard
/// output. A failure's report never depends on the other stream.
pub proof fn law_failed_check_reports(
    c: Checker,
    out: Seq<char>,
    out2: Seq<char>,
    err: Seq<char>,
    err2: Seq<char>,
)
    ensures
        !external_outcome_spec(c, false, out, err).ok,
        external_outcome_spec(c, false, out, err).message == Seq::<char>::empty(),
        external_outcome_spec(c, true, out, err).ok,
        external_outcome_spec(c, true, out, err).diagnostics == Seq::<
            (crate::diagnostics::LineStyle, Seq<char>),
        >::empty(),
        external_outcome_spec(c, true, out, err) == external_outcome_spec(c, true, out2, err2),
        c != Checker::TypeScript ==> external_outcome_spec(c, false, out, err).diagnostics
            == styled_lines(lines_of(err)),
        c != Checker::TypeScript ==> external_outcome_spec(c, false, out, err)
            == external_outcome_spec(c, false, out2, err),
        c == Checker::TypeScript ==> external_outcome_spec(c, false, out, err).diagnostics
            == styled_lines(lines_of(out)),
        c == Checker::TypeScript ==> external_outcome_spec(c, false, out, err)
            == external_outcome_spec(c, false, out, err2),
{
}

/// The formatter of each file type, whatever the path: rustfmt on Rust, `gofmt -w`
/// on Go, `clang-format -i` on C and C++ (`.c`, `.cpp`, `.h`, `.hpp` alike),
/// `prettier --write` on JavaScript and TypeScript (`.js`, `.ts`, `.jsx`, `.tsx`
/// alike); Python, `.mjs` and JSON files have none.
pub proof fn law_formatters(path: Seq<char>)
    ensures
        formatter_spec("rs"@, path) == Some(spawn("rustfmt"@, seq![path], None)),
        formatter_spec("go"@, path) == Some(spawn("gofmt"@, seq!["-w"@, path], None)),
        formatter_spec("c"@, path) == Some(spawn("clang-format"@, seq!["-i"@, path], None)),
        formatter_spec("cpp"@, path) == Some(spawn("clang-format"@, seq!["-i"@, path], None)),
        formatter_spec("h"@, path) == Some(spawn("clang-format"@, seq!["-i"@, path], None)),
        formatter_spec("hpp"@, path) == Some(spawn("clang-format"@, seq!["-i"@, path], None)),
        formatter_spec("js"@, path) == Some(spawn("prettier"@, seq!["--write"@, path], None)),
        formatter_spec("ts"@, path) == Some(spawn("prettier"@, seq!["--write"@, path], None)),
        formatter_spec("jsx"@, path) == Some(spawn("prettier"@, seq!["--write"@, path], None)),
        formatter_spec("tsx"@, path) == Some(spawn("prettier"@, seq!["--write"@, path], None)),
        formatter_spec("py"@, path) is None,
        formatter_spec("mjs"@, path) is None,
        formatter_spec("json"@, path) is None,
{
    lemma_extension_names();
}

/// The checker of each file type: JSON parsed in-process; C and C++ (`.c`,
/// `.cpp`, `.h`, `.hpp`) with clang; Go; Rust; TypeScript (`.ts`, `.tsx`);
/// Python. JavaScript files (`.js`, `.mjs`, `.jsx`) are not checked.
pub proof fn law_checkers()
    ensures
        checker_spec("json"@) == Some(Checker::Json),
        checker_spec("c"@) == Some(Checker::CFamily),
        checker_spec("cpp"@) == Some(Checker::CFamily),
        checker_spec("h"@) == Some(Checker::CFamily),
        checker_spec("hpp"@) == Some(Checker::CFamily),
        checker_spec("go"@) == Some(Checker::Go),
        checker_spec("rs"@) == Some(Checker::Rust),
        checker_spec("ts"@) == Some(Checker::TypeScript),
        checker_spec("tsx"@) == Some(Checker::TypeScript),
        checker_spec("py"@) == Some(Checker::Python),
        checker_spec("js"@) is None,
        checker_spec("mjs"@) is None,
        checker_spec("jsx"@) is None,
{
    lemma_extension_names();
}

/// Header files, `.jsx` and files of unknown type are not run on their own; only
/// C and C++ sources probe for clang.
pub proof fn law_snippet_unsupported(path: Seq<char>, args: Seq<Seq<char>>, clang_ok: bool)
    ensures
        snippet_plan_spec("h"@, path, args, clang_ok) == SnippetPlanView::Unsupported,
        snippet_plan_spec("hpp"@, path, args, clang_ok) == SnippetPlanView::Unsupported,
        snippet_plan_spec("jsx"@, path, args, clang_ok) == SnippetPlanView::Unsupported,
        snippet_plan_spec(Seq::empty(), path, args, clang_ok) == SnippetPlanView::Unsupported,
        needs_clang_probe_spec("c"@),
        needs_clang_probe_spec("cpp"@),
        !needs_clang_probe_spec("h"@),
        !needs_clang_probe_spec("rs"@),
        !needs_clang_probe_spec("go"@),
{
    lemma_extension_names();
}

/// `probes[i]` is the nearest directory holding the marker.
pub open spec fn nearest(probes: Seq<DirProbe>, m: Marker, i: int) -> bool {
    &&& 0 <= i < probes.len()
    &&& probes[i].holds(m)
    &&& forall|j: int| 0 <= j < i ==> !(#[trigger] probes[j]).holds(m)
}

/// No directory holds the marker.
pub open spec fn none_holds(probes: Seq<DirProbe>, m: Marker) -> bool {
    forall|j: int| 0 <= j < probes.len() ==> !(#[trigger] probes[j]).holds(m)
}

proof fn lemma_first_with_nearest(probes: Seq<DirProbe>, m: Marker, i: int)
    requires
        nearest(probes, m, i),
    ensures
        first_with(probes, m) == Some(probes[i]),
    decreases i,
{
    if i > 0 {
        assert(!probes[0].holds(m));
        let rest = probes.drop_first();
        assert forall|j: int| 0 <= j < i - 1 implies !(#[trigger] rest[j]).holds(m) by {
            assert(rest[j] == probes[j + 1]);
        }
        assert(rest[i - 1] == probes[i]);
        lemma_first_with_nearest(rest, m, i - 1);
    }
}

proof fn lemma_first_with_none(probes: Seq<DirProbe>, m: Marker)
    requires
        none_holds(probes, m),
    ensures
        first_with(probes, m) is None,
    decreases probes.len(),
{
    if probes.len() > 0 {
        assert(!probes[0].holds(m));
        let rest = probes.drop_first();
        assert forall|j: int| 0 <= j < rest.len() implies !(#[trigger] rest[j]).holds(m) by {
            assert(rest[j] == probes[j + 1]);
        }
        lemma_first_with_none(rest, m);
    }
}

/// The Rust checker runs `cargo check` in the nearest directory holding a
/// `Cargo.toml`, and `rustc -Z no-codegen` on the file where there is none; the
/// other checkers run their tool on the file: `clang -fsyntax-only -Wall`, `go
/// build -o /dev/null`, `tsc --noEmit`, `python3 -m py_compile`. JSON has no
/// command. Each passing check has its message.
pub proof fn law_checker_commands(path: Seq<char>, probes: Seq<DirProbe>, i: int)
    ensures
        nearest(probes, Marker::CargoToml, i) ==> checker_command_spec(Checker::Rust, path, probes)
            == Some(
            CommandView {
                program: "cargo"@,
                args: seq!["check"@],
                cwd: Some(probes[i].dir@),
                context: None,
                stop_on_failure: false,
            },
        ),
        none_holds(probes, Marker::CargoToml) ==> checker_command_spec(Checker::Rust, path, probes)
            == Some(spawn("rustc"@, seq!["-Z"@, "no-codegen"@, path], None)),
        checker_command_spec(Checker::CFamily, path, probes) == Some(
            spawn("clang"@, seq!["-fsyntax-only"@, "-Wall"@, path], None),
        ),
        checker_command_spec(Checker::Go, path, probes) == Some(
            spawn("go"@, seq!["build"@, "-o"@, "/dev/null"@, path], None),
        ),
        checker_command_spec(Checker::TypeScript, path, probes) == Some(
            spawn("tsc"@, seq!["--noEmit"@, path], None),
        ),
        checker_command_spec(Checker::Python, path, probes) == Some(
            spawn("python3"@, seq!["-m"@, "py_compile"@, path], None),
        ),
        checker_command_spec(Checker::Json, path, probes) is None,
        success_message_spec(Checker::Json) == "valid JSON"@,
        success_message_spec(Checker::CFamily) == "C/C++ syntax valid"@,
        success_message_spec(Checker::Go) == "go syntax valid"@,
        success_message_spec(Checker::Rust) == "rust syntax valid"@,
        success_message_spec(Checker::TypeScript) == "ts syntax valid"@,
        success_message_spec(Checker::Python) == "python syntax valid"@,
{
    if nearest(probes, Marker::CargoToml, i) {
        lemma_first_with_nearest(probes, Marker::CargoToml, i);
    }
    if none_holds(probes, Marker::CargoToml) {
        lemma_first_with_none(probes, Marker::CargoToml);
    }
}

/// The project root of each file type is the nearest directory holding its
/// marker: `Cargo.toml` for Rust, `package.json` for JavaScript and TypeScript,
/// `go.mod` for Go, `requirements.txt` for Python; for C and C++ the nearest
/// `CMakeLists.txt`, or where there is none the nearest `Makefile`.
pub proof fn law_marker_roots(probes: Seq<DirProbe>, i: int)
    ensures
        nearest(probes, Marker::CargoToml, i) ==> project_root("rs"@, probes) == Some(probes[i]),
        nearest(probes, Marker::PackageJson, i) ==> project_root("js"@, probes) == Some(probes[i])
            && project_root("ts"@, probes) == Some(probes[i]) && project_root("jsx"@, probes)
            == Some(probes[i]) && project_root("tsx"@, probes) == Some(probes[i]),
        nearest(probes, Marker::GoMod, i) ==> project_root("go"@, probes) == Some(probes[i]),
        nearest(probes, Marker::RequirementsTxt, i) ==> project_root("py"@, probes) == Some(
            probes[i],
        ),
        nearest(probes, Marker::CMakeLists, i) ==> project_root("c"@, probes) == Some(probes[i])
            && project_root("cpp"@, probes) == Some(probes[i]) && project_root("h"@, probes)
            == Some(probes[i]) && project_root("hpp"@, probes) == Some(probes[i]),
        none_holds(probes, Marker::CMakeLists) && nearest(probes, Marker::Makefile, i) ==> project_root(
            "c"@,
            probes,
        ) == Some(probes[i]) && project_root("cpp"@, probes) == Some(probes[i]) && project_root(
            "h"@,
            probes,
        ) == Some(probes[i]) && project_root("hpp"@, probes) == Some(probes[i]),
{
    lemma_extension_names();
    if nearest(probes, Marker::CargoToml, i) {
        lemma_first_with_nearest(probes, Marker::CargoToml, i);
    }
    if nearest(probes, Marker::PackageJson, i) {
        lemma_first_with_nearest(probes, Marker::PackageJson, i);
    }
    if nearest(probes, Marker::GoMod, i) {
        lemma_first_with_nearest(probes, Marker::GoMod, i);
    }
    if nearest(probes, Marker::RequirementsTxt, i) {
        lemma_first_with_nearest(probes, Marker::RequirementsTxt, i);
    }
    if nearest(probes, Marker::CMakeLists, i) {
        lemma_first_with_nearest(probes, Marker::CMakeLists, i);
    }
    if none_holds(probes, Marker::CMakeLists) {
        lemma_first_with_none(probes, Marker::CMakeLists);
    }
    if nearest(probes, Marker::Makefile, i) {
        lemma_first_with_nearest(probes, Marker::Makefile, i);
    }
}

/// A file of another type (here: no extension) is rooted in the nearest Rust
/// project, else the nearest Node project, else the nearest Go module.
pub proof fn law_fallback_roots(probes: Seq<DirProbe>, i: int)
    ensures
        nearest(probes, Marker::CargoToml, i) ==> project_root(Seq::empty(), probes) == Some(
            probes[i],
        ),
        none_holds(probes, Marker::CargoToml) && nearest(probes, Marker::PackageJson, i)
            ==> project_root(Seq::empty(), probes) == Some(probes[i]),
        none_holds(probes, Marker::CargoToml) && none_holds(probes, Marker::PackageJson) && nearest(
            probes,
            Marker::GoMod,
            i,
        ) ==> project_root(Seq::empty(), probes) == Some(probes[i]),
        none_holds(probes, Marker::CargoToml) && none_holds(probes, Marker::PackageJson)
            && none_holds(probes, Marker::GoMod) ==> project_root(Seq::empty(), probes) is None,
{
    lemma_extension_names();
    if nearest(probes, Marker::CargoToml, i) {
        lemma_first_with_nearest(probes, Marker::CargoToml, i);
    }
    if none_holds(probes, Marker::CargoToml) {
        lemma_first_with_none(probes, Marker::CargoToml);
    }
    if nearest(probes, Marker::PackageJson, i) {
        lemma_first_with_nearest(probes, Marker::PackageJson, i);
    }
    if none_holds(probes, Marker::PackageJson) {
        lemma_first_with_none(probes, Marker::PackageJson);
    }
    if nearest(probes, Marker::GoMod, i) {
        lemma_first_with_nearest(probes, Marker::GoMod, i);
    }
    if none_holds(probes, Marker::GoMod) {
        lemma_first_with_none(probes, Marker::GoMod);
    }
}

/// The templates: `main.c`, `main.go` and `main.py` for the choices `c`, `go` and
/// `py`, each printing "hello world"; `main.rs` for any other answer.
pub proof fn law_templates(other: Seq<char>)
    requires
        other != "c"@,
        other != "go"@,
        other != "py"@,
    ensures
        template_spec("c"@) == (
            "main.c"@,
            "#include <stdio.h>\n\nint main() {\n    printf(\"hello world\\n\");\n    return 0;\n}\n"@,
        ),
        template_spec("go"@) == (
            "main.go"@,
            "package main\n\nimport \"fmt\"\n\nfunc main() {\n    fmt.Println(\"hello world\")\n}\n"@,
        ),
        template_spec("py"@) == ("main.py"@, "print(\"hello world\")\n"@),
        template_spec(other) == ("main.rs"@, "fn main() {\n    println!(\"hello world\");\n}\n"@),
{
    lemma_extension_names();
}

/// The shell hint and startup-file edit by the `$SHELL` value: zsh (checked
/// first), then bash, get the export line in their rc file; fish gets
/// `fish_add_path` in its config; any other shell gets neither.
pub proof fn law_shell_setup(shell: Seq<char>, dir: Seq<char>, home: Seq<char>)
    ensures
        seq_contains(shell, "zsh"@) ==> shell_hint_spec(shell, dir) == Some(
            (".zshrc"@, "echo 'export PATH=\"$PATH:"@ + dir + "\"' >> ~/.zshrc"@),
        ) && profile_edit_spec(home, shell, dir) == Some(
            (path_joined(home, ".zshrc"@), "export PATH=\"$PATH:"@ + dir + "\""@),
        ),
        !seq_contains(shell, "zsh"@) && seq_contains(shell, "bash"@) ==> shell_hint_spec(shell, dir)
            == Some((".bashrc"@, "echo 'export PATH=\"$PATH:"@ + dir + "\"' >> ~/.bashrc"@))
            && profile_edit_spec(home, shell, dir) == Some(
            (path_joined(home, ".bashrc"@), "export PATH=\"$PATH:"@ + dir + "\""@),
        ),
        !seq_contains(shell, "zsh"@) && !seq_contains(shell, "bash"@) && seq_contains(
            shell,
            "fish"@,
        ) ==> shell_hint_spec(shell, dir) == Some(
            (".config/fish/config.fish"@, "fish_add_path "@ + dir),
        ) && profile_edit_spec(home, shell, dir) == Some(
            (path_joined(home, ".config/fish/config.fish"@), "fish_add_path "@ + dir),
        ),
        !seq_contains(shell, "zsh"@) && !seq_contains(shell, "bash"@) && !seq_contains(
            shell,
            "fish"@,
        ) ==> shell_hint_spec(shell, dir) is None && profile_edit_spec(home, shell, dir) is None,
{
}

/// A run's first step: `--install` before everything, then `--init`; without a
/// file the tool only says how to use it; a missing file fails; otherwise it
/// watches or runs once.
pub proof fn law_main_steps(args: Args, exists: bool)
    ensures
        args.install ==> main_step_spec(args, exists) == MainStep::Install,
        !args.install && args.init ==> main_step_spec(args, exists) == MainStep::Init,
        !args.install && !args.init && args.file is None ==> main_step_spec(args, exists)
            == MainStep::NoFile,
        !args.install && !args.init && args.file is Some && !exists ==> main_step_spec(args, exists)
            == MainStep::FileNotFound,
        !args.install && !args.init && args.file is Some && exists ==> main_step_spec(args, exists)
            == (if args.watch {
            MainStep::Watch
        } else {
            MainStep::Run
        }),
{
}

/// A formatter that ran reports its exit status; one that could not be spawned
/// fails and is reported as "<program> not found".
pub proof fn law_format_outcome(program: Seq<char>, success: bool)
    ensures
        format_outcome_spec(program, Some(success)) == (success, None::<Seq<char>>),
        format_outcome_spec(program, None) == (false, Some(program + " not found"@)),
{
}

/// How a line of compiler output is shown: a line with `: error:` or `error[` as
/// an error, whatever else it holds; otherwise a line with `: warning:` as a
/// warning; otherwise one with `: note:` as a note; otherwise one with `|` or `^`
/// as a source excerpt; a line with none of these is not shown.
pub proof fn law_line_styles(l: Seq<char>)
    ensures
        seq_contains(l, ": error:"@) || seq_contains(l, "error["@) ==> line_style(l) == Some(
            LineStyle::Error,
        ),
        !seq_contains(l, ": error:"@) && !seq_contains(l, "error["@) && seq_contains(
            l,
            ": warning:"@,
        ) ==> line_style(l) == Some(LineStyle::Warning),
        !seq_contains(l, ": error:"@) && !seq_contains(l, "error["@) && !seq_contains(
            l,
            ": warning:"@,
        ) && seq_contains(l, ": note:"@) ==> line_style(l) == Some(LineStyle::Note),
        !seq_contains(l, ": error:"@) && !seq_contains(l, "error["@) && !seq_contains(
            l,
            ": warning:"@,
        ) && !seq_contains(l, ": note:"@) && (seq_contains(l, "|"@) || seq_contains(l, "^"@))
            ==> line_style(l) == Some(LineStyle::Snippet),
        !seq_contains(l, ": error:"@) && !seq_contains(l, "error["@) && !seq_contains(
            l,
            ": warning:"@,
        ) && !seq_contains(l, ": note:"@) && !seq_contains(l, "|"@) && !seq_contains(l, "^"@)
            ==> line_style(l) is None,
{
    reveal_strlit(": error:");
    reveal_strlit("error[");
    reveal_strlit(": warning:");
    reveal_strlit(": note:");
    reveal_strlit("|");
    reveal_strlit("^");
    if l.len() == 0 {
        assert(!seq_contains(l, ": error:"@));
        assert(!seq_contains(l, "error["@));
        assert(!seq_contains(l, ": warning:"@));
        assert(!seq_contains(l, ": note:"@));
        assert(!seq_contains(l, "|"@));
        assert(!seq_contains(l, "^"@));
    }
}

/// The actions of a run hold a formatting exactly when `--fmt` is given, a build
/// exactly when `-p` is, a run exactly when `-o` is, and a check exactly when `-c`
/// is or no action flag is; formatting comes first and running last.
pub proof fn law_action_order(args: Args, is_dir: bool)
    ensures
        actions_spec(args, is_dir).contains(Action::Format) <==> args.fmt,
        actions_spec(args, is_dir).contains(Action::Proceed) <==> args.proceed,
        actions_spec(args, is_dir).contains(Action::Output) <==> args.output,
        actions_spec(args, is_dir).contains(if is_dir {
            Action::CheckDir
        } else {
            Action::CheckFile
        }) <==> (args.check || !any_action(args)),
        args.fmt ==> actions_spec(args, is_dir)[0] == Action::Format,
        args.output ==> actions_spec(args, is_dir).last() == Action::Output,
{
    let a = actions_spec(args, is_dir);
    let c = if is_dir {
        Action::CheckDir
    } else {
        Action::CheckFile
    };
    let f = if args.fmt { seq![Action::Format] } else { Seq::<Action>::empty() };
    let k = if args.check || !any_action(args) { seq![c] } else { Seq::<Action>::empty() };
    let p = if args.proceed { seq![Action::Proceed] } else { Seq::<Action>::empty() };
    let o = if args.output { seq![Action::Output] } else { Seq::<Action>::empty() };
    assert(a =~= f + k + p + o);
    assert(a.contains(Action::Format) ==> args.fmt) by {
        if a.contains(Action::Format) {
            let i = choose|i: int| 0 <= i < a.len() && a[i] == Action::Format;
            if !args.fmt {
                assert(false);
            }
        }
    }
    if args.fmt {
        assert(a[0] == Action::Format);
    }
    assert(a.contains(Action::Proceed) ==> args.proceed) by {
        if a.contains(Action::Proceed) {
            let i = choose|i: int| 0 <= i < a.len() && a[i] == Action::Proceed;
        }
    }
    if args.proceed {
        assert(a[(f.len() + k.len()) as int] == Action::Proceed);
    }
    assert(a.contains(Action::Output) ==> args.output) by {
        if a.contains(Action::Output) {
            let i = choose|i: int| 0 <= i < a.len() && a[i] == Action::Output;
        }
    }
    if args.output {
        assert(a[a.len() - 1] == Action::Output);
    }
    assert(a.contains(c) ==> (args.check || !any_action(args))) by {
        if a.contains(c) {
            let i = choose|i: int| 0 <= i < a.len() && a[i] == c;
        }
    }
    if args.check || !any_action(args) {
        assert(a[f.len() as int] == c);
    }
}

/// The `-I` flag of an include directory that exists.
pub open spec fn include_flag(p: PathProbe) -> Option<Seq<char>> {
    if p.exists {
        Some("-I"@ + p.path@)
    } else {
        None
    }
}

proof fn lemma_include_flags(includes: Seq<PathProbe>)
    ensures
        include_flags(includes) == includes.filter_map(|p: PathProbe| include_flag(p)),
    decreases includes.len(),
{
    if includes.len() > 0 {
        lemma_include_flags(includes.drop_last());
    }
}

/// A snippet is compiled with the extra arguments first, then an `-I` flag for
/// each include directory that exists (in order, and for no other), then the
/// source, `-o` and the binary; a compiler that cannot be spawned is reported as
/// "<compiler> not found in PATH", and a failed compile stops the run.
pub proof fn law_compile_command(
    compiler: Seq<char>,
    extra: Seq<Seq<char>>,
    includes: Seq<PathProbe>,
    src: Seq<char>,
    bin: Seq<char>,
)
    ensures
        compile_command_spec(compiler, extra, includes, src, bin) == (CommandView {
            program: compiler,
            args: extra + includes.filter_map(|p: PathProbe| include_flag(p)) + seq![
                src,
                "-o"@,
                bin,
            ],
            cwd: None,
            context: Some(compiler + " not found in PATH"@),
            stop_on_failure: true,
        }),
{
    lemma_include_flags(includes);
}

/// The binary of a snippet is `keen_exec` in the temporary directory.
pub proof fn law_binary_path(tmp: Seq<char>)
    requires
        tmp.len() > 0,
        tmp.last() != '/',
    ensures
        binary_path_spec(tmp) == tmp + "/keen_exec"@,
{
    reveal_strlit("keen_exec");
    reveal_strlit("/keen_exec");
    assert(tmp + seq!['/'] + "keen_exec"@ =~= tmp + "/keen_exec"@);
}

/// The install directory is `.local/bin` under the home directory.
pub proof fn law_install_dir(home: Seq<char>)
    requires
        home.len() > 0,
        home.last() != '/',
    ensures
        local_bin_spec(home) == home + "/.local/bin"@,
{
    reveal_strlit(".local/bin");
    reveal_strlit("/.local/bin");
    assert(home + seq!['/'] + ".local/bin"@ =~= home + "/.local/bin"@);
}

/// Installing advises only where the install directory does not occur in
/// `$PATH`, and then with the hint for the shell.
pub proof fn law_path_advice(path_env: Seq<char>, dir: Seq<char>, shell: Seq<char>)
    ensures
        path_advice_spec(path_env, dir, shell) is None <==> seq_contains(path_env, dir),
        !seq_contains(path_env, dir) ==> path_advice_spec(path_env, dir, shell) == Some(
            shell_hint_spec(shell, dir),
        ),
{
}

/// A JSON check passes exactly when the parser accepts the text, and a failure
/// carries the parser's error unchanged.
pub proof fn law_json_outcome(e: (usize, usize, Seq<char>))
    ensures
        json_outcome_spec(None).ok,
        json_outcome_spec(None).message == "valid JSON"@,
        json_outcome_spec(None).json_error is None,
        !json_outcome_spec(Some(e)).ok,
        json_outcome_spec(Some(e)).json_error == Some(e),
        json_outcome_spec(Some(e)).diagnostics.len() == 0,
{
}

/// A plan ends with the status of its last command, ends failed at a failing
/// command that stops it, and otherwise goes on.
pub proof fn law_plan_flow(stop: bool, success: bool)
    ensures
        flow_after_spec(stop, success, true) == Flow::Finish(success),
        flow_after_spec(true, false, false) == Flow::Finish(false),
        flow_after_spec(false, success, false) == Flow::Continue,
        flow_after_spec(stop, true, false) == Flow::Continue,
{
}

/// A run succeeds exactly when none of its results is a failure.
pub proof fn law_overall_success(results: Seq<bool>)
    ensures
        all_succeeded(results) <==> !results.contains(false),
{
    if !all_succeeded(results) {
        let i = choose|i: int| 0 <= i < results.len() && !results[i];
        assert(results[i] == false);
    }
}

/// The include directories looked for beside a source are `include` in its
/// parent directory and then `include` in the grandparent, where these exist as
/// paths.
pub proof fn law_include_candidates(src: Seq<char>, p: Seq<char>, g: Seq<char>)
    ensures
        path_parent_of(src) is None ==> include_candidates_spec(src) == Seq::<Seq<char>>::empty(),
        path_parent_of(src) == Some(p) && path_parent_of(p) is None ==> include_candidates_spec(src)
            == seq![path_joined(p, "include"@)],
        path_parent_of(src) == Some(p) && path_parent_of(p) == Some(g) ==> include_candidates_spec(
            src,
        ) == seq![path_joined(p, "include"@), path_joined(g, "include"@)],
{
}

} // verus!

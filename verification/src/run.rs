//! Running and building: what runs a single file, how a compiled snippet is
//! compiled, and the commands that run or build a whole project.
use vstd::prelude::*;
use crate::command::{Command, CommandView, Step, StepView, push_all, steps_view, strings};
use crate::paths::{DirProbe, path_join, path_joined, path_parent, path_parent_of};
use crate::text::str_equal;

verus! {

/// Whether the file is run as a project (else as a single file): `-P` forces it,
/// a detected root implies it.
pub open spec fn runs_as_project(project_mode: bool, root: Option<DirProbe>) -> bool {
    project_mode || root is Some
}

/// Whether a file is run as a project. `-P` forces it even where no root is
/// detected; the project plan then has no root to run in.
pub fn run_as_project(project_mode: bool, root: &Option<DirProbe>) -> (res: bool)
    ensures
        res == runs_as_project(project_mode, *root),
{
    project_mode || root.is_some()
}

/// How a single file is run.
#[derive(Debug)]
pub enum SnippetPlan {
    /// Compile it with `compiler` into a temporary binary and run that.
    Compile(String),
    /// Run it with an interpreter or toolchain command.
    Run(Command),
    /// Print its contents.
    PrintFile,
    /// No runner is known for the extension.
    Unsupported,
}

/// The abstract value of a `SnippetPlan`.
pub enum SnippetPlanView {
    Compile(Seq<char>),
    Run(CommandView),
    PrintFile,
    Unsupported,
}

impl View for SnippetPlan {
    type V = SnippetPlanView;

    open spec fn view(&self) -> SnippetPlanView {
        match self {
            SnippetPlan::Compile(c) => SnippetPlanView::Compile(c@),
            SnippetPlan::Run(c) => SnippetPlanView::Run(c@),
            SnippetPlan::PrintFile => SnippetPlanView::PrintFile,
            SnippetPlan::Unsupported => SnippetPlanView::Unsupported,
        }
    }
}

/// C and C++ snippets are compiled with clang where `clang --version` can be
/// spawned; only for them is that probed.
pub open spec fn needs_clang_probe_spec(ext: Seq<char>) -> bool {
    ext == "c"@ || ext == "cpp"@
}

/// Whether running a snippet with this extension first probes for clang.
pub fn needs_clang_probe(ext: &str) -> (res: bool)
    ensures
        res == needs_clang_probe_spec(ext@),
{
    str_equal(ext, "c") || str_equal(ext, "cpp")
}

/// A command that runs `program` on the file with the user's arguments after it.
pub open spec fn interpreter(program: Seq<char>, path: Seq<char>, args: Seq<Seq<char>>, context: Seq<
    char,
>) -> CommandView {
    CommandView {
        program,
        args: seq![path] + args,
        cwd: None,
        context: Some(context),
        stop_on_failure: false,
    }
}

/// How a single file is run, by its extension; `clang_ok` tells whether clang
/// could be spawned (probed for C and C++ only).
pub open spec fn snippet_plan_spec(
    ext: Seq<char>,
    path: Seq<char>,
    args: Seq<Seq<char>>,
    clang_ok: bool,
) -> SnippetPlanView {
    if ext == "c"@ || ext == "cpp"@ {
        SnippetPlanView::Compile(
            if clang_ok {
                "clang"@
            } else if ext == "cpp"@ {
                "g++"@
            } else {
                "gcc"@
            },
        )
    } else if ext == "go"@ {
        SnippetPlanView::Run(
            CommandView {
                program: "go"@,
                args: seq!["run"@, path] + args,
                cwd: None,
                context: Some("go not found in PATH"@),
                stop_on_failure: false,
            },
        )
    } else if ext == "rs"@ {
        SnippetPlanView::Compile("rustc"@)
    } else if ext == "js"@ || ext == "mjs"@ {
        SnippetPlanView::Run(interpreter("node"@, path, args, "node not found in PATH"@))
    } else if ext == "ts"@ || ext == "tsx"@ {
        SnippetPlanView::Run(
            interpreter(
                "ts-node"@,
                path,
                args,
                "ts-node not found in PATH. install it globally with npm."@,
            ),
        )
    } else if ext == "py"@ {
        SnippetPlanView::Run(interpreter("python3"@, path, args, "python3 not found in PATH"@))
    } else if ext == "json"@ {
        SnippetPlanView::PrintFile
    } else {
        SnippetPlanView::Unsupported
    }
}

fn interpreter_command(program: &str, path: &str, args: &Vec<String>, context: &str) -> (res:
    Command)
    ensures
        res@ == interpreter(program@, path@, args.deep_view(), context@),
{
    let mut all = strings(&[path]);
    assert(all.deep_view() =~= seq![path@]);
    push_all(&mut all, args);
    Command::new(program, all, None, Some(context), false)
}

/// How the single file `path` with extension `ext` is run, with the user's
/// arguments `args`.
pub fn snippet_plan(ext: &str, path: &str, args: &Vec<String>, clang_ok: bool) -> (res:
    SnippetPlan)
    ensures
        res@ == snippet_plan_spec(ext@, path@, args.deep_view(), clang_ok),
{
    if str_equal(ext, "c") || str_equal(ext, "cpp") {
        let compiler = if clang_ok {
            "clang"
        } else if str_equal(ext, "cpp") {
            "g++"
        } else {
            "gcc"
        };
        SnippetPlan::Compile(String::from_str(compiler))
    } else if str_equal(ext, "go") {
        let mut all = strings(&["run", path]);
        assert(all.deep_view() =~= seq!["run"@, path@]);
        push_all(&mut all, args);
        SnippetPlan::Run(Command::new("go", all, None, Some("go not found in PATH"), false))
    } else if str_equal(ext, "rs") {
        SnippetPlan::Compile(String::from_str("rustc"))
    } else if str_equal(ext, "js") || str_equal(ext, "mjs") {
        SnippetPlan::Run(interpreter_command("node", path, args, "node not found in PATH"))
    } else if str_equal(ext, "ts") || str_equal(ext, "tsx") {
        SnippetPlan::Run(
            interpreter_command(
                "ts-node",
                path,
                args,
                "ts-node not found in PATH. install it globally with npm.",
            ),
        )
    } else if str_equal(ext, "py") {
        SnippetPlan::Run(interpreter_command("python3", path, args, "python3 not found in PATH"))
    } else if str_equal(ext, "json") {
        SnippetPlan::PrintFile
    } else {
        SnippetPlan::Unsupported
    }
}

/// The `include` directories looked for beside a compiled source: in its parent
/// directory and in the parent of that, where those exist as paths.
pub open spec fn include_candidates_spec(src: Seq<char>) -> Seq<Seq<char>> {
    match path_parent_of(src) {
        None => seq![],
        Some(p) => seq![path_joined(p, "include"@)] + match path_parent_of(p) {
            None => seq![],
            Some(g) => seq![path_joined(g, "include"@)],
        },
    }
}

/// The `include` directories to look for beside the source file `src`, nearest
/// first.
pub fn include_candidates(src: &str) -> (res: Vec<String>)
    ensures
        res.deep_view() == include_candidates_spec(src@),
{
    let mut res: Vec<String> = Vec::new();
    match path_parent(src) {
        None => {
            assert(res.deep_view() =~= include_candidates_spec(src@));
        },
        Some(p) => {
            res.push(path_join(p.as_str(), "include"));
            match path_parent(p.as_str()) {
                None => {},
                Some(g) => {
                    res.push(path_join(g.as_str(), "include"));
                },
            }
            assert(res.deep_view() =~= include_candidates_spec(src@));
        },
    }
    res
}

/// A path and whether something exists there.
#[derive(Debug)]
pub struct PathProbe {
    pub path: String,
    pub exists: bool,
}

/// The `-I` flags for the candidates that exist, in order.
pub open spec fn include_flags(includes: Seq<PathProbe>) -> Seq<Seq<char>>
    decreases includes.len(),
{
    if includes.len() == 0 {
        seq![]
    } else {
        let front = include_flags(includes.drop_last());
        if includes.last().exists {
            front.push("-I"@ + includes.last().path@)
        } else {
            front
        }
    }
}

/// The compiler command for a snippet: the extra arguments, an `-I` flag for each
/// `include` directory that exists, then the source and `-o` with the binary. A
/// failed compile stops the run.
pub open spec fn compile_command_spec(
    compiler: Seq<char>,
    extra: Seq<Seq<char>>,
    includes: Seq<PathProbe>,
    src: Seq<char>,
    bin: Seq<char>,
) -> CommandView {
    CommandView {
        program: compiler,
        args: extra + include_flags(includes) + seq![src, "-o"@, bin],
        cwd: None,
        context: Some(compiler + " not found in PATH"@),
        stop_on_failure: true,
    }
}

/// The command that compiles `src` into `bin` with `compiler`.
pub fn compile_command(
    compiler: &str,
    extra: &Vec<String>,
    includes: &Vec<PathProbe>,
    src: &str,
    bin: &str,
) -> (res: Command)
    ensures
        res@ == compile_command_spec(compiler@, extra.deep_view(), includes@, src@, bin@),
{
    let mut args: Vec<String> = Vec::new();
    push_all(&mut args, extra);
    assert(args.deep_view() =~= extra.deep_view());
    let n = includes.len();
    for i in 0..n
        invariant
            n == includes@.len(),
            args.deep_view() == extra.deep_view() + include_flags(includes@.take(i as int)),
    {
        assert(includes@.take(i + 1).drop_last() =~= includes@.take(i as int));
        if includes[i].exists {
            let flag = String::from_str("-I").concat(includes[i].path.as_str());
            let ghost before = args.deep_view();
            args.push(flag);
            assert(args.deep_view() =~= before.push(flag@));
        }
    }
    assert(includes@.take(n as int) =~= includes@);
    let tail = strings(&[src, "-o", bin]);
    assert(tail.deep_view() =~= seq![src@, "-o"@, bin@]);
    push_all(&mut args, &tail);
    let context = String::from_str(compiler).concat(" not found in PATH");
    Command {
        program: String::from_str(compiler),
        args,
        cwd: None,
        context: Some(context),
        stop_on_failure: true,
    }
}

/// The path of the compiled binary inside the temporary directory.
pub open spec fn binary_path_spec(tmp_dir: Seq<char>) -> Seq<char> {
    path_joined(tmp_dir, "keen_exec"@)
}

/// The path of the compiled binary inside the temporary directory `tmp_dir`.
pub fn binary_path(tmp_dir: &str) -> (res: String)
    ensures
        res@ == binary_path_spec(tmp_dir@),
{
    path_join(tmp_dir, "keen_exec")
}

/// Why a compiled snippet cannot be run.
#[derive(Clone, Copy, Debug, PartialEq, Eq, Structural)]
pub enum CompileFailure {
    /// The compiler exited unsuccessfully.
    CompileFailed,
    /// The compiler succeeded but left no binary.
    BinaryMissing,
}

/// The message of a compile failure.
pub open spec fn compile_failure_message(f: CompileFailure) -> Seq<char> {
    match f {
        CompileFailure::CompileFailed => "compile failed"@,
        CompileFailure::BinaryMissing => "binary missing after compile"@,
    }
}

impl CompileFailure {
    /// The message of the failure.
    pub fn message(&self) -> (res: String)
        ensures
            res@ == compile_failure_message(*self),
    {
        match self {
            CompileFailure::CompileFailed => String::from_str("compile failed"),
            CompileFailure::BinaryMissing => String::from_str("binary missing after compile"),
        }
    }
}

/// Whether a compiled snippet can be run: the compiler succeeded and the binary
/// is there.
pub open spec fn compile_verdict_spec(compiled: bool, binary_exists: bool) -> Result<
    (),
    CompileFailure,
> {
    if !compiled {
        Err(CompileFailure::CompileFailed)
    } else if !binary_exists {
        Err(CompileFailure::BinaryMissing)
    } else {
        Ok(())
    }
}

/// Whether the compiled snippet can be run, from the compiler's status and
/// whether the binary exists.
pub fn compile_verdict(compiled: bool, binary_exists: bool) -> (res: Result<(), CompileFailure>)
    ensures
        res == compile_verdict_spec(compiled, binary_exists),
{
    if !compiled {
        Err(CompileFailure::CompileFailed)
    } else if !binary_exists {
        Err(CompileFailure::BinaryMissing)
    } else {
        Ok(())
    }
}

/// The command that runs the compiled binary with the user's arguments.
pub open spec fn binary_command_spec(bin: Seq<char>, args: Seq<Seq<char>>) -> CommandView {
    CommandView {
        program: bin,
        args,
        cwd: None,
        context: Some("failed to execute the compiled binary"@),
        stop_on_failure: false,
    }
}

/// The command that runs the compiled binary `bin` with the arguments `args`.
pub fn binary_command(bin: &str, args: &Vec<String>) -> (res: Command)
    ensures
        res@ == binary_command_spec(bin@, args.deep_view()),
{
    let mut all: Vec<String> = Vec::new();
    push_all(&mut all, args);
    assert(all.deep_view() =~= args.deep_view());
    Command::new(bin, all, None, Some("failed to execute the compiled binary"), false)
}

/// A command run in a directory.
pub open spec fn in_dir(
    program: Seq<char>,
    args: Seq<Seq<char>>,
    dir: Seq<char>,
    context: Option<Seq<char>>,
    stop_on_failure: bool,
) -> StepView {
    StepView::Run(CommandView { program, args, cwd: Some(dir), context, stop_on_failure })
}

/// The CMake build of a C or C++ project: create `build` (ignoring failure), run
/// `cmake ..` and then `make` in it. Whether a failed `cmake` stops the build is
/// `cmake_stops`.
pub open spec fn cmake_steps(root: Seq<char>, cmake_stops: bool) -> Seq<StepView> {
    let build = path_joined(root, "build"@);
    seq![
        StepView::CreateDir(build),
        in_dir("cmake"@, seq![".."@], build, Some("cmake not found in PATH"@), cmake_stops),
        in_dir("make"@, seq![], build, Some("make not found in PATH"@), false),
    ]
}

/// The commands that run a project, or `None` where no runner applies and the
/// file is run on its own instead. Rust, Node and Go projects run with their
/// toolchain in the root; a Python file runs with `python3` whatever the root; a C
/// or C++ root is built with CMake, or make, or run with cargo, by the marker it
/// holds.
pub open spec fn project_plan_spec(
    ext: Seq<char>,
    path: Seq<char>,
    root: Option<DirProbe>,
    args: Seq<Seq<char>>,
) -> Option<Seq<StepView>> {
    if ext == "rs"@ && root is Some {
        Some(seq![in_dir("cargo"@, seq!["run"@, "--"@] + args, root->0.dir@, None, false)])
    } else if (ext == "js"@ || ext == "ts"@ || ext == "jsx"@ || ext == "tsx"@) && root is Some {
        Some(seq![in_dir("npm"@, seq!["start"@, "--"@] + args, root->0.dir@, None, false)])
    } else if ext == "go"@ && root is Some {
        Some(seq![in_dir("go"@, seq!["run"@, "."@] + args, root->0.dir@, None, false)])
    } else if ext == "py"@ {
        Some(
            seq![
                StepView::Run(
                    CommandView {
                        program: "python3"@,
                        args: seq![path] + args,
                        cwd: None,
                        context: None,
                        stop_on_failure: false,
                    },
                ),
            ],
        )
    } else if (ext == "c"@ || ext == "cpp"@ || ext == "h"@ || ext == "hpp"@) && root is Some {
        let r = root->0;
        if r.cmake_lists {
            Some(cmake_steps(r.dir@, true))
        } else if r.makefile {
            Some(seq![in_dir("make"@, seq![], r.dir@, Some("make not found in PATH"@), false)])
        } else if r.cargo_toml {
            Some(
                seq![
                    in_dir(
                        "cargo"@,
                        seq!["run"@, "--"@] + args,
                        r.dir@,
                        Some("cargo not found in PATH"@),
                        false,
                    ),
                ],
            )
        } else {
            None
        }
    } else {
        None
    }
}

fn run_in(
    program: &str,
    args: Vec<String>,
    dir: &String,
    context: Option<&str>,
    stop_on_failure: bool,
) -> (res: Step)
    ensures
        res@ == in_dir(
            program@,
            args.deep_view(),
            dir@,
            match context {
                Some(c) => Some(c@),
                None => None,
            },
            stop_on_failure,
        ),
{
    Step::Run(Command::new(program, args, Some(dir.clone()), context, stop_on_failure))
}

fn with_args(fixed: &[&str], args: &Vec<String>) -> (res: Vec<String>)
    ensures
        res.deep_view() == fixed@.map_values(|s: &str| s@) + args.deep_view(),
{
    let mut all = strings(fixed);
    push_all(&mut all, args);
    all
}

fn single(step: Step) -> (res: Vec<Step>)
    ensures
        steps_view(res@) == seq![step@],
{
    let mut v: Vec<Step> = Vec::new();
    v.push(step);
    assert(steps_view(v@) =~= seq![step@]);
    v
}

fn cmake_plan(root: &String, cmake_stops: bool) -> (res: Vec<Step>)
    ensures
        steps_view(res@) == cmake_steps(root@, cmake_stops),
{
    let build = path_join(root.as_str(), "build");
    let mut v: Vec<Step> = Vec::new();
    v.push(Step::CreateDir(build.clone()));
    let dots = strings(&[".."]);
    assert(dots.deep_view() =~= seq![".."@]);
    v.push(run_in("cmake", dots, &build, Some("cmake not found in PATH"), cmake_stops));
    let none: Vec<String> = Vec::new();
    assert(none.deep_view() =~= Seq::<Seq<char>>::empty());
    v.push(run_in("make", none, &build, Some("make not found in PATH"), false));
    assert(steps_view(v@) =~= cmake_steps(root@, cmake_stops));
    v
}

/// The commands that run the project around the file `path` (extension `ext`,
/// detected root `root`) with the user's arguments, or `None` where the file is
/// run on its own instead.
pub fn project_plan(ext: &str, path: &str, root: &Option<DirProbe>, args: &Vec<String>) -> (res:
    Option<Vec<Step>>)
    ensures
        match res {
            Some(steps) => project_plan_spec(ext@, path@, *root, args.deep_view()) == Some(
                steps_view(steps@),
            ),
            None => project_plan_spec(ext@, path@, *root, args.deep_view()) is None,
        },
{
    let is_rs = str_equal(ext, "rs");
    let is_node = str_equal(ext, "js") || str_equal(ext, "ts") || str_equal(ext, "jsx")
        || str_equal(ext, "tsx");
    let is_go = str_equal(ext, "go");
    let is_py = str_equal(ext, "py");
    let is_c = str_equal(ext, "c") || str_equal(ext, "cpp") || str_equal(ext, "h") || str_equal(
        ext,
        "hpp",
    );
    if is_rs && root.is_some() {
        let r = root.as_ref().unwrap();
        let all = with_args(&["run", "--"], args);
        assert(all.deep_view() =~= seq!["run"@, "--"@] + args.deep_view());
        Some(single(run_in("cargo", all, &r.dir, None, false)))
    } else if is_node && root.is_some() {
        let r = root.as_ref().unwrap();
        let all = with_args(&["start", "--"], args);
        assert(all.deep_view() =~= seq!["start"@, "--"@] + args.deep_view());
        Some(single(run_in("npm", all, &r.dir, None, false)))
    } else if is_go && root.is_some() {
        let r = root.as_ref().unwrap();
        let all = with_args(&["run", "."], args);
        assert(all.deep_view() =~= seq!["run"@, "."@] + args.deep_view());
        Some(single(run_in("go", all, &r.dir, None, false)))
    } else if is_py {
        let all = with_args(&[path], args);
        assert(all.deep_view() =~= seq![path@] + args.deep_view());
        Some(single(Step::Run(Command::new("python3", all, None, None, false))))
    } else if is_c && root.is_some() {
        let r = root.as_ref().unwrap();
        if r.cmake_lists {
            Some(cmake_plan(&r.dir, true))
        } else if r.makefile {
            let none: Vec<String> = Vec::new();
            assert(none.deep_view() =~= Seq::<Seq<char>>::empty());
            Some(single(run_in("make", none, &r.dir, Some("make not found in PATH"), false)))
        } else if r.cargo_toml {
            let all = with_args(&["run", "--"], args);
            assert(all.deep_view() =~= seq!["run"@, "--"@] + args.deep_view());
            Some(single(run_in("cargo", all, &r.dir, Some("cargo not found in PATH"), false)))
        } else {
            None
        }
    } else {
        None
    }
}

/// The commands that build the project around a file, or `None` where no build
/// is known (no root, or an extension without a builder). Unlike a run, a failed
/// `cmake` does not stop the build: `make` runs after it regardless.
pub open spec fn proceed_plan_spec(ext: Seq<char>, root: Option<DirProbe>) -> Option<
    Seq<StepView>,
> {
    match root {
        None => None,
        Some(r) => if ext == "rs"@ {
            Some(
                seq![
                    in_dir(
                        "cargo"@,
                        seq!["build"@],
                        r.dir@,
                        Some("cargo not found in PATH"@),
                        false,
                    ),
                ],
            )
        } else if ext == "go"@ {
            Some(
                seq![
                    in_dir(
                        "go"@,
                        seq!["build"@, "."@],
                        r.dir@,
                        Some("go not found in PATH"@),
                        false,
                    ),
                ],
            )
        } else if ext == "c"@ || ext == "cpp"@ {
            if r.cmake_lists {
                Some(cmake_steps(r.dir@, false))
            } else if r.makefile {
                Some(seq![in_dir("make"@, seq![], r.dir@, Some("make not found in PATH"@), false)])
            } else if r.cargo_toml {
                Some(
                    seq![
                        in_dir(
                            "cargo"@,
                            seq!["build"@],
                            r.dir@,
                            Some("cargo not found in PATH"@),
                            false,
                        ),
                    ],
                )
            } else {
                None
            }
        } else {
            None
        },
    }
}

/// The commands that build the project around a file with extension `ext` whose
/// detected root is `root`, or `None` where no build is known.
pub fn proceed_plan(ext: &str, root: &Option<DirProbe>) -> (res: Option<Vec<Step>>)
    ensures
        match res {
            Some(steps) => proceed_plan_spec(ext@, *root) == Some(steps_view(steps@)),
            None => proceed_plan_spec(ext@, *root) is None,
        },
{
    match root {
        None => None,
        Some(r) => {
            if str_equal(ext, "rs") {
                let all = strings(&["build"]);
                assert(all.deep_view() =~= seq!["build"@]);
                Some(single(run_in("cargo", all, &r.dir, Some("cargo not found in PATH"), false)))
            } else if str_equal(ext, "go") {
                let all = strings(&["build", "."]);
                assert(all.deep_view() =~= seq!["build"@, "."@]);
                Some(single(run_in("go", all, &r.dir, Some("go not found in PATH"), false)))
            } else if str_equal(ext, "c") || str_equal(ext, "cpp") {
                if r.cmake_lists {
                    Some(cmake_plan(&r.dir, false))
                } else if r.makefile {
                    let none: Vec<String> = Vec::new();
                    assert(none.deep_view() =~= Seq::<Seq<char>>::empty());
                    Some(
                        single(run_in("make", none, &r.dir, Some("make not found in PATH"), false)),
                    )
                } else if r.cargo_toml {
                    let all = strings(&["build"]);
                    assert(all.deep_view() =~= seq!["build"@]);
                    Some(
                        single(
                            run_in("cargo", all, &r.dir, Some("cargo not found in PATH"), false),
                        ),
                    )
                } else {
                    None
                }
            } else {
                None
            }
        },
    }
}

} // verus!

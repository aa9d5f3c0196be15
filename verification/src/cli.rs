//! The command line: its options, what a run does with them, the formatter a
//! file gets, and the templates a new project starts from.
use vstd::prelude::*;
use crate::command::{Command, CommandView, strings};
use crate::text::{str_equal, to_lowercase, trim, trim_spec, unicode_lowercase};

verus! {

/// The options of a run.
#[derive(Debug)]
pub struct Args {
    /// The file (or directory) to check or run.
    pub file: Option<String>,
    /// `-c`: check syntax.
    pub check: bool,
    /// `-o`: run.
    pub output: bool,
    /// `-p`: build.
    pub proceed: bool,
    /// `-P`: run as a project even where no root is detected.
    pub project: bool,
    /// `--install`: install the binary into `~/.local/bin`.
    pub install: bool,
    /// `-w`: re-run on every change.
    pub watch: bool,
    /// `--fmt`: format the file.
    pub fmt: bool,
    /// `--init`: write a hello-world file from a template.
    pub init: bool,
    /// Arguments after `--`, handed to the program that is run.
    pub trailing: Vec<String>,
}

/// What a run of the tool does first.
#[derive(Clone, Copy, Debug, PartialEq, Eq, Structural)]
pub enum MainStep {
    /// Install the binary.
    Install,
    /// Write a template.
    Init,
    /// No file was given: say how to use the tool, and succeed.
    NoFile,
    /// The file does not exist: report it, and fail.
    FileNotFound,
    /// Check the shell integration, then re-run on every change.
    Watch,
    /// Check the shell integration, then run the actions once.
    Run,
}

/// The first step of a run: `--install` and `--init` come before anything else;
/// a file must be given and exist; then watching or a single run.
pub open spec fn main_step_spec(args: Args, file_exists: bool) -> MainStep {
    if args.install {
        MainStep::Install
    } else if args.init {
        MainStep::Init
    } else if args.file is None {
        MainStep::NoFile
    } else if !file_exists {
        MainStep::FileNotFound
    } else if args.watch {
        MainStep::Watch
    } else {
        MainStep::Run
    }
}

/// The first step of a run with options `args`, where `file_exists` tells
/// whether the given file exists.
pub fn main_step(args: &Args, file_exists: bool) -> (res: MainStep)
    ensures
        res == main_step_spec(*args, file_exists),
{
    if args.install {
        MainStep::Install
    } else if args.init {
        MainStep::Init
    } else if args.file.is_none() {
        MainStep::NoFile
    } else if !file_exists {
        MainStep::FileNotFound
    } else if args.watch {
        MainStep::Watch
    } else {
        MainStep::Run
    }
}

/// One action of a run.
#[derive(Clone, Copy, Debug, PartialEq, Eq, Structural)]
pub enum Action {
    /// Format the file.
    Format,
    /// Check every file under the directory.
    CheckDir,
    /// Check the file.
    CheckFile,
    /// Build the project.
    Proceed,
    /// Run the file or its project.
    Output,
}

/// The actions of a run and whether it ends with a summary line.
#[derive(Debug)]
pub struct ActionPlan {
    pub actions: Vec<Action>,
    pub show_summary: bool,
}

/// How a check is done: over a directory, or of one file.
pub open spec fn check_action(is_dir: bool) -> Action {
    if is_dir {
        Action::CheckDir
    } else {
        Action::CheckFile
    }
}

/// An action where its flag is set.
pub open spec fn if_set(flag: bool, a: Action) -> Seq<Action> {
    if flag {
        seq![a]
    } else {
        seq![]
    }
}

/// Whether any action flag is set.
pub open spec fn any_action(args: Args) -> bool {
    args.fmt || args.check || args.proceed || args.output
}

/// The actions of a run, in order: format, check, build, run, each where its flag
/// is set; a check where none is.
pub open spec fn actions_spec(args: Args, is_dir: bool) -> Seq<Action> {
    if_set(args.fmt, Action::Format) + if_set(args.check, check_action(is_dir)) + if_set(
        args.proceed,
        Action::Proceed,
    ) + if_set(args.output, Action::Output) + if_set(!any_action(args), check_action(is_dir))
}

/// The actions of a run with options `args` on a file (`is_dir` false) or a
/// directory, and whether a summary line follows them.
pub fn plan_actions(args: &Args, is_dir: bool) -> (res: ActionPlan)
    ensures
        res.actions@ == actions_spec(*args, is_dir),
        res.show_summary == (any_action(*args) || !args.check && !args.output && !args.proceed),
{
    let check = if is_dir {
        Action::CheckDir
    } else {
        Action::CheckFile
    };
    let mut actions: Vec<Action> = Vec::new();
    let mut performed = false;
    if args.fmt {
        actions.push(Action::Format);
        performed = true;
    }
    if args.check {
        actions.push(check);
        performed = true;
    }
    if args.proceed {
        actions.push(Action::Proceed);
        performed = true;
    }
    if args.output {
        actions.push(Action::Output);
        performed = true;
    }
    if !performed {
        actions.push(check);
    }
    assert(actions@ =~= actions_spec(*args, is_dir));
    ActionPlan { actions, show_summary: performed || !args.check && !args.output && !args.proceed }
}

/// A run succeeds when every action (or every checked file) succeeded.
pub open spec fn all_succeeded(results: Seq<bool>) -> bool {
    forall|i: int| 0 <= i < results.len() ==> results[i]
}

/// Whether every result is a success.
pub fn overall_success(results: &Vec<bool>) -> (res: bool)
    ensures
        res == all_succeeded(results@),
{
    let n = results.len();
    for i in 0..n
        invariant
            n == results@.len(),
            forall|k: int| 0 <= k < i ==> results@[k],
    {
        if !results[i] {
            return false;
        }
    }
    true
}

/// The formatter for an extension and the file it formats: `rustfmt`, `gofmt
/// -w`, `clang-format -i` or `prettier --write`; none for other extensions.
pub open spec fn formatter_spec(ext: Seq<char>, path: Seq<char>) -> Option<CommandView> {
    let make = |program: Seq<char>, args: Seq<Seq<char>>|
        CommandView { program, args, cwd: None, context: None, stop_on_failure: false };
    if ext == "rs"@ {
        Some(make("rustfmt"@, seq![path]))
    } else if ext == "go"@ {
        Some(make("gofmt"@, seq!["-w"@, path]))
    } else if ext == "c"@ || ext == "cpp"@ || ext == "h"@ || ext == "hpp"@ {
        Some(make("clang-format"@, seq!["-i"@, path]))
    } else if ext == "js"@ || ext == "ts"@ || ext == "jsx"@ || ext == "tsx"@ {
        Some(make("prettier"@, seq!["--write"@, path]))
    } else {
        None
    }
}

/// The command that formats the file `path` with extension `ext`, if a formatter
/// is known for it.
pub fn formatter_for(ext: &str, path: &str) -> (res: Option<Command>)
    ensures
        match res {
            Some(c) => formatter_spec(ext@, path@) == Some(c@),
            None => formatter_spec(ext@, path@) is None,
        },
{
    if str_equal(ext, "rs") {
        let args = strings(&[path]);
        assert(args.deep_view() =~= seq![path@]);
        Some(Command::new("rustfmt", args, None, None, false))
    } else if str_equal(ext, "go") {
        let args = strings(&["-w", path]);
        assert(args.deep_view() =~= seq!["-w"@, path@]);
        Some(Command::new("gofmt", args, None, None, false))
    } else if str_equal(ext, "c") || str_equal(ext, "cpp") || str_equal(ext, "h") || str_equal(
        ext,
        "hpp",
    ) {
        let args = strings(&["-i", path]);
        assert(args.deep_view() =~= seq!["-i"@, path@]);
        Some(Command::new("clang-format", args, None, None, false))
    } else if str_equal(ext, "js") || str_equal(ext, "ts") || str_equal(ext, "jsx") || str_equal(
        ext,
        "tsx",
    ) {
        let args = strings(&["--write", path]);
        assert(args.deep_view() =~= seq!["--write"@, path@]);
        Some(Command::new("prettier", args, None, None, false))
    } else {
        None
    }
}

/// How a formatting ended: whether it succeeded, and the message shown when the
/// formatter could not be spawned.
#[derive(Debug)]
pub struct FormatOutcome {
    pub ok: bool,
    pub missing: Option<String>,
}

/// A formatter that exited reports its exit status; one that could not be
/// spawned fails the formatting and is reported as not found.
pub open spec fn format_outcome_spec(program: Seq<char>, exited: Option<bool>) -> (bool, Option<
    Seq<char>,
>) {
    match exited {
        Some(success) => (success, None),
        None => (false, Some(program + " not found"@)),
    }
}

/// How formatting with `program` ended: `exited` is its exit status's success,
/// or `None` where it could not be spawned.
pub fn format_outcome(program: &str, exited: Option<bool>) -> (res: FormatOutcome)
    ensures
        (res.ok, match res.missing {
            Some(m) => Some(m@),
            None => None,
        }) == format_outcome_spec(program@, exited),
{
    match exited {
        Some(success) => FormatOutcome { ok: success, missing: None },
        None => FormatOutcome {
            ok: false,
            missing: Some(String::from_str(program).concat(" not found")),
        },
    }
}

/// A file that starts a new project.
#[derive(Debug)]
pub struct Template {
    pub file_name: String,
    pub contents: String,
}

/// The template for a language choice: C, Go or Python where chosen, Rust
/// otherwise.
pub open spec fn template_spec(choice: Seq<char>) -> (Seq<char>, Seq<char>) {
    if choice == "c"@ {
        (
            "main.c"@,
            "#include <stdio.h>\n\nint main() {\n    printf(\"hello world\\n\");\n    return 0;\n}\n"@,
        )
    } else if choice == "go"@ {
        (
            "main.go"@,
            "package main\n\nimport \"fmt\"\n\nfunc main() {\n    fmt.Println(\"hello world\")\n}\n"@,
        )
    } else if choice == "py"@ {
        ("main.py"@, "print(\"hello world\")\n"@)
    } else {
        ("main.rs"@, "fn main() {\n    println!(\"hello world\");\n}\n"@)
    }
}

/// The template for a language choice, already trimmed and lowercased.
pub fn template_for_choice(choice: &str) -> (res: Template)
    ensures
        (res.file_name@, res.contents@) == template_spec(choice@),
{
    let (file_name, contents) = if str_equal(choice, "c") {
        (
            "main.c",
            "#include <stdio.h>\n\nint main() {\n    printf(\"hello world\\n\");\n    return 0;\n}\n",
        )
    } else if str_equal(choice, "go") {
        (
            "main.go",
            "package main\n\nimport \"fmt\"\n\nfunc main() {\n    fmt.Println(\"hello world\")\n}\n",
        )
    } else if str_equal(choice, "py") {
        ("main.py", "print(\"hello world\")\n")
    } else {
        ("main.rs", "fn main() {\n    println!(\"hello world\");\n}\n")
    };
    Template { file_name: String::from_str(file_name), contents: String::from_str(contents) }
}

/// The template for an answer typed at the prompt: the answer trimmed and
/// lowercased picks the language.
pub fn template_for_input(input: &str) -> (res: Template)
    ensures
        (res.file_name@, res.contents@) == template_spec(unicode_lowercase(trim_spec(input@))),
{
    let trimmed = trim(input);
    let choice = to_lowercase(trimmed.as_str());
    template_for_choice(choice.as_str())
}

} // verus!

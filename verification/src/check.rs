//! Syntax checking: which checker a file gets, the command that runs it, and
//! what its outcome reports. JSON is checked in-process with `serde_json`.
use vstd::prelude::*;
use crate::command::{Command, CommandView, strings};
use crate::diagnostics::{LineStyle, StyledLine, parse_compiler_output, styled_lines};
use crate::paths::{DirProbe, Marker, find_root, first_with};
use crate::text::{lines_of, str_equal};

verus! {

/// The checker that a file gets, by its extension.
#[derive(Clone, Copy, Debug, PartialEq, Eq, Structural)]
pub enum Checker {
    /// `json`: parsed in-process.
    Json,
    /// `c`, `cpp`, `h`, `hpp`: `clang -fsyntax-only -Wall`.
    CFamily,
    /// `go`: `go build -o /dev/null`.
    Go,
    /// `rs`: `cargo check` inside a Cargo project, `rustc -Z no-codegen` outside one.
    Rust,
    /// `ts`, `tsx`: `tsc --noEmit`.
    TypeScript,
    /// `py`: `python3 -m py_compile`.
    Python,
}

/// The checker for an extension; a file with any other extension is not checked
/// (and counts as passing).
pub open spec fn checker_spec(ext: Seq<char>) -> Option<Checker> {
    if ext == "json"@ {
        Some(Checker::Json)
    } else if ext == "c"@ || ext == "cpp"@ || ext == "h"@ || ext == "hpp"@ {
        Some(Checker::CFamily)
    } else if ext == "go"@ {
        Some(Checker::Go)
    } else if ext == "rs"@ {
        Some(Checker::Rust)
    } else if ext == "ts"@ || ext == "tsx"@ {
        Some(Checker::TypeScript)
    } else if ext == "py"@ {
        Some(Checker::Python)
    } else {
        None
    }
}

/// The checker for a file with extension `ext`, if it is checked at all.
pub fn checker_for(ext: &str) -> (res: Option<Checker>)
    ensures
        res == checker_spec(ext@),
{
    if str_equal(ext, "json") {
        Some(Checker::Json)
    } else if str_equal(ext, "c") || str_equal(ext, "cpp") || str_equal(ext, "h") || str_equal(
        ext,
        "hpp",
    ) {
        Some(Checker::CFamily)
    } else if str_equal(ext, "go") {
        Some(Checker::Go)
    } else if str_equal(ext, "rs") {
        Some(Checker::Rust)
    } else if str_equal(ext, "ts") || str_equal(ext, "tsx") {
        Some(Checker::TypeScript)
    } else if str_equal(ext, "py") {
        Some(Checker::Python)
    } else {
        None
    }
}

/// The output stream of a checker.
#[derive(Clone, Copy, Debug, PartialEq, Eq, Structural)]
pub enum Stream {
    Stdout,
    Stderr,
}

/// The stream whose diagnostics are shown when a checker fails: `tsc` reports on
/// standard output, the others on standard error.
pub open spec fn report_stream_spec(c: Checker) -> Stream {
    match c {
        Checker::TypeScript => Stream::Stdout,
        _ => Stream::Stderr,
    }
}

/// The stream whose diagnostics are shown when the checker fails.
pub fn report_stream(c: Checker) -> (res: Stream)
    ensures
        res == report_stream_spec(c),
{
    match c {
        Checker::TypeScript => Stream::Stdout,
        _ => Stream::Stderr,
    }
}

/// The message shown when a checker passes.
pub open spec fn success_message_spec(c: Checker) -> Seq<char> {
    match c {
        Checker::Json => "valid JSON"@,
        Checker::CFamily => "C/C++ syntax valid"@,
        Checker::Go => "go syntax valid"@,
        Checker::Rust => "rust syntax valid"@,
        Checker::TypeScript => "ts syntax valid"@,
        Checker::Python => "python syntax valid"@,
    }
}

/// The message shown when the checker passes.
pub fn success_message(c: Checker) -> (res: String)
    ensures
        res@ == success_message_spec(c),
{
    let m = match c {
        Checker::Json => "valid JSON",
        Checker::CFamily => "C/C++ syntax valid",
        Checker::Go => "go syntax valid",
        Checker::Rust => "rust syntax valid",
        Checker::TypeScript => "ts syntax valid",
        Checker::Python => "python syntax valid",
    };
    String::from_str(m)
}

/// A command with no working directory, no spawn-failure message, that does not
/// stop a plan.
pub open spec fn plain_command(program: Seq<char>, args: Seq<Seq<char>>) -> CommandView {
    CommandView { program, args, cwd: None, context: None, stop_on_failure: false }
}

/// The command that checks `path`; for Rust it depends on the nearest directory
/// among `probes` that holds a `Cargo.toml`. JSON is checked without a command.
pub open spec fn checker_command_spec(c: Checker, path: Seq<char>, probes: Seq<DirProbe>) -> Option<
    CommandView,
> {
    match c {
        Checker::Json => None,
        Checker::CFamily => Some(plain_command("clang"@, seq!["-fsyntax-only"@, "-Wall"@, path])),
        Checker::Go => Some(plain_command("go"@, seq!["build"@, "-o"@, "/dev/null"@, path])),
        Checker::Rust => match first_with(probes, Marker::CargoToml) {
            Some(root) => Some(
                CommandView {
                    program: "cargo"@,
                    args: seq!["check"@],
                    cwd: Some(root.dir@),
                    context: None,
                    stop_on_failure: false,
                },
            ),
            None => Some(plain_command("rustc"@, seq!["-Z"@, "no-codegen"@, path])),
        },
        Checker::TypeScript => Some(plain_command("tsc"@, seq!["--noEmit"@, path])),
        Checker::Python => Some(plain_command("python3"@, seq!["-m"@, "py_compile"@, path])),
    }
}

fn plain(program: &str, args: Vec<String>) -> (res: Command)
    ensures
        res@ == plain_command(program@, args.deep_view()),
{
    Command {
        program: String::from_str(program),
        args,
        cwd: None,
        context: None,
        stop_on_failure: false,
    }
}

/// The command that checks the file at `path` with checker `c`, given the probes
/// of its ancestor directories, nearest first; `None` for JSON.
pub fn checker_command(c: Checker, path: &str, probes: &Vec<DirProbe>) -> (res: Option<Command>)
    ensures
        match res {
            Some(cmd) => checker_command_spec(c, path@, probes@) == Some(cmd@),
            None => checker_command_spec(c, path@, probes@) is None,
        },
{
    match c {
        Checker::Json => None,
        Checker::CFamily => {
            let args = strings(&["-fsyntax-only", "-Wall", path]);
            assert(args.deep_view() =~= seq!["-fsyntax-only"@, "-Wall"@, path@]);
            Some(plain("clang", args))
        },
        Checker::Go => {
            let args = strings(&["build", "-o", "/dev/null", path]);
            assert(args.deep_view() =~= seq!["build"@, "-o"@, "/dev/null"@, path@]);
            Some(plain("go", args))
        },
        Checker::Rust => match find_root(probes, Marker::CargoToml) {
            Some(root) => {
                let args = strings(&["check"]);
                assert(args.deep_view() =~= seq!["check"@]);
                Some(
                    Command {
                        program: String::from_str("cargo"),
                        args,
                        cwd: Some(root.dir),
                        context: None,
                        stop_on_failure: false,
                    },
                )
            },
            None => {
                let args = strings(&["-Z", "no-codegen", path]);
                assert(args.deep_view() =~= seq!["-Z"@, "no-codegen"@, path@]);
                Some(plain("rustc", args))
            },
        },
        Checker::TypeScript => {
            let args = strings(&["--noEmit", path]);
            assert(args.deep_view() =~= seq!["--noEmit"@, path@]);
            Some(plain("tsc", args))
        },
        Checker::Python => {
            let args = strings(&["-m", "py_compile", path]);
            assert(args.deep_view() =~= seq!["-m"@, "py_compile"@, path@]);
            Some(plain("python3", args))
        },
    }
}

/// A JSON syntax error: where `serde_json` detected it and what it says.
#[derive(Debug)]
pub struct JsonSyntaxError {
    pub line: usize,
    pub column: usize,
    pub message: String,
}

impl View for JsonSyntaxError {
    type V = (usize, usize, Seq<char>);

    open spec fn view(&self) -> (usize, usize, Seq<char>) {
        (self.line, self.column, self.message@)
    }
}

/// What `serde_json::from_str::<serde_json::Value>` gives for a text: `None` when
/// the text is one JSON value, else the line, column and displayed message of the
/// error.
pub uninterp spec fn json_parse_result(text: Seq<char>) -> Option<(usize, usize, Seq<char>)>;

/// Calls `serde_json::from_str::<serde_json::Value>`, and on an error its `line`,
/// `column` and `Display` to carry it over. Claimed: the outcome is
/// `json_parse_result` of the text.
#[verifier::external_body]
fn parse_json_value(text: &str) -> (res: Result<(), JsonSyntaxError>)
    ensures
        match res {
            Ok(()) => json_parse_result(text@) is None,
            Err(e) => json_parse_result(text@) == Some(e@),
        },
{
    match serde_json::from_str::<serde_json::Value>(text) {
        Ok(_) => Ok(()),
        Err(e) => Err(JsonSyntaxError { line: e.line(), column: e.column(), message: e.to_string() }),
    }
}

/// What a check reports: whether it passed, the message shown when it did, the
/// diagnostics shown when it did not, and, for JSON, the syntax error.
#[derive(Debug)]
pub struct CheckOutcome {
    pub ok: bool,
    pub message: String,
    pub diagnostics: Vec<StyledLine>,
    pub json_error: Option<JsonSyntaxError>,
}

/// The abstract value of a `CheckOutcome`.
pub struct CheckOutcomeView {
    pub ok: bool,
    pub message: Seq<char>,
    pub diagnostics: Seq<(LineStyle, Seq<char>)>,
    pub json_error: Option<(usize, usize, Seq<char>)>,
}

impl View for CheckOutcome {
    type V = CheckOutcomeView;

    open spec fn view(&self) -> CheckOutcomeView {
        CheckOutcomeView {
            ok: self.ok,
            message: self.message@,
            diagnostics: self.diagnostics@.map_values(|l: StyledLine| l@),
            json_error: match self.json_error {
                Some(e) => Some(e@),
                None => None,
            },
        }
    }
}

/// The report of a JSON check from the parser's outcome: valid JSON passes; a
/// syntax error fails the check and is reported.
pub open spec fn json_outcome_spec(parsed: Option<(usize, usize, Seq<char>)>) -> CheckOutcomeView {
    match parsed {
        None => CheckOutcomeView {
            ok: true,
            message: "valid JSON"@,
            diagnostics: seq![],
            json_error: None,
        },
        Some(e) => CheckOutcomeView {
            ok: false,
            message: Seq::empty(),
            diagnostics: seq![],
            json_error: Some(e),
        },
    }
}

/// The report of a JSON check from the parser's outcome.
pub fn json_outcome(parsed: Result<(), JsonSyntaxError>) -> (res: CheckOutcome)
    ensures
        res@ == json_outcome_spec(
            match parsed {
                Ok(()) => None,
                Err(e) => Some(e@),
            },
        ),
{
    match parsed {
        Ok(()) => {
            let res = CheckOutcome {
                ok: true,
                message: success_message(Checker::Json),
                diagnostics: Vec::new(),
                json_error: None,
            };
            assert(res@.diagnostics =~= seq![]);
            res
        },
        Err(e) => {
            let res = CheckOutcome {
                ok: false,
                message: String::new(),
                diagnostics: Vec::new(),
                json_error: Some(e),
            };
            assert(res@.diagnostics =~= seq![]);
            res
        },
    }
}

/// Checks that `content` is one JSON value.
pub fn check_json(content: &str) -> (res: CheckOutcome)
    ensures
        res@ == json_outcome_spec(json_parse_result(content@)),
{
    json_outcome(parse_json_value(content))
}

/// The report of an external checker from how its process ended: on success the
/// checker's message; on failure the shown lines of the stream it reports on.
pub open spec fn external_outcome_spec(
    c: Checker,
    success: bool,
    stdout: Seq<char>,
    stderr: Seq<char>,
) -> CheckOutcomeView {
    if success {
        CheckOutcomeView {
            ok: true,
            message: success_message_spec(c),
            diagnostics: seq![],
            json_error: None,
        }
    } else {
        CheckOutcomeView {
            ok: false,
            message: Seq::empty(),
            diagnostics: styled_lines(
                lines_of(
                    match report_stream_spec(c) {
                        Stream::Stdout => stdout,
                        Stream::Stderr => stderr,
                    },
                ),
            ),
            json_error: None,
        }
    }
}

/// The report of an external checker from its exit status and its output.
pub fn external_outcome(c: Checker, success: bool, stdout: &str, stderr: &str) -> (res:
    CheckOutcome)
    ensures
        res@ == external_outcome_spec(c, success, stdout@, stderr@),
{
    if success {
        let res = CheckOutcome {
            ok: true,
            message: success_message(c),
            diagnostics: Vec::new(),
            json_error: None,
        };
        assert(res@.diagnostics =~= seq![]);
        res
    } else {
        let shown = match report_stream(c) {
            Stream::Stdout => parse_compiler_output(stdout),
            Stream::Stderr => parse_compiler_output(stderr),
        };
        CheckOutcome { ok: false, message: String::new(), diagnostics: shown, json_error: None }
    }
}

} // verus!

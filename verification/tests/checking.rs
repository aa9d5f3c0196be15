use keen::check::{check_json, checker_command, checker_for, external_outcome, report_stream, success_message, Checker, Stream};
use keen::diagnostics::LineStyle;
use keen::paths::DirProbe;

fn probe(dir: &str, cargo: bool) -> DirProbe {
    DirProbe {
        dir: dir.to_string(),
        cargo_toml: cargo,
        package_json: false,
        go_mod: false,
        requirements_txt: false,
        cmake_lists: false,
        makefile: false,
    }
}

#[test]
fn checkers_by_extension() {
    assert_eq!(checker_for("json"), Some(Checker::Json));
    for e in ["c", "cpp", "h", "hpp"] {
        assert_eq!(checker_for(e), Some(Checker::CFamily));
    }
    assert_eq!(checker_for("go"), Some(Checker::Go));
    assert_eq!(checker_for("rs"), Some(Checker::Rust));
    assert_eq!(checker_for("ts"), Some(Checker::TypeScript));
    assert_eq!(checker_for("tsx"), Some(Checker::TypeScript));
    assert_eq!(checker_for("py"), Some(Checker::Python));
    for e in ["js", "md", "", "RS", "jsonc"] {
        assert_eq!(checker_for(e), None);
    }
}

#[test]
fn checker_commands() {
    let none: Vec<DirProbe> = Vec::new();
    let c = checker_command(Checker::CFamily, "a.c", &none).unwrap();
    assert_eq!(c.program, "clang");
    assert_eq!(c.args, vec!["-fsyntax-only", "-Wall", "a.c"]);
    assert_eq!(c.cwd, None);
    let g = checker_command(Checker::Go, "m.go", &none).unwrap();
    assert_eq!((g.program.as_str(), g.args.clone()), ("go", vec!["build".to_string(), "-o".into(), "/dev/null".into(), "m.go".into()]));
    let t = checker_command(Checker::TypeScript, "a.ts", &none).unwrap();
    assert_eq!((t.program.as_str(), t.args.clone()), ("tsc", vec!["--noEmit".to_string(), "a.ts".into()]));
    let p = checker_command(Checker::Python, "a.py", &none).unwrap();
    assert_eq!((p.program.as_str(), p.args.clone()), ("python3", vec!["-m".to_string(), "py_compile".into(), "a.py".into()]));
    assert!(checker_command(Checker::Json, "a.json", &none).is_none());
}

#[test]
fn rust_checker_depends_on_cargo_root() {
    let outside = vec![probe("/t", false), probe("/", false)];
    let r = checker_command(Checker::Rust, "/t/x.rs", &outside).unwrap();
    assert_eq!(r.program, "rustc");
    assert_eq!(r.args, vec!["-Z", "no-codegen", "/t/x.rs"]);
    assert_eq!(r.cwd, None);
    let inside = vec![probe("/p/src", false), probe("/p", true)];
    let r = checker_command(Checker::Rust, "/p/src/main.rs", &inside).unwrap();
    assert_eq!(r.program, "cargo");
    assert_eq!(r.args, vec!["check"]);
    assert_eq!(r.cwd, Some("/p".to_string()));
}

#[test]
fn success_messages_and_streams() {
    assert_eq!(success_message(Checker::Json), "valid JSON");
    assert_eq!(success_message(Checker::CFamily), "C/C++ syntax valid");
    assert_eq!(success_message(Checker::Go), "go syntax valid");
    assert_eq!(success_message(Checker::Rust), "rust syntax valid");
    assert_eq!(success_message(Checker::TypeScript), "ts syntax valid");
    assert_eq!(success_message(Checker::Python), "python syntax valid");
    assert_eq!(report_stream(Checker::TypeScript), Stream::Stdout);
    assert_eq!(report_stream(Checker::Go), Stream::Stderr);
}

#[test]
fn external_outcome_reports_the_right_stream() {
    let ok = external_outcome(Checker::Go, true, "x: error: no", "y: error: no");
    assert!(ok.ok);
    assert_eq!(ok.message, "go syntax valid");
    assert!(ok.diagnostics.is_empty());
    let ts = external_outcome(Checker::TypeScript, false, "a.ts(1,1): error TS1: x | y", "b: error: z");
    assert!(!ts.ok);
    assert_eq!(ts.message, "");
    assert_eq!(ts.diagnostics.len(), 1);
    assert_eq!(ts.diagnostics[0].text, "a.ts(1,1): error TS1: x | y");
    assert_eq!(ts.diagnostics[0].style, LineStyle::Snippet);
    let py = external_outcome(Checker::Python, false, "ignored: error: a", "f.py:1: error: bad\n");
    assert_eq!(py.diagnostics.len(), 1);
    assert_eq!(py.diagnostics[0].text, "f.py:1: error: bad");
    assert_eq!(py.diagnostics[0].style, LineStyle::Error);
}

#[test]
fn json_valid_and_invalid() {
    let ok = check_json("{\"a\": [1, 2, {\"b\": null}]}");
    assert!(ok.ok);
    assert_eq!(ok.message, "valid JSON");
    assert!(ok.json_error.is_none());
    let bad = check_json("{\n  \"a\": }");
    assert!(!bad.ok);
    assert_eq!(bad.message, "");
    let e = bad.json_error.unwrap();
    assert_eq!(e.line, 2);
    assert_eq!(e.column, 8);
    assert!(e.message.starts_with("expected value"));
}

#[test]
fn json_rejects_trailing_and_empty() {
    assert!(!check_json("1 2").ok);
    let empty = check_json("");
    assert!(!empty.ok);
    assert!(empty.json_error.unwrap().message.contains("EOF"));
    assert!(check_json("  42  ").ok);
}

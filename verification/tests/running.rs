use keen::command::{flow_after, Command, Flow, Step};
use keen::paths::{get_project_root, DirProbe};
use keen::run::{
    binary_command, binary_path, compile_command, compile_verdict, include_candidates, needs_clang_probe, proceed_plan,
    project_plan, run_as_project, snippet_plan, CompileFailure, PathProbe, SnippetPlan,
};

fn root(dir: &str, cargo: bool, cmake: bool, make: bool) -> Option<DirProbe> {
    Some(DirProbe {
        dir: dir.to_string(),
        cargo_toml: cargo,
        package_json: false,
        go_mod: false,
        requirements_txt: false,
        cmake_lists: cmake,
        makefile: make,
    })
}

fn args(v: &[&str]) -> Vec<String> {
    v.iter().map(|s| s.to_string()).collect()
}

fn run_of(step: &Step) -> &Command {
    match step {
        Step::Run(c) => c,
        Step::CreateDir(_) => panic!("not a command"),
    }
}

#[test]
fn project_route() {
    assert!(run_as_project(true, &root("/p", true, false, false)));
    assert!(run_as_project(false, &root("/p", true, false, false)));
    assert!(!run_as_project(false, &None));
    assert!(run_as_project(true, &None));
}

#[test]
fn forced_project_mode_without_root() {
    let a = args(&["q"]);
    let p = project_plan("py", "/t/a.py", &None, &a).unwrap();
    assert_eq!(run_of(&p[0]).program, "python3");
    assert_eq!(run_of(&p[0]).args, args(&["/t/a.py", "q"]));
    assert!(project_plan("rs", "/t/a.rs", &None, &a).is_none());
    assert!(project_plan("c", "/t/a.c", &None, &a).is_none());
}

#[test]
fn snippet_plans() {
    let a = args(&["x", "y"]);
    assert!(needs_clang_probe("c") && needs_clang_probe("cpp") && !needs_clang_probe("h"));
    match snippet_plan("c", "m.c", &a, true) {
        SnippetPlan::Compile(c) => assert_eq!(c, "clang"),
        p => panic!("{:?}", p),
    }
    match snippet_plan("c", "m.c", &a, false) {
        SnippetPlan::Compile(c) => assert_eq!(c, "gcc"),
        p => panic!("{:?}", p),
    }
    match snippet_plan("cpp", "m.cpp", &a, false) {
        SnippetPlan::Compile(c) => assert_eq!(c, "g++"),
        p => panic!("{:?}", p),
    }
    match snippet_plan("rs", "m.rs", &a, false) {
        SnippetPlan::Compile(c) => assert_eq!(c, "rustc"),
        p => panic!("{:?}", p),
    }
    match snippet_plan("go", "m.go", &a, false) {
        SnippetPlan::Run(c) => {
            assert_eq!(c.program, "go");
            assert_eq!(c.args, args(&["run", "m.go", "x", "y"]));
            assert_eq!(c.context, Some("go not found in PATH".to_string()));
        }
        p => panic!("{:?}", p),
    }
    match snippet_plan("mjs", "m.mjs", &a, false) {
        SnippetPlan::Run(c) => {
            assert_eq!(c.program, "node");
            assert_eq!(c.args, args(&["m.mjs", "x", "y"]));
        }
        p => panic!("{:?}", p),
    }
    match snippet_plan("tsx", "m.tsx", &Vec::new(), false) {
        SnippetPlan::Run(c) => {
            assert_eq!(c.program, "ts-node");
            assert_eq!(c.context, Some("ts-node not found in PATH. install it globally with npm.".to_string()));
        }
        p => panic!("{:?}", p),
    }
    match snippet_plan("py", "m.py", &a, false) {
        SnippetPlan::Run(c) => {
            assert_eq!(c.program, "python3");
            assert_eq!(c.context, Some("python3 not found in PATH".to_string()));
        }
        p => panic!("{:?}", p),
    }
    assert!(matches!(snippet_plan("json", "d.json", &a, false), SnippetPlan::PrintFile));
    assert!(matches!(snippet_plan("h", "d.h", &a, true), SnippetPlan::Unsupported));
    assert!(matches!(snippet_plan("", "Makefile", &a, true), SnippetPlan::Unsupported));
}

#[test]
fn include_dirs_beside_the_source() {
    assert_eq!(include_candidates("/w/p/src/m.c"), vec!["/w/p/src/include", "/w/p/include"]);
    assert_eq!(include_candidates("m.c"), vec!["include"]);
    assert_eq!(include_candidates("/m.c"), vec!["/include"]);
}

#[test]
fn compile_command_lists_existing_includes() {
    let inc = vec![
        PathProbe { path: "/w/src/include".to_string(), exists: false },
        PathProbe { path: "/w/include".to_string(), exists: true },
    ];
    let c = compile_command("clang", &args(&["-O2"]), &inc, "/w/src/m.c", "/tmp/t/keen_exec");
    assert_eq!(c.program, "clang");
    assert_eq!(c.args, args(&["-O2", "-I/w/include", "/w/src/m.c", "-o", "/tmp/t/keen_exec"]));
    assert_eq!(c.context, Some("clang not found in PATH".to_string()));
    assert!(c.stop_on_failure);
}

#[test]
fn compile_verdicts_and_binary() {
    assert_eq!(compile_verdict(true, true), Ok(()));
    assert_eq!(compile_verdict(false, true), Err(CompileFailure::CompileFailed));
    assert_eq!(compile_verdict(false, false), Err(CompileFailure::CompileFailed));
    assert_eq!(compile_verdict(true, false), Err(CompileFailure::BinaryMissing));
    assert_eq!(CompileFailure::CompileFailed.message(), "compile failed");
    assert_eq!(CompileFailure::BinaryMissing.message(), "binary missing after compile");
    assert_eq!(binary_path("/tmp/abc"), "/tmp/abc/keen_exec");
    let b = binary_command("/tmp/abc/keen_exec", &args(&["1"]));
    assert_eq!(b.program, "/tmp/abc/keen_exec");
    assert_eq!(b.args, args(&["1"]));
    assert_eq!(b.context, Some("failed to execute the compiled binary".to_string()));
}

#[test]
fn project_plans_by_language() {
    let a = args(&["--flag"]);
    let p = project_plan("rs", "/p/src/main.rs", &root("/p", true, false, false), &a).unwrap();
    assert_eq!(p.len(), 1);
    let c = run_of(&p[0]);
    assert_eq!((c.program.as_str(), c.args.clone(), c.cwd.clone()), ("cargo", args(&["run", "--", "--flag"]), Some("/p".to_string())));
    let p = project_plan("tsx", "/p/a.tsx", &root("/p", false, false, false), &a).unwrap();
    assert_eq!(run_of(&p[0]).program, "npm");
    assert_eq!(run_of(&p[0]).args, args(&["start", "--", "--flag"]));
    let p = project_plan("go", "/p/a.go", &root("/p", false, false, false), &a).unwrap();
    assert_eq!(run_of(&p[0]).args, args(&["run", ".", "--flag"]));
    let p = project_plan("py", "/p/a.py", &None, &a).unwrap();
    assert_eq!(run_of(&p[0]).program, "python3");
    assert_eq!(run_of(&p[0]).args, args(&["/p/a.py", "--flag"]));
    assert_eq!(run_of(&p[0]).cwd, None);
    assert!(project_plan("rs", "/p/a.rs", &None, &a).is_none());
    assert!(project_plan("md", "/p/a.md", &root("/p", true, true, true), &a).is_none());
}

#[test]
fn c_project_plans() {
    let a = args(&["z"]);
    let p = project_plan("c", "/p/m.c", &root("/p", true, true, true), &a).unwrap();
    assert_eq!(p.len(), 3);
    match &p[0] {
        Step::CreateDir(d) => assert_eq!(d, "/p/build"),
        s => panic!("{:?}", s),
    }
    let cmake = run_of(&p[1]);
    assert_eq!((cmake.program.as_str(), cmake.args.clone()), ("cmake", args(&[".."])));
    assert_eq!(cmake.cwd, Some("/p/build".to_string()));
    assert!(cmake.stop_on_failure);
    assert_eq!(run_of(&p[2]).program, "make");
    let p = project_plan("hpp", "/p/m.hpp", &root("/p", true, false, true), &a).unwrap();
    assert_eq!(p.len(), 1);
    assert_eq!(run_of(&p[0]).program, "make");
    assert_eq!(run_of(&p[0]).cwd, Some("/p".to_string()));
    let p = project_plan("cpp", "/p/m.cpp", &root("/p", true, false, false), &a).unwrap();
    assert_eq!(run_of(&p[0]).args, args(&["run", "--", "z"]));
    assert_eq!(run_of(&p[0]).context, Some("cargo not found in PATH".to_string()));
    assert!(project_plan("c", "/p/m.c", &root("/p", false, false, false), &a).is_none());
}

#[test]
fn build_plans() {
    let p = proceed_plan("rs", &root("/p", true, false, false)).unwrap();
    assert_eq!(run_of(&p[0]).args, args(&["build"]));
    let p = proceed_plan("go", &root("/p", false, false, false)).unwrap();
    assert_eq!(run_of(&p[0]).args, args(&["build", "."]));
    let p = proceed_plan("cpp", &root("/p", false, true, false)).unwrap();
    assert_eq!(p.len(), 3);
    assert!(!run_of(&p[1]).stop_on_failure);
    assert!(proceed_plan("h", &root("/p", false, true, false)).is_none());
    assert!(proceed_plan("rs", &None).is_none());
    assert!(proceed_plan("py", &root("/p", true, true, true)).is_none());
    assert!(proceed_plan("c", &root("/p", false, false, false)).is_none());
}

#[test]
fn plan_flow() {
    let p = project_plan("c", "/p/m.c", &root("/p", false, true, false), &Vec::new()).unwrap();
    let cmake = run_of(&p[1]);
    assert_eq!(flow_after(cmake, false, false), Flow::Finish(false));
    assert_eq!(flow_after(cmake, true, false), Flow::Continue);
    assert_eq!(flow_after(run_of(&p[2]), false, true), Flow::Finish(false));
    let b = proceed_plan("c", &root("/p", false, true, false)).unwrap();
    assert_eq!(flow_after(run_of(&b[1]), false, false), Flow::Continue);
    assert_eq!(flow_after(run_of(&b[2]), true, true), Flow::Finish(true));
}

#[test]
fn project_mode_is_automatic_inside_a_project() {
    let probes = vec![
        DirProbe {
            dir: "/w/p/src".to_string(),
            cargo_toml: false,
            package_json: false,
            go_mod: false,
            requirements_txt: false,
            cmake_lists: false,
            makefile: false,
        },
        root("/w/p", true, false, false).unwrap(),
    ];
    for ext in ["rs", "py", "md", "c"] {
        let r = get_project_root(ext, &probes);
        assert!(run_as_project(false, &r));
        assert_eq!(r.unwrap().dir, "/w/p");
    }
}

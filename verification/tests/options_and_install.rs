use keen::cli::{format_outcome, formatter_for, main_step, overall_success, plan_actions, template_for_choice, template_for_input, Action, Args, MainStep};
use keen::install::{exe_dir_listed, install_paths, notice_considered, notice_paths, path_advice, profile_addition, profile_edit, shell_hint, PathAdvice};

fn args() -> Args {
    Args {
        file: Some("x.rs".to_string()),
        check: false,
        output: false,
        proceed: false,
        project: false,
        install: false,
        watch: false,
        fmt: false,
        init: false,
        trailing: Vec::new(),
    }
}

#[test]
fn main_steps() {
    let mut a = args();
    assert_eq!(main_step(&a, true), MainStep::Run);
    assert_eq!(main_step(&a, false), MainStep::FileNotFound);
    a.watch = true;
    assert_eq!(main_step(&a, true), MainStep::Watch);
    a.file = None;
    assert_eq!(main_step(&a, true), MainStep::NoFile);
    a.init = true;
    assert_eq!(main_step(&a, false), MainStep::Init);
    a.install = true;
    assert_eq!(main_step(&a, false), MainStep::Install);
}

#[test]
fn default_action_is_a_check() {
    let a = args();
    let p = plan_actions(&a, false);
    assert_eq!(p.actions, vec![Action::CheckFile]);
    assert!(p.show_summary);
    assert_eq!(plan_actions(&a, true).actions, vec![Action::CheckDir]);
}

#[test]
fn actions_in_fixed_order() {
    let mut a = args();
    a.output = true;
    a.fmt = true;
    a.check = true;
    a.proceed = true;
    let p = plan_actions(&a, false);
    assert_eq!(p.actions, vec![Action::Format, Action::CheckFile, Action::Proceed, Action::Output]);
    assert!(p.show_summary);
    let mut b = args();
    b.output = true;
    assert_eq!(plan_actions(&b, true).actions, vec![Action::Output]);
}

#[test]
fn success_needs_every_action() {
    assert!(overall_success(&vec![]));
    assert!(overall_success(&vec![true, true]));
    assert!(!overall_success(&vec![true, false, true]));
}

#[test]
fn formatters() {
    let f = formatter_for("rs", "a.rs").unwrap();
    assert_eq!((f.program.as_str(), f.args.clone()), ("rustfmt", vec!["a.rs".to_string()]));
    let f = formatter_for("go", "a.go").unwrap();
    assert_eq!(f.args, vec!["-w", "a.go"]);
    let f = formatter_for("hpp", "a.hpp").unwrap();
    assert_eq!((f.program.as_str(), f.args.clone()), ("clang-format", vec!["-i".to_string(), "a.hpp".into()]));
    let f = formatter_for("jsx", "a.jsx").unwrap();
    assert_eq!((f.program.as_str(), f.args.clone()), ("prettier", vec!["--write".to_string(), "a.jsx".into()]));
    assert!(formatter_for("py", "a.py").is_none());
    assert!(formatter_for("mjs", "a.mjs").is_none());
}

#[test]
fn templates() {
    let t = template_for_choice("c");
    assert_eq!(t.file_name, "main.c");
    assert_eq!(t.contents, "#include <stdio.h>\n\nint main() {\n    printf(\"hello world\\n\");\n    return 0;\n}\n");
    assert_eq!(template_for_choice("go").file_name, "main.go");
    assert_eq!(template_for_choice("py").contents, "print(\"hello world\")\n");
    let r = template_for_choice("");
    assert_eq!(r.file_name, "main.rs");
    assert_eq!(r.contents, "fn main() {\n    println!(\"hello world\");\n}\n");
    assert_eq!(template_for_choice("java").file_name, "main.rs");
}

#[test]
fn template_answer_is_trimmed_and_lowercased() {
    assert_eq!(template_for_input(" GO \n").file_name, "main.go");
    assert_eq!(template_for_input("Py\n").file_name, "main.py");
    assert_eq!(template_for_input("C").file_name, "main.c");
    assert_eq!(template_for_input("\n").file_name, "main.rs");
}

#[test]
fn install_locations() {
    let p = install_paths("/home/u");
    assert_eq!(p.local_bin, "/home/u/.local/bin");
    assert_eq!(p.target, "/home/u/.local/bin/keen");
    let n = notice_paths("/home/u/");
    assert_eq!(n.state_dir, "/home/u/.config/keen");
    assert_eq!(n.state_file, "/home/u/.config/keen/.warned");
}

#[test]
fn shell_hints() {
    let z = shell_hint("/usr/bin/zsh", "/h/.local/bin").unwrap();
    assert_eq!(z.config_file, ".zshrc");
    assert_eq!(z.command, "echo 'export PATH=\"$PATH:/h/.local/bin\"' >> ~/.zshrc");
    let b = shell_hint("/bin/bash", "/h/.local/bin").unwrap();
    assert_eq!(b.config_file, ".bashrc");
    assert_eq!(b.command, "echo 'export PATH=\"$PATH:/h/.local/bin\"' >> ~/.bashrc");
    let f = shell_hint("/usr/bin/fish", "/h/.local/bin").unwrap();
    assert_eq!(f.config_file, ".config/fish/config.fish");
    assert_eq!(f.command, "fish_add_path /h/.local/bin");
    assert!(shell_hint("/bin/sh", "/h/.local/bin").is_none());
    assert!(shell_hint("", "/h").is_none());
}

#[test]
fn path_advice_only_when_missing() {
    assert!(matches!(path_advice("/usr/bin:/h/.local/bin", "/h/.local/bin", "/bin/zsh"), PathAdvice::InPath));
    match path_advice("/usr/bin", "/h/.local/bin", "/bin/bash") {
        PathAdvice::NotInPath(Some(h)) => assert_eq!(h.config_file, ".bashrc"),
        a => panic!("{:?}", a),
    }
    assert!(matches!(path_advice("/usr/bin", "/h/.local/bin", "/bin/sh"), PathAdvice::NotInPath(None)));
}

#[test]
fn notice_once_and_outside_cargo() {
    assert!(notice_considered(false, false));
    assert!(!notice_considered(true, false));
    assert!(!notice_considered(false, true));
}

#[test]
fn exe_directory_on_path() {
    assert!(exe_dir_listed("/usr/bin:/h/.local/bin", "/h/.local/bin/keen"));
    assert!(exe_dir_listed("/usr/bin:/h/.local/bin/", "/h/.local/bin/keen"));
    assert!(!exe_dir_listed("/usr/bin:/h/.local", "/h/.local/bin/keen"));
    assert!(!exe_dir_listed("", "/h/.local/bin/keen"));
    assert!(!exe_dir_listed("/usr/bin", "/"));
}

#[test]
fn check_then_run_with_both_flags() {
    let mut a = args();
    a.check = true;
    a.output = true;
    assert_eq!(plan_actions(&a, false).actions, vec![Action::CheckFile, Action::Output]);
}

#[test]
fn format_outcomes() {
    let ok = format_outcome("rustfmt", Some(true));
    assert!(ok.ok && ok.missing.is_none());
    let bad = format_outcome("gofmt", Some(false));
    assert!(!bad.ok && bad.missing.is_none());
    let gone = format_outcome("prettier", None);
    assert!(!gone.ok);
    assert_eq!(gone.missing, Some("prettier not found".to_string()));
}

#[test]
fn profile_edits_by_shell() {
    let z = profile_edit("/home/u", "/usr/bin/zsh", "/home/u/.local/bin").unwrap();
    assert_eq!(z.file, "/home/u/.zshrc");
    assert_eq!(z.line, "export PATH=\"$PATH:/home/u/.local/bin\"");
    let b = profile_edit("/home/u", "/bin/bash", "/d").unwrap();
    assert_eq!(b.file, "/home/u/.bashrc");
    assert_eq!(b.line, "export PATH=\"$PATH:/d\"");
    let f = profile_edit("/home/u/", "fish", "/d").unwrap();
    assert_eq!(f.file, "/home/u/.config/fish/config.fish");
    assert_eq!(f.line, "fish_add_path /d");
    assert!(profile_edit("/home/u", "/bin/sh", "/d").is_none());
}

#[test]
fn profile_additions() {
    let line = "export PATH=\"$PATH:/d\"";
    assert_eq!(profile_addition("", line), format!("{}\n", line));
    assert_eq!(profile_addition("alias x=y\n", line), format!("{}\n", line));
    assert_eq!(profile_addition("alias x=y", line), format!("\n{}\n", line));
    assert_eq!(profile_addition("a\nexport PATH=\"$PATH:/d\"\nb\n", line), "");
    assert_eq!(profile_addition("export PATH=\"$PATH:/d\"\r\n", line), "");
}

#[test]
fn profile_holds_line_after_addition() {
    let line = "fish_add_path /d";
    for contents in ["", "x", "x\n", "a\r\nb", "fish_add_path /d"] {
        let after = format!("{}{}", contents, profile_addition(contents, line));
        assert!(after.lines().any(|l| l == line), "{:?}", after);
        assert_eq!(profile_addition(&after, line), "");
    }
}

//! Properties of the library that span its functions, each proved from the
//! specifications that the functions' contracts use.
use vstd::prelude::*;
use crate::diagnostics::{line_style, styled_lines};
use crate::cli::{Action, Args, any_action, actions_spec, check_action};
use crate::install::{notice_considered_spec, profile_addition_spec};
use crate::paths::{DirProbe, Marker, first_with, path_joined, project_root, specific_root};
use crate::run::{
    cmake_steps,
    compile_verdict_spec,
    in_dir,
    proceed_plan_spec,
    project_plan_spec,
    runs_as_project,
};
use crate::text::{
    line_at,
    lines_from,
    lines_of,
    next_newline,
    lemma_next_newline_at,
    lemma_next_newline_bounds,
};

verus! {

proof fn lemma_lines_from_no_newline(s: Seq<char>, start: int)
    ensures
        forall|i: int, k: int|
            0 <= i < lines_from(s, start).len() && 0 <= k < lines_from(s, start)[i].len()
                ==> lines_from(s, start)[i][k] != '\n',
    decreases s.len() - start + 1,
{
    if 0 <= start < s.len() {
        lemma_next_newline_bounds(s, start);
        let e = next_newline(s, start);
        lemma_lines_from_no_newline(s, e + 1);
        let rest = lines_from(s, e + 1);
        let l = line_at(s, start);
        assert(lines_from(s, start) == seq![l] + rest);
        assert forall|k: int| 0 <= k < l.len() implies l[k] != '\n' by {
            assert(l[k] == s[start + k]);
        }
        assert forall|i: int, k: int|
            0 <= i < lines_from(s, start).len() && 0 <= k < lines_from(s, start)[i].len()
                implies lines_from(s, start)[i][k] != '\n' by {
            if i > 0 {
                assert(lines_from(s, start)[i] == rest[i - 1]);
            }
        }
    }
}

/// No line of a text holds a line feed: `lines` always splits at every `'\n'`.
pub proof fn law_lines_hold_no_newline(s: Seq<char>)
    ensures
        forall|i: int, k: int|
            0 <= i < lines_of(s).len() && 0 <= k < lines_of(s)[i].len() ==> lines_of(s)[i][k]
                != '\n',
{
    lemma_lines_from_no_newline(s, 0);
}

proof fn lemma_next_newline_after_push(s: Seq<char>, i: int)
    requires
        0 <= i <= s.len(),
    ensures
        next_newline(s.push('\n'), i) == next_newline(s, i),
    decreases s.len() - i,
{
    let t = s.push('\n');
    if i < s.len() && s[i] != '\n' {
        assert(t[i] == s[i]);
        lemma_next_newline_after_push(s, i + 1);
    } else if i < s.len() {
        assert(t[i] == s[i]);
    } else {
        assert(t[i] == '\n');
    }
}

proof fn lemma_lines_from_after_push(s: Seq<char>, start: int)
    requires
        0 <= start < s.len(),
        s.last() != '\n',
        s.last() != '\r',
    ensures
        lines_from(s.push('\n'), start) == lines_from(s, start),
    decreases s.len() - start,
{
    let t = s.push('\n');
    lemma_next_newline_bounds(s, start);
    lemma_next_newline_after_push(s, start);
    let e = next_newline(s, start);
    assert(t.subrange(start, e) =~= s.subrange(start, e));
    if e < s.len() {
        assert(line_at(t, start) == line_at(s, start));
        assert(s[e] == '\n');
        assert(e + 1 < s.len());
        lemma_lines_from_after_push(s, e + 1);
    } else {
        assert(s.subrange(start, e).last() == s.last());
        assert(line_at(t, start) == line_at(s, start));
        assert(lines_from(t, e + 1) =~= Seq::<Seq<char>>::empty());
        assert(lines_from(s, e + 1) =~= Seq::<Seq<char>>::empty());
    }
}

/// A final line ending adds no line: a text and the same text with one `'\n'`
/// appended have the same lines. It fails for the empty text (`"\n"` has one
/// empty line) and after a `'\r'` (which the `'\n'` then strips).
pub proof fn law_final_newline_adds_no_line(s: Seq<char>)
    requires
        s.len() > 0,
        s.last() != '\n',
        s.last() != '\r',
    ensures
        lines_of(s.push('\n')) == lines_of(s),
{
    lemma_lines_from_after_push(s, 0);
}

proof fn lemma_first_with_found(probes: Seq<DirProbe>, m: Marker)
    ensures
        first_with(probes, m) matches Some(r) ==> probes.contains(r) && r.holds(m),
        (exists|i: int| 0 <= i < probes.len() && #[trigger] probes[i].holds(m)) ==> first_with(
            probes,
            m,
        ) is Some,
    decreases probes.len(),
{
    if probes.len() > 0 && !probes[0].holds(m) {
        lemma_first_with_found(probes.drop_first(), m);
        if first_with(probes, m) is Some {
            let r = first_with(probes, m)->0;
            let j = choose|j: int| 0 <= j < probes.drop_first().len() && probes.drop_first()[j] == r;
            assert(probes[j + 1] == r);
        }
        if exists|i: int| 0 <= i < probes.len() && #[trigger] probes[i].holds(m) {
            let i = choose|i: int| 0 <= i < probes.len() && #[trigger] probes[i].holds(m);
            assert(i > 0);
            assert(probes.drop_first()[i - 1].holds(m));
        }
    }
}

/// A detected project root is one of the searched ancestor directories, and it
/// holds one of the marker files.
pub proof fn law_project_root_is_marked_ancestor(ext: Seq<char>, probes: Seq<DirProbe>)
    ensures
        project_root(ext, probes) matches Some(r) ==> probes.contains(r) && (r.holds(
            Marker::CargoToml,
        ) || r.holds(Marker::PackageJson) || r.holds(Marker::GoMod) || r.holds(
            Marker::RequirementsTxt,
        ) || r.holds(Marker::CMakeLists) || r.holds(Marker::Makefile)),
{
    lemma_first_with_found(probes, Marker::CargoToml);
    lemma_first_with_found(probes, Marker::PackageJson);
    lemma_first_with_found(probes, Marker::GoMod);
    lemma_first_with_found(probes, Marker::RequirementsTxt);
    lemma_first_with_found(probes, Marker::CMakeLists);
    lemma_first_with_found(probes, Marker::Makefile);
}

/// A file inside a Rust, Node or Go project always has a project root, whatever
/// its own language.
pub proof fn law_project_root_found_in_project(ext: Seq<char>, probes: Seq<DirProbe>, i: int)
    requires
        0 <= i < probes.len(),
        probes[i].cargo_toml || probes[i].package_json || probes[i].go_mod,
    ensures
        project_root(ext, probes) is Some,
{
    lemma_first_with_found(probes, Marker::CargoToml);
    lemma_first_with_found(probes, Marker::PackageJson);
    lemma_first_with_found(probes, Marker::GoMod);
    if probes[i].cargo_toml {
        assert(probes[i].holds(Marker::CargoToml));
    } else if probes[i].package_json {
        assert(probes[i].holds(Marker::PackageJson));
    } else {
        assert(probes[i].holds(Marker::GoMod));
    }
}

/// The language's own marker wins over the fallback ones: where it is found, the
/// project root is the nearest directory holding it.
pub proof fn law_specific_marker_wins(ext: Seq<char>, probes: Seq<DirProbe>)
    requires
        specific_root(ext, probes) is Some,
    ensures
        project_root(ext, probes) == specific_root(ext, probes),
{
}

/// Without an action flag a run checks, and does nothing else.
pub proof fn law_default_action_is_check(args: Args, is_dir: bool)
    requires
        !args.fmt,
        !args.check,
        !args.proceed,
        !args.output,
    ensures
        actions_spec(args, is_dir) == seq![check_action(is_dir)],
{
    assert(actions_spec(args, is_dir) =~= seq![check_action(is_dir)]);
}

/// Every run does at least one action and at most four.
pub proof fn law_every_run_acts(args: Args, is_dir: bool)
    ensures
        actions_spec(args, is_dir).len() >= 1,
        actions_spec(args, is_dir).len() <= 4,
{
}

/// The summary line always follows the actions: its condition holds for every
/// combination of flags.
pub proof fn law_summary_always_shown(args: Args)
    ensures
        any_action(args) || !args.check && !args.output && !args.proceed,
{
}

/// A file inside a Rust, Node or Go project is run as that project even without
/// `-P`; with `-P` every file is run as a project.
pub proof fn law_project_mode_is_automatic(ext: Seq<char>, probes: Seq<DirProbe>, i: int)
    requires
        0 <= i < probes.len(),
        probes[i].cargo_toml || probes[i].package_json || probes[i].go_mod,
    ensures
        runs_as_project(false, project_root(ext, probes)),
        forall|root: Option<DirProbe>| runs_as_project(true, root),
{
    law_project_root_found_in_project(ext, probes, i);
}

/// Linting and running together (`-c -o`) checks first and then runs.
pub proof fn law_check_then_run(args: Args, is_dir: bool)
    requires
        args.check,
        args.output,
        !args.fmt,
        !args.proceed,
    ensures
        actions_spec(args, is_dir) == seq![check_action(is_dir), Action::Output],
{
    assert(actions_spec(args, is_dir) =~= seq![check_action(is_dir), Action::Output]);
}

/// The notice that the binary is not on `$PATH` is shown at most once: after it
/// has been shown it is never considered again, nor under cargo.
pub proof fn law_notice_shown_once(cargo_set: bool)
    ensures
        !notice_considered_spec(cargo_set, true),
        !notice_considered_spec(true, false),
{
}

/// A compiled snippet runs only when the compiler succeeded and left a binary.
pub proof fn law_binary_runs_only_after_compile(compiled: bool, binary_exists: bool)
    ensures
        compile_verdict_spec(compiled, binary_exists) is Ok <==> compiled && binary_exists,
{
}

/// In a CMake project a run stops when `cmake` fails, while a build goes on to
/// `make`; both work in the `build` directory under the root.
pub proof fn law_cmake_failure_stops_run_not_build(
    path: Seq<char>,
    root: DirProbe,
    args: Seq<Seq<char>>,
)
    requires
        root.cmake_lists,
    ensures
        project_plan_spec("c"@, path, Some(root), args) == Some(cmake_steps(root.dir@, true)),
        proceed_plan_spec("c"@, Some(root)) == Some(cmake_steps(root.dir@, false)),
        cmake_steps(root.dir@, true)[1] == in_dir(
            "cmake"@,
            seq![".."@],
            path_joined(root.dir@, "build"@),
            Some("cmake not found in PATH"@),
            true,
        ),
{
    reveal_strlit("c");
    reveal_strlit("rs");
    reveal_strlit("js");
    reveal_strlit("ts");
    reveal_strlit("jsx");
    reveal_strlit("tsx");
    reveal_strlit("go");
    reveal_strlit("py");
    assert("c"@.len() == 1);
    assert("c"@ != "rs"@);
    assert("c"@ != "go"@);
    assert("c"@ != "py"@);
    assert("c"@ != "js"@ && "c"@ != "ts"@);
    assert("c"@ != "jsx"@ && "c"@ != "tsx"@);
}

/// Every line shown from compiler output is one of its lines, shown in the
/// style that line gets; the lines keep their order.
pub proof fn law_shown_lines_come_from_output(lines: Seq<Seq<char>>)
    ensures
        forall|i: int|
            0 <= i < styled_lines(lines).len() ==> exists|j: int|
                0 <= j < lines.len() && lines[j] == (#[trigger] styled_lines(lines)[i]).1
                    && line_style(lines[j]) == Some(styled_lines(lines)[i].0),
        styled_lines(lines).len() <= lines.len(),
    decreases lines.len(),
{
    if lines.len() > 0 {
        let front = lines.drop_last();
        law_shown_lines_come_from_output(front);
        assert forall|i: int| 0 <= i < styled_lines(lines).len() implies exists|j: int|
            0 <= j < lines.len() && lines[j] == (#[trigger] styled_lines(lines)[i]).1
                && line_style(lines[j]) == Some(styled_lines(lines)[i].0) by {
            if i < styled_lines(front).len() {
                assert(styled_lines(lines)[i] == styled_lines(front)[i]);
                let j = choose|j: int|
                    0 <= j < front.len() && front[j] == (#[trigger] styled_lines(front)[i]).1
                        && line_style(front[j]) == Some(styled_lines(front)[i].0);
                assert(lines[j] == front[j]);
            } else {
                assert(lines[lines.len() - 1] == lines.last());
            }
        }
    }
}

proof fn lemma_next_newline_shift(a: Seq<char>, b: Seq<char>, k: int)
    requires
        0 <= k <= b.len(),
    ensures
        next_newline(a + b, a.len() + k) == a.len() + next_newline(b, k),
    decreases b.len() - k,
{
    if k < b.len() {
        assert((a + b)[a.len() + k] == b[k]);
        if b[k] != '\n' {
            lemma_next_newline_shift(a, b, k + 1);
        }
    }
}

proof fn lemma_lines_from_shift(a: Seq<char>, b: Seq<char>, j: int)
    requires
        0 <= j,
    ensures
        lines_from(a + b, a.len() + j) == lines_from(b, j),
    decreases b.len() - j + 1,
{
    if j < b.len() {
        lemma_next_newline_shift(a, b, j);
        lemma_next_newline_bounds(b, j);
        let e = next_newline(b, j);
        assert((a + b).subrange(a.len() + j, a.len() + e) =~= b.subrange(j, e));
        assert(line_at(a + b, a.len() + j) == line_at(b, j));
        lemma_lines_from_shift(a, b, e + 1);
        assert(a.len() + e + 1 == a.len() + (e + 1));
    }
}

proof fn lemma_next_newline_prefix(a: Seq<char>, b: Seq<char>, i: int)
    requires
        0 <= i <= a.len(),
        next_newline(a, i) < a.len(),
    ensures
        next_newline(a + b, i) == next_newline(a, i),
    decreases a.len() - i,
{
    assert((a + b)[i] == a[i]);
    if a[i] != '\n' {
        lemma_next_newline_prefix(a, b, i + 1);
    }
}

proof fn lemma_lines_from_prefix(a: Seq<char>, b: Seq<char>, i: int)
    requires
        a.len() > 0,
        a.last() == '\n',
        0 <= i <= a.len(),
    ensures
        lines_from(a + b, i) == lines_from(a, i) + lines_from(a + b, a.len() as int),
    decreases a.len() - i,
{
    if i < a.len() {
        lemma_next_newline_bounds(a, i);
        let e = next_newline(a, i);
        if e == a.len() {
            assert(a[a.len() - 1] != '\n');
        }
        lemma_next_newline_prefix(a, b, i);
        assert((a + b).subrange(i, e) =~= a.subrange(i, e));
        assert(line_at(a + b, i) == line_at(a, i));
        lemma_lines_from_prefix(a, b, e + 1);
        assert(lines_from(a + b, i) =~= lines_from(a, i) + lines_from(a + b, a.len() as int));
    } else {
        assert(lines_from(a, i) =~= Seq::<Seq<char>>::empty());
        assert(lines_from(a + b, i) =~= lines_from(a, i) + lines_from(a + b, a.len() as int));
    }
}

proof fn lemma_lines_of_single(line: Seq<char>)
    requires
        forall|k: int| 0 <= k < line.len() ==> line[k] != '\n',
        line.len() == 0 || line.last() != '\r',
    ensures
        lines_of(line + seq!['\n']) == seq![line],
{
    let l = line + seq!['\n'];
    lemma_next_newline_at(l, 0, line.len() as int);
    assert(l.subrange(0, line.len() as int) =~= line);
    assert(line_at(l, 0) == line);
    assert(lines_from(l, line.len() + 1int) =~= Seq::<Seq<char>>::empty());
    assert(lines_of(l) =~= seq![line]);
}

/// Installing puts the install directory on `$PATH` for new shells: after the
/// planned addition is appended, one of the lines of the startup file is the line
/// that puts it there. The line must be one line (no line feed in it, no carriage
/// return at its end), which holds unless the directory's name holds such
/// characters. Installing again then appends nothing.
pub proof fn law_profile_holds_line_after_addition(contents: Seq<char>, line: Seq<char>)
    requires
        forall|k: int| 0 <= k < line.len() ==> line[k] != '\n',
        line.len() == 0 || line.last() != '\r',
    ensures
        lines_of(contents + profile_addition_spec(contents, line)).contains(line),
        profile_addition_spec(contents + profile_addition_spec(contents, line), line)
            == Seq::<char>::empty(),
{
    if lines_of(contents).contains(line) {
        assert(contents + profile_addition_spec(contents, line) =~= contents);
    } else {
        let tail = line + seq!['\n'];
        let head = if contents.len() > 0 && contents.last() != '\n' {
            contents + seq!['\n']
        } else {
            contents
        };
        assert(contents + profile_addition_spec(contents, line) =~= head + tail);
        lemma_lines_of_single(line);
        if head.len() == 0 {
            assert(head + tail =~= tail);
            assert(lines_of(tail)[0] == line);
        } else {
            assert(head.last() == '\n');
            lemma_lines_from_prefix(head, tail, 0);
            lemma_lines_from_shift(head, tail, 0);
            assert(head.len() + 0 == head.len());
            let all = lines_of(head + tail);
            assert(all == lines_from(head, 0) + seq![line]);
            assert(all[all.len() - 1] == line);
        }
    }
}

} // verus!

//! Installation into `~/.local/bin`, the advice on putting it on `$PATH`, and the
//! one-time notice of a binary that is not on `$PATH`.
use vstd::prelude::*;
use crate::paths::{path_equal, path_join, path_joined, path_parent, path_parent_of, same_path};
use crate::text::{lines, lines_of, seq_contains, split_char, split_on, str_contains, str_equal, to_chars};

verus! {

/// Where the binary is installed: the directory, and the file in it.
#[derive(Debug)]
pub struct InstallPaths {
    pub local_bin: String,
    pub target: String,
}

/// The install directory under a home directory.
pub open spec fn local_bin_spec(home: Seq<char>) -> Seq<char> {
    path_joined(home, ".local/bin"@)
}

/// The install directory `~/.local/bin` and the installed file `keen` in it.
pub fn install_paths(home: &str) -> (res: InstallPaths)
    ensures
        res.local_bin@ == local_bin_spec(home@),
        res.target@ == path_joined(local_bin_spec(home@), "keen"@),
{
    let local_bin = path_join(home, ".local/bin");
    let target = path_join(local_bin.as_str(), "keen");
    InstallPaths { local_bin, target }
}

/// The shell configuration file to edit and the command that puts the install
/// directory on `$PATH`.
#[derive(Debug)]
pub struct ShellHint {
    pub config_file: String,
    pub command: String,
}

/// The hint for a shell (by the `$SHELL` value): zsh and bash append an export to
/// their rc file, fish adds the path; other shells get none.
pub open spec fn shell_hint_spec(shell: Seq<char>, dir: Seq<char>) -> Option<(Seq<char>, Seq<char>)> {
    if seq_contains(shell, "zsh"@) {
        Some((".zshrc"@, "echo 'export PATH=\"$PATH:"@ + dir + "\"' >> ~/.zshrc"@))
    } else if seq_contains(shell, "bash"@) {
        Some((".bashrc"@, "echo 'export PATH=\"$PATH:"@ + dir + "\"' >> ~/.bashrc"@))
    } else if seq_contains(shell, "fish"@) {
        Some((".config/fish/config.fish"@, "fish_add_path "@ + dir))
    } else {
        None
    }
}

/// The abstract value of an optional hint.
pub open spec fn hint_view(h: Option<ShellHint>) -> Option<(Seq<char>, Seq<char>)> {
    match h {
        Some(h) => Some((h.config_file@, h.command@)),
        None => None,
    }
}

/// The hint for the shell `shell` to put `dir` on `$PATH`.
pub fn shell_hint(shell: &str, dir: &str) -> (res: Option<ShellHint>)
    ensures
        hint_view(res) == shell_hint_spec(shell@, dir@),
{
    if str_contains(shell, "zsh") {
        let command = String::from_str("echo 'export PATH=\"$PATH:").concat(dir).concat(
            "\"' >> ~/.zshrc",
        );
        Some(ShellHint { config_file: String::from_str(".zshrc"), command })
    } else if str_contains(shell, "bash") {
        let command = String::from_str("echo 'export PATH=\"$PATH:").concat(dir).concat(
            "\"' >> ~/.bashrc",
        );
        Some(ShellHint { config_file: String::from_str(".bashrc"), command })
    } else if str_contains(shell, "fish") {
        let command = String::from_str("fish_add_path ").concat(dir);
        Some(ShellHint { config_file: String::from_str(".config/fish/config.fish"), command })
    } else {
        None
    }
}

/// What installation advises about `$PATH`.
#[derive(Debug)]
pub enum PathAdvice {
    /// The install directory is on `$PATH`: nothing to say.
    InPath,
    /// It is not: warn, with the hint for the shell where there is one.
    NotInPath(Option<ShellHint>),
}

/// The advice: the directory counts as on `$PATH` when its text occurs anywhere in
/// the `$PATH` value.
pub open spec fn path_advice_spec(path_env: Seq<char>, dir: Seq<char>, shell: Seq<char>) -> Option<
    Option<(Seq<char>, Seq<char>)>,
> {
    if seq_contains(path_env, dir) {
        None
    } else {
        Some(shell_hint_spec(shell, dir))
    }
}

/// The advice on `$PATH` after installing into `dir`, given the `$PATH` and
/// `$SHELL` values.
pub fn path_advice(path_env: &str, dir: &str, shell: &str) -> (res: PathAdvice)
    ensures
        match res {
            PathAdvice::InPath => path_advice_spec(path_env@, dir@, shell@) is None,
            PathAdvice::NotInPath(h) => path_advice_spec(path_env@, dir@, shell@) == Some(
                hint_view(h),
            ),
        },
{
    if str_contains(path_env, dir) {
        PathAdvice::InPath
    } else {
        PathAdvice::NotInPath(shell_hint(shell, dir))
    }
}

/// The line that, in a shell's startup file, puts `dir` on `$PATH`, and that file
/// (under the home directory): the export line in `~/.zshrc` or `~/.bashrc`,
/// `fish_add_path` in fish's `config.fish`; none for other shells.
pub open spec fn profile_edit_spec(home: Seq<char>, shell: Seq<char>, dir: Seq<char>) -> Option<
    (Seq<char>, Seq<char>),
> {
    if seq_contains(shell, "zsh"@) {
        Some((path_joined(home, ".zshrc"@), "export PATH=\"$PATH:"@ + dir + "\""@))
    } else if seq_contains(shell, "bash"@) {
        Some((path_joined(home, ".bashrc"@), "export PATH=\"$PATH:"@ + dir + "\""@))
    } else if seq_contains(shell, "fish"@) {
        Some((path_joined(home, ".config/fish/config.fish"@), "fish_add_path "@ + dir))
    } else {
        None
    }
}

/// A line to put into a shell's startup file.
#[derive(Debug)]
pub struct ProfileEdit {
    pub file: String,
    pub line: String,
}

/// The edit of the startup file of the shell `shell` that puts `dir` on `$PATH`
/// for new shells of the user whose home is `home`.
pub fn profile_edit(home: &str, shell: &str, dir: &str) -> (res: Option<ProfileEdit>)
    ensures
        match res {
            Some(e) => profile_edit_spec(home@, shell@, dir@) == Some((e.file@, e.line@)),
            None => profile_edit_spec(home@, shell@, dir@) is None,
        },
{
    if str_contains(shell, "zsh") {
        let line = String::from_str("export PATH=\"$PATH:").concat(dir).concat("\"");
        Some(ProfileEdit { file: path_join(home, ".zshrc"), line })
    } else if str_contains(shell, "bash") {
        let line = String::from_str("export PATH=\"$PATH:").concat(dir).concat("\"");
        Some(ProfileEdit { file: path_join(home, ".bashrc"), line })
    } else if str_contains(shell, "fish") {
        let line = String::from_str("fish_add_path ").concat(dir);
        Some(ProfileEdit { file: path_join(home, ".config/fish/config.fish"), line })
    } else {
        None
    }
}

/// What is appended to a startup file that holds `contents` so that it holds
/// `line`: nothing where one of its lines already is `line`; else `line` on a line
/// of its own, after a line feed where the file does not end with one.
pub open spec fn profile_addition_spec(contents: Seq<char>, line: Seq<char>) -> Seq<char> {
    if lines_of(contents).contains(line) {
        Seq::empty()
    } else if contents.len() > 0 && contents.last() != '\n' {
        seq!['\n'] + line + seq!['\n']
    } else {
        line + seq!['\n']
    }
}

/// The text to append to a startup file that holds `contents`, so that it holds
/// `line` as one of its lines.
pub fn profile_addition(contents: &str, line: &str) -> (res: String)
    ensures
        res@ == profile_addition_spec(contents@, line@),
{
    let existing = lines(contents);
    let ghost ls = lines_of(contents@);
    let n = existing.len();
    for i in 0..n
        invariant
            n == existing@.len(),
            existing.deep_view() == ls,
            ls == lines_of(contents@),
            forall|k: int| 0 <= k < i ==> ls[k] != line@,
    {
        assert(existing[i as int]@ == ls[i as int]);
        if str_equal(existing[i].as_str(), line) {
            assert(ls[i as int] == line@);
            return String::new();
        }
    }
    assert(!ls.contains(line@));
    proof {
        reveal_strlit("\n");
    }
    let cs = to_chars(contents);
    if cs.len() > 0 && cs[cs.len() - 1] != '\n' {
        String::from_str("\n").concat(line).concat("\n")
    } else {
        String::from_str(line).concat("\n")
    }
}

/// The files that remember that the notice was shown.
#[derive(Debug)]
pub struct NoticePaths {
    pub state_dir: String,
    pub state_file: String,
}

/// The directory `~/.config/keen` and the file `.warned` in it.
pub fn notice_paths(home: &str) -> (res: NoticePaths)
    ensures
        res.state_dir@ == path_joined(home@, ".config/keen"@),
        res.state_file@ == path_joined(path_joined(home@, ".config/keen"@), ".warned"@),
{
    let state_dir = path_join(home, ".config/keen");
    let state_file = path_join(state_dir.as_str(), ".warned");
    NoticePaths { state_dir, state_file }
}

/// The notice is considered only outside cargo (no `$CARGO`) and only until it
/// has been shown once.
pub open spec fn notice_considered_spec(cargo_set: bool, already_warned: bool) -> bool {
    !cargo_set && !already_warned
}

/// Whether the `$PATH` notice is considered at all.
pub fn notice_considered(cargo_set: bool, already_warned: bool) -> (res: bool)
    ensures
        res == notice_considered_spec(cargo_set, already_warned),
{
    !cargo_set && !already_warned
}

/// `dir` is, as a path, one of `entries`.
pub open spec fn listed_in(dir: Seq<char>, entries: Seq<Seq<char>>) -> bool {
    exists|i: int| 0 <= i < entries.len() && #[trigger] same_path(dir, entries[i])
}

/// The directory of the executable is one of the `:`-separated entries of
/// `$PATH`, compared as paths.
pub open spec fn exe_dir_listed_spec(path_env: Seq<char>, exe: Seq<char>) -> bool {
    match path_parent_of(exe) {
        None => false,
        Some(dir) => listed_in(dir, split_on(path_env, ':')),
    }
}

/// Whether the directory of the executable at `exe` is on the `$PATH` value
/// `path_env`.
pub fn exe_dir_listed(path_env: &str, exe: &str) -> (res: bool)
    ensures
        res == exe_dir_listed_spec(path_env@, exe@),
{
    match path_parent(exe) {
        None => false,
        Some(dir) => {
            let entries = split_char(path_env, ':');
            let ghost es = split_on(path_env@, ':');
            let n = entries.len();
            for i in 0..n
                invariant
                    n == entries@.len(),
                    entries.deep_view() == es,
                    es == split_on(path_env@, ':'),
                    path_parent_of(exe@) == Some(dir@),
                    forall|k: int| 0 <= k < i ==> !same_path(dir@, #[trigger] es[k]),
            {
                assert(entries[i as int]@ == es[i as int]);
                if path_equal(dir.as_str(), entries[i].as_str()) {
                    assert(same_path(dir@, es[i as int]));
                    assert(listed_in(dir@, es));
                    return true;
                }
            }
            false
        },
    }
}

} // verus!

//! Path operations of std that the logic relies on, and the search for a
//! project root among the ancestor directories of a file.
use vstd::prelude::*;
use crate::text::{str_equal, to_chars};

verus! {

/// The parent that std's `Path::parent` gives for a path (Unix paths).
pub uninterp spec fn path_parent_of(path: Seq<char>) -> Option<Seq<char>>;

/// The path that `Path::join` builds on Unix: an absolute `rest` replaces the
/// base; otherwise `rest` follows the base, after a `/` unless the base is empty
/// or already ends in one.
pub open spec fn path_joined(base: Seq<char>, rest: Seq<char>) -> Seq<char> {
    if rest.len() > 0 && rest[0] == '/' {
        rest
    } else if base.len() == 0 || base.last() == '/' {
        base + rest
    } else {
        base + seq!['/'] + rest
    }
}

/// The extension that std's `Path::extension` gives for a path (Unix paths).
pub uninterp spec fn path_extension_of(path: Seq<char>) -> Option<Seq<char>>;

/// Whether std's `Path` equality (component by component) holds of two Unix
/// paths.
pub uninterp spec fn same_path(a: Seq<char>, b: Seq<char>) -> bool;

/// Calls `std::path::Path::parent`. Claimed: the result is `path_parent_of` of the
/// argument, and a parent, being the path without its final component, is shorter
/// than the path.
#[verifier::external_body]
pub(crate) fn path_parent(path: &str) -> (res: Option<String>)
    ensures
        match res {
            Some(p) => path_parent_of(path@) == Some(p@) && p@.len() < path@.len(),
            None => path_parent_of(path@) is None,
        },
{
    match std::path::Path::new(path).parent() {
        Some(p) => Some(p.to_string_lossy().into_owned()),
        None => None,
    }
}

/// `rest` adjoined to the path `base`, as `Path::join` does it on Unix.
pub fn path_join(base: &str, rest: &str) -> (res: String)
    ensures
        res@ == path_joined(base@, rest@),
{
    let r = to_chars(rest);
    let b = to_chars(base);
    if r.len() > 0 && r[0] == '/' {
        String::from_str(rest)
    } else if b.len() == 0 || b[b.len() - 1] == '/' {
        String::from_str(base).concat(rest)
    } else {
        proof {
            reveal_strlit("/");
        }
        String::from_str(base).concat("/").concat(rest)
    }
}

/// Calls `std::path::Path::extension`. Claimed: the result is `path_extension_of`
/// of the argument.
#[verifier::external_body]
fn path_extension(path: &str) -> (res: Option<String>)
    ensures
        match res {
            Some(e) => path_extension_of(path@) == Some(e@),
            None => path_extension_of(path@) is None,
        },
{
    match std::path::Path::new(path).extension() {
        Some(e) => Some(e.to_string_lossy().into_owned()),
        None => None,
    }
}

/// Calls `PartialEq::eq` on two `std::path::Path`s. Claimed: the result is
/// `same_path` of the arguments, and, `Path` being `Eq`, a path equals itself.
#[verifier::external_body]
pub(crate) fn path_equal(a: &str, b: &str) -> (res: bool)
    ensures
        res == same_path(a@, b@),
        a@ == b@ ==> res,
{
    std::path::Path::new(a) == std::path::Path::new(b)
}

/// The extension of a file name as the tools dispatch on it: empty where the
/// path has none.
pub open spec fn extension_spec(path: Seq<char>) -> Seq<char> {
    match path_extension_of(path) {
        Some(e) => e,
        None => Seq::empty(),
    }
}

/// The extension of `path`, or the empty string where it has none.
pub fn extension_of(path: &str) -> (res: String)
    ensures
        res@ == extension_spec(path@),
{
    match path_extension(path) {
        Some(e) => e,
        None => String::new(),
    }
}

/// The ancestors of `path`, nearest first: its parent, the parent of that, and
/// so on, as far as `Path::parent` goes.
pub open spec fn ancestors(path: Seq<char>) -> Seq<Seq<char>>
    decreases path.len(),
{
    match path_parent_of(path) {
        Some(q) => if q.len() < path.len() {
            seq![q] + ancestors(q)
        } else {
            seq![]
        },
        None => seq![],
    }
}

/// The ancestor directories of `path`, nearest first; these are the directories
/// that are searched for a project root.
pub fn ancestor_dirs(path: &str) -> (res: Vec<String>)
    ensures
        res.deep_view() == ancestors(path@),
{
    let mut res: Vec<String> = Vec::new();
    let mut next = path_parent(path);
    match &next {
        Some(d) => {
            assert(ancestors(path@) == seq![d@] + ancestors(d@));
            assert(res.deep_view() + seq![d@] + ancestors(d@) =~= ancestors(path@));
        },
        None => {
            assert(res.deep_view() =~= ancestors(path@));
        },
    }
    loop
        invariant
            match next {
                Some(d) => res.deep_view() + seq![d@] + ancestors(d@) == ancestors(path@),
                None => res.deep_view() == ancestors(path@),
            },
        ensures
            res.deep_view() == ancestors(path@),
        decreases
            match next {
                Some(d) => d@.len() + 1,
                None => 0,
            },
    {
        match next {
            None => {
                break ;
            },
            Some(d) => {
                let after = path_parent(d.as_str());
                let ghost before = res.deep_view();
                let ghost dv = d@;
                res.push(d);
                assert(res.deep_view() =~= before.push(dv));
                match &after {
                    Some(q) => {
                        assert(ancestors(dv) == seq![q@] + ancestors(q@));
                        assert(res.deep_view() + seq![q@] + ancestors(q@) =~= before + seq![dv]
                            + ancestors(dv));
                    },
                    None => {
                        assert(ancestors(dv) =~= Seq::<Seq<char>>::empty());
                        assert(res.deep_view() =~= before + seq![dv] + ancestors(dv));
                    },
                }
                next = after;
            },
        }
    }
    res
}

/// The files whose presence marks a project root.
#[derive(Clone, Copy, Debug, PartialEq, Eq, Structural)]
pub enum Marker {
    /// `Cargo.toml`: a Rust project.
    CargoToml,
    /// `package.json`: a Node project.
    PackageJson,
    /// `go.mod`: a Go module.
    GoMod,
    /// `requirements.txt`: a Python project.
    RequirementsTxt,
    /// `CMakeLists.txt`: a CMake project.
    CMakeLists,
    /// `Makefile`: a make project.
    Makefile,
}

/// The file name of a marker.
pub open spec fn marker_name(m: Marker) -> Seq<char> {
    match m {
        Marker::CargoToml => "Cargo.toml"@,
        Marker::PackageJson => "package.json"@,
        Marker::GoMod => "go.mod"@,
        Marker::RequirementsTxt => "requirements.txt"@,
        Marker::CMakeLists => "CMakeLists.txt"@,
        Marker::Makefile => "Makefile"@,
    }
}

/// The file name of a marker.
pub fn marker_file(m: Marker) -> (res: &'static str)
    ensures
        res@ == marker_name(m),
{
    match m {
        Marker::CargoToml => "Cargo.toml",
        Marker::PackageJson => "package.json",
        Marker::GoMod => "go.mod",
        Marker::RequirementsTxt => "requirements.txt",
        Marker::CMakeLists => "CMakeLists.txt",
        Marker::Makefile => "Makefile",
    }
}

/// The path of a marker file in a directory.
pub fn marker_path(dir: &str, m: Marker) -> (res: String)
    ensures
        res@ == path_joined(dir@, marker_name(m)),
{
    path_join(dir, marker_file(m))
}

/// A directory and which marker files were found in it.
#[derive(Debug)]
pub struct DirProbe {
    pub dir: String,
    pub cargo_toml: bool,
    pub package_json: bool,
    pub go_mod: bool,
    pub requirements_txt: bool,
    pub cmake_lists: bool,
    pub makefile: bool,
}

impl DirProbe {
    /// The directory holds the marker.
    pub open spec fn holds(self, m: Marker) -> bool {
        match m {
            Marker::CargoToml => self.cargo_toml,
            Marker::PackageJson => self.package_json,
            Marker::GoMod => self.go_mod,
            Marker::RequirementsTxt => self.requirements_txt,
            Marker::CMakeLists => self.cmake_lists,
            Marker::Makefile => self.makefile,
        }
    }

    /// Whether the directory holds the marker.
    pub fn has(&self, m: Marker) -> (res: bool)
        ensures
            res == self.holds(m),
    {
        match m {
            Marker::CargoToml => self.cargo_toml,
            Marker::PackageJson => self.package_json,
            Marker::GoMod => self.go_mod,
            Marker::RequirementsTxt => self.requirements_txt,
            Marker::CMakeLists => self.cmake_lists,
            Marker::Makefile => self.makefile,
        }
    }

    /// A copy of the probe.
    pub fn duplicate(&self) -> (res: DirProbe)
        ensures
            res == *self,
    {
        DirProbe {
            dir: self.dir.clone(),
            cargo_toml: self.cargo_toml,
            package_json: self.package_json,
            go_mod: self.go_mod,
            requirements_txt: self.requirements_txt,
            cmake_lists: self.cmake_lists,
            makefile: self.makefile,
        }
    }
}

/// The first probe, nearest first, whose directory holds the marker.
pub open spec fn first_with(probes: Seq<DirProbe>, m: Marker) -> Option<DirProbe>
    decreases probes.len(),
{
    if probes.len() == 0 {
        None
    } else if probes[0].holds(m) {
        Some(probes[0])
    } else {
        first_with(probes.drop_first(), m)
    }
}

/// `a`, or `b` where `a` is `None`.
pub open spec fn or_else<T>(a: Option<T>, b: Option<T>) -> Option<T> {
    match a {
        Some(x) => Some(x),
        None => b,
    }
}

/// The nearest directory among `probes` (the ancestors of a file, nearest first)
/// that holds the marker file.
pub fn find_root(probes: &Vec<DirProbe>, marker: Marker) -> (res: Option<DirProbe>)
    ensures
        res == first_with(probes@, marker),
{
    let n = probes.len();
    assert(probes@.skip(0) =~= probes@);
    for i in 0..n
        invariant
            n == probes@.len(),
            first_with(probes@, marker) == first_with(probes@.skip(i as int), marker),
    {
        assert(probes@.skip(i as int)[0] == probes@[i as int]);
        if probes[i].has(marker) {
            return Some(probes[i].duplicate());
        }
        assert(probes@.skip(i as int).drop_first() =~= probes@.skip(i + 1));
    }
    assert(probes@.skip(n as int) =~= Seq::<DirProbe>::empty());
    None
}

/// The marker-specific root for a file extension: `Cargo.toml` for Rust,
/// `package.json` for JavaScript and TypeScript, `go.mod` for Go,
/// `requirements.txt` for Python, `CMakeLists.txt` and then `Makefile` for C
/// and C++; none for any other extension.
pub open spec fn specific_root(ext: Seq<char>, probes: Seq<DirProbe>) -> Option<DirProbe> {
    if ext == "rs"@ {
        first_with(probes, Marker::CargoToml)
    } else if ext == "js"@ || ext == "ts"@ || ext == "jsx"@ || ext == "tsx"@ {
        first_with(probes, Marker::PackageJson)
    } else if ext == "go"@ {
        first_with(probes, Marker::GoMod)
    } else if ext == "py"@ {
        first_with(probes, Marker::RequirementsTxt)
    } else if ext == "c"@ || ext == "cpp"@ || ext == "h"@ || ext == "hpp"@ {
        or_else(first_with(probes, Marker::CMakeLists), first_with(probes, Marker::Makefile))
    } else {
        None
    }
}

/// The project root of a file: the marker-specific root, or else the nearest
/// Rust, Node or Go project around it, in that order.
pub open spec fn project_root(ext: Seq<char>, probes: Seq<DirProbe>) -> Option<DirProbe> {
    or_else(
        specific_root(ext, probes),
        or_else(
            first_with(probes, Marker::CargoToml),
            or_else(first_with(probes, Marker::PackageJson), first_with(probes, Marker::GoMod)),
        ),
    )
}

fn specific_project_root(ext: &str, probes: &Vec<DirProbe>) -> (res: Option<DirProbe>)
    ensures
        res == specific_root(ext@, probes@),
{
    if str_equal(ext, "rs") {
        find_root(probes, Marker::CargoToml)
    } else if str_equal(ext, "js") || str_equal(ext, "ts") || str_equal(ext, "jsx") || str_equal(
        ext,
        "tsx",
    ) {
        find_root(probes, Marker::PackageJson)
    } else if str_equal(ext, "go") {
        find_root(probes, Marker::GoMod)
    } else if str_equal(ext, "py") {
        find_root(probes, Marker::RequirementsTxt)
    } else if str_equal(ext, "c") || str_equal(ext, "cpp") || str_equal(ext, "h") || str_equal(
        ext,
        "hpp",
    ) {
        match find_root(probes, Marker::CMakeLists) {
            Some(r) => Some(r),
            None => find_root(probes, Marker::Makefile),
        }
    } else {
        None
    }
}

/// The project root of a file with extension `ext`, given the probes of its
/// ancestor directories, nearest first.
pub fn get_project_root(ext: &str, probes: &Vec<DirProbe>) -> (res: Option<DirProbe>)
    ensures
        res == project_root(ext@, probes@),
{
    match specific_project_root(ext, probes) {
        Some(r) => Some(r),
        None => match find_root(probes, Marker::CargoToml) {
            Some(r) => Some(r),
            None => match find_root(probes, Marker::PackageJson) {
                Some(r) => Some(r),
                None => find_root(probes, Marker::GoMod),
            },
        },
    }
}

} // verus!

use keen::paths::{ancestor_dirs, extension_of, find_root, get_project_root, marker_file, marker_path, path_join, DirProbe, Marker};

fn probe(dir: &str, markers: &[Marker]) -> DirProbe {
    DirProbe {
        dir: dir.to_string(),
        cargo_toml: markers.contains(&Marker::CargoToml),
        package_json: markers.contains(&Marker::PackageJson),
        go_mod: markers.contains(&Marker::GoMod),
        requirements_txt: markers.contains(&Marker::RequirementsTxt),
        cmake_lists: markers.contains(&Marker::CMakeLists),
        makefile: markers.contains(&Marker::Makefile),
    }
}

fn root_dir(r: Option<DirProbe>) -> Option<String> {
    r.map(|p| p.dir)
}

#[test]
fn ancestors_walk_up_to_the_root() {
    assert_eq!(ancestor_dirs("/a/b/c.rs"), vec!["/a/b", "/a", "/"]);
    assert_eq!(ancestor_dirs("/"), Vec::<String>::new());
}

#[test]
fn ancestors_of_a_bare_file_name() {
    assert_eq!(ancestor_dirs("c.rs"), vec![""]);
    assert_eq!(ancestor_dirs("src/c.rs"), vec!["src", ""]);
}

#[test]
fn marker_paths_join_the_directory() {
    assert_eq!(marker_path("/x", Marker::GoMod), "/x/go.mod");
    assert_eq!(marker_path("/x/", Marker::CargoToml), "/x/Cargo.toml");
    assert_eq!(marker_path("", Marker::Makefile), "Makefile");
}

#[test]
fn extensions() {
    assert_eq!(extension_of("a/b.rs"), "rs");
    assert_eq!(extension_of("x.tar.gz"), "gz");
    assert_eq!(extension_of(".bashrc"), "");
    assert_eq!(extension_of("Makefile"), "");
}

#[test]
fn marker_names() {
    assert_eq!(marker_file(Marker::CargoToml), "Cargo.toml");
    assert_eq!(marker_file(Marker::PackageJson), "package.json");
    assert_eq!(marker_file(Marker::GoMod), "go.mod");
    assert_eq!(marker_file(Marker::RequirementsTxt), "requirements.txt");
    assert_eq!(marker_file(Marker::CMakeLists), "CMakeLists.txt");
    assert_eq!(marker_file(Marker::Makefile), "Makefile");
}

#[test]
fn find_root_takes_the_nearest() {
    let probes = vec![
        probe("/w/p/src", &[]),
        probe("/w/p", &[Marker::CargoToml]),
        probe("/w", &[Marker::CargoToml]),
        probe("/", &[]),
    ];
    assert_eq!(root_dir(find_root(&probes, Marker::CargoToml)), Some("/w/p".to_string()));
    assert_eq!(root_dir(find_root(&probes, Marker::GoMod)), None);
    assert_eq!(root_dir(find_root(&Vec::new(), Marker::GoMod)), None);
}

#[test]
fn rust_file_uses_cargo_root() {
    let probes = vec![probe("/w/p/src", &[Marker::PackageJson]), probe("/w/p", &[Marker::CargoToml])];
    assert_eq!(root_dir(get_project_root("rs", &probes)), Some("/w/p".to_string()));
}

#[test]
fn cmake_wins_over_a_nearer_makefile() {
    let probes = vec![probe("/w/p/sub", &[Marker::Makefile]), probe("/w/p", &[Marker::CMakeLists])];
    assert_eq!(root_dir(get_project_root("cpp", &probes)), Some("/w/p".to_string()));
    let only_make = vec![probe("/w/p/sub", &[Marker::Makefile]), probe("/w", &[])];
    assert_eq!(root_dir(get_project_root("h", &only_make)), Some("/w/p/sub".to_string()));
}

#[test]
fn other_languages_fall_back_to_cargo_then_node_then_go() {
    let probes = vec![
        probe("/w/a", &[Marker::GoMod]),
        probe("/w", &[Marker::PackageJson]),
        probe("/", &[Marker::CargoToml]),
    ];
    assert_eq!(root_dir(get_project_root("md", &probes)), Some("/".to_string()));
    assert_eq!(root_dir(get_project_root("py", &probes)), Some("/".to_string()));
    let node_go = vec![probe("/w/a", &[Marker::GoMod]), probe("/w", &[Marker::PackageJson])];
    assert_eq!(root_dir(get_project_root("md", &node_go)), Some("/w".to_string()));
    let go_only = vec![probe("/w/a", &[Marker::GoMod])];
    assert_eq!(root_dir(get_project_root("txt", &go_only)), Some("/w/a".to_string()));
}

#[test]
fn python_uses_requirements_first() {
    let probes = vec![probe("/w/a", &[Marker::RequirementsTxt]), probe("/w", &[Marker::CargoToml])];
    assert_eq!(root_dir(get_project_root("py", &probes)), Some("/w/a".to_string()));
}

#[test]
fn no_marker_no_root() {
    let probes = vec![probe("/w/a", &[Marker::Makefile, Marker::RequirementsTxt]), probe("/", &[])];
    assert_eq!(root_dir(get_project_root("rs", &probes)), None);
    assert_eq!(root_dir(get_project_root("ts", &probes)), None);
}

#[test]
fn detected_root_is_a_marked_ancestor() {
    let probes = vec![probe("/a/b", &[]), probe("/a", &[Marker::GoMod]), probe("/", &[Marker::CargoToml])];
    for ext in ["rs", "go", "js", "c", "py", "zz", ""] {
        let r = get_project_root(ext, &probes).expect("a root");
        assert!(probes.iter().any(|p| p.dir == r.dir));
        assert!(r.cargo_toml || r.go_mod);
    }
}

#[test]
fn join_agrees_with_std() {
    for (b, r) in [("/x", "include"), ("/x/", "y"), ("", "Makefile"), ("a", ""), ("/a", "/etc"), ("a/b", "c/d"), ("/", "x")] {
        let theirs = std::path::Path::new(b).join(r).to_string_lossy().into_owned();
        assert_eq!(path_join(b, r), theirs, "{:?} + {:?}", b, r);
    }
}

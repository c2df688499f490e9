use plugdecomp::reconcile::{extension_of, filter_resources, is_allowed, plan_file, Placement};

fn plans(files: &[&str]) -> Vec<(String, String, Placement)> {
    let v: Vec<String> = files.iter().map(|s| s.to_string()).collect();
    filter_resources(&v)
        .into_iter()
        .map(|p| (p.original, p.path, p.placement))
        .collect()
}

#[test]
fn scenario_reconciles_small_tree() {
    let r = plans(&["a.sql", "pkg/B.java~", "pkg/C.txt", "readme.md"]);
    assert_eq!(
        r,
        vec![
            ("a.sql".to_string(), "a.sql".to_string(), Placement::Source),
            ("pkg/B.java~".to_string(), "pkg/B.java".to_string(), Placement::Source),
            ("pkg/C.txt".to_string(), "pkg/C.txt".to_string(), Placement::Resources),
            ("readme.md".to_string(), "readme.md".to_string(), Placement::Resources),
        ]
    );
}

#[test]
fn marked_source_file_is_repaired() {
    let p = plan_file("Foo.java~");
    assert_eq!(p.original, "Foo.java~");
    assert_eq!(p.path, "Foo.java");
    assert_eq!(p.placement, Placement::Source);
}

#[test]
fn tilde_after_other_extension_is_not_repaired() {
    let p = plan_file("Foo.html~");
    assert_eq!(p.path, "Foo.html~");
    assert_eq!(p.placement, Placement::Resources);
    let p = plan_file("x/Foo.sql~");
    assert_eq!(p.path, "x/Foo.sql~");
    assert_eq!(p.placement, Placement::Resources);
}

#[test]
fn allowed_extensions_stay() {
    for f in ["q.sql", "a/b/C.java", "page.html", "svc.proto"] {
        let p = plan_file(f);
        assert_eq!(p.path, f);
        assert_eq!(p.placement, Placement::Source);
    }
}

#[test]
fn files_without_extension_stay() {
    for f in ["Makefile", "META-INF/LICENSE", ".gitignore", "dir.d/plain"] {
        let p = plan_file(f);
        assert_eq!(p.path, f);
        assert_eq!(p.placement, Placement::Source, "{}", f);
    }
}

#[test]
fn other_extensions_move() {
    for f in ["plugin.yml", "META-INF/MANIFEST.MF", "a.b.txt", "x.", "Foo.JAVA", "y.java.bak"] {
        let p = plan_file(f);
        assert_eq!(p.path, f);
        assert_eq!(p.placement, Placement::Resources, "{}", f);
    }
}

#[test]
fn extension_follows_last_dot_of_file_name() {
    assert_eq!(extension_of("a/b.c/d"), None);
    assert_eq!(extension_of("a/b.c/d.e"), Some("e"));
    assert_eq!(extension_of("x.tar.gz"), Some("gz"));
    assert_eq!(extension_of(".hidden"), None);
    assert_eq!(extension_of("dir/.hidden"), None);
    assert_eq!(extension_of("x."), Some(""));
    assert_eq!(extension_of(""), None);
    assert_eq!(extension_of("B.java~"), Some("java~"));
}

#[test]
fn allow_list_is_exact() {
    assert!(is_allowed("sql"));
    assert!(is_allowed("java"));
    assert!(is_allowed("html"));
    assert!(is_allowed("proto"));
    assert!(!is_allowed("java~"));
    assert!(!is_allowed("txt"));
    assert!(!is_allowed(""));
    assert!(!is_allowed("Java"));
}

#[test]
fn reconciliation_partitions_every_file() {
    let files = ["a.sql", "k/B.java~", "k/C.txt", "readme.md", "LICENSE", "x/y/z.proto", "x/y/z.png"];
    let r = plans(&files);
    assert_eq!(r.len(), files.len());
    let mut all: Vec<String> = Vec::new();
    for (orig, path, placement) in r {
        match extension_of(&path) {
            None => assert_eq!(placement, Placement::Source),
            Some(e) => assert_eq!(placement == Placement::Source, is_allowed(e)),
        }
        assert!(files.contains(&orig.as_str()));
        all.push(path);
    }
    all.sort();
    let mut expected: Vec<String> = ["a.sql", "k/B.java", "k/C.txt", "readme.md", "LICENSE", "x/y/z.proto", "x/y/z.png"]
        .iter()
        .map(|s| s.to_string())
        .collect();
    expected.sort();
    assert_eq!(all, expected);
}

#[test]
fn empty_tree_has_empty_plan() {
    assert!(filter_resources(&Vec::new()).is_empty());
}

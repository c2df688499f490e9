use plugdecomp::pipeline::{
    check_exit, vf_command, workspace_layout, CacheAction, ProcessFailure, ToolCache,
    VF_DOWNLOAD_URL,
};
use plugdecomp::version::{filter_versions, is_valid, strip_json_suffix};

#[test]
fn cached_artifact_is_used_twice_without_fetch() {
    let cache = ToolCache { data_dir: "/home/u/.local/share".to_string() };
    let first = cache.acquire(true);
    let second = cache.acquire(true);
    let path = "/home/u/.local/share/plugdecomp/vineflower.jar".to_string();
    match (first, second) {
        (CacheAction::Hit { path: a }, CacheAction::Hit { path: b }) => {
            assert_eq!(a, path);
            assert_eq!(b, path);
        }
        _ => panic!("a cached artifact must not be fetched"),
    }
}

#[test]
fn missing_artifact_is_fetched() {
    let cache = ToolCache { data_dir: "/data".to_string() };
    match cache.acquire(false) {
        CacheAction::Fetch { dir, url, path } => {
            assert_eq!(dir, "/data/plugdecomp");
            assert_eq!(url, VF_DOWNLOAD_URL);
            assert_eq!(path, "/data/plugdecomp/vineflower.jar");
        }
        _ => panic!("a missing artifact must be fetched"),
    }
    assert_eq!(cache.artifact_path(), "/data/plugdecomp/vineflower.jar");
}

#[test]
fn decompiler_command_line() {
    let c = vf_command("in.jar", "out/src/main/java", "/d/vineflower.jar");
    assert_eq!(c.program, "java");
    assert_eq!(
        c.args,
        vec![
            "-jar",
            "/d/vineflower.jar",
            "--folder",
            "--kt-decompile-kotlin=false",
            "in.jar",
            "out/src/main/java"
        ]
    );
}

#[test]
fn exit_status_translation() {
    assert_eq!(check_exit(Some(0)), Ok(()));
    assert_eq!(check_exit(Some(1)), Err(ProcessFailure::ExitCode(1)));
    assert_eq!(check_exit(Some(-3)), Err(ProcessFailure::ExitCode(-3)));
    assert_eq!(check_exit(None), Err(ProcessFailure::Abnormal));
}

#[test]
fn layout_under_output_dir() {
    let l = workspace_layout("out");
    assert_eq!(l.java_dir, "out/src/main/java");
    assert_eq!(l.resources_dir, "out/src/main/resources");
    assert_eq!(l.buildscript, "out/build.gradle.kts");
    assert_eq!(l.buildsettings, "out/settings.gradle.kts");
}

#[test]
fn version_pattern() {
    assert!(is_valid("1.20"));
    assert!(is_valid("1.8"));
    assert!(is_valid("1.20.4"));
    assert!(!is_valid("1.200"));
    assert!(!is_valid("2.0"));
    assert!(!is_valid("1.20.4.1"));
    assert!(!is_valid("1."));
    assert!(!is_valid(""));
}

#[test]
fn json_suffix_is_stripped() {
    assert_eq!(strip_json_suffix("1.20.json"), "1.20");
    assert_eq!(strip_json_suffix("1.20"), "1.20");
    assert_eq!(strip_json_suffix(".json"), "");
    assert_eq!(strip_json_suffix("json"), "json");
}

#[test]
fn versions_are_filtered_in_order() {
    let hrefs: Vec<String> = ["../", "1.20.json", "1.8", "latest.json", "1.21.1.json", "1.200"]
        .iter()
        .map(|s| s.to_string())
        .collect();
    assert_eq!(filter_versions(&hrefs), vec!["1.20", "1.8", "1.21.1"]);
}

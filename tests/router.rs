use cargo_nro::path::{ancestors, find_project_root, manifest_path, replace_extension, resource_dir};
use cargo_nro::router::{packaging_source, process_event, render_diagnostic, Action, Fatal};
use cargo_nro::{
    default_edition, Artifact, ArtifactProfile, BuildScript, Decoded, FromCompiler, Message,
    Payload, Target, TargetKind,
};

fn target(kind: TargetKind, src: &str) -> Target {
    Target {
        kind: vec![kind],
        crate_types: vec![String::from("bin")],
        name: String::from("out"),
        src_path: String::from(src),
        edition: default_edition(),
        required_features: None,
    }
}

fn artifact(kind: TargetKind, src: &str, files: &[&str]) -> Decoded {
    Decoded::Event(Message::Artifact(Artifact {
        package_id: String::from("out 0.1.0"),
        target: target(kind, src),
        profile: ArtifactProfile {
            opt_level: String::from("0"),
            debuginfo: Some(2),
            debug_assertions: true,
            overflow_checks: true,
            test: false,
        },
        features: vec![],
        filenames: files.iter().map(|f| String::from(*f)).collect(),
        fresh: false,
    }))
}

fn diagnostic(message: Payload) -> Decoded {
    Decoded::Event(Message::Message(FromCompiler {
        package_id: String::from("out 0.1.0"),
        target: target(TargetKind::Bin, "/p/src/main"),
        message,
    }))
}

fn strings(v: &[&str]) -> Vec<String> {
    v.iter().map(|s| String::from(*s)).collect()
}

#[test]
fn binary_artifact_is_packaged_with_resources() {
    let ev = artifact(TargetKind::Bin, "/p/src/main", &["/p/target/out"]);
    let src = packaging_source(&ev).unwrap();
    assert_eq!(src, "/p/src/main");
    assert_eq!(ancestors(&src), strings(&["/p/src/main", "/p/src", "/p", "/"]));
    let marked = vec![false, false, true, false];
    let root = find_project_root(&src, &marked).unwrap();
    assert_eq!(root, "/p");
    assert_eq!(resource_dir(&root), "/p/res");
    match process_event(&ev, &marked, true) {
        Action::Package(job) => {
            assert_eq!(job.image, "/p/target/out");
            assert_eq!(job.output, "/p/target/out.nro");
            assert_eq!(job.resources, Some(String::from("/p/res")));
        }
        other => panic!("unexpected {:?}", other),
    }
}

#[test]
fn binary_artifact_without_resources() {
    let ev = artifact(TargetKind::Bin, "/p/src/main", &["/p/target/out.elf", "/p/x"]);
    match process_event(&ev, &vec![false, true, false, false], false) {
        Action::Package(job) => {
            assert_eq!(job.image, "/p/target/out.elf");
            assert_eq!(job.output, "/p/target/out.nro");
            assert_eq!(job.resources, None);
        }
        other => panic!("unexpected {:?}", other),
    }
}

#[test]
fn nearest_root_wins() {
    let marked = vec![false, true, true, true];
    assert_eq!(find_project_root("/p/src/main", &marked), Some(String::from("/p/src")));
}

#[test]
fn library_artifact_is_ignored() {
    let ev = artifact(TargetKind::Lib, "/p/src/lib", &["/p/target/liba.rlib"]);
    assert_eq!(packaging_source(&ev), None);
    assert!(matches!(process_event(&ev, &vec![true], true), Action::Ignore));
}

#[test]
fn other_kinds_are_ignored() {
    for kind in [TargetKind::Test, TargetKind::Bench, TargetKind::Example, TargetKind::CustomBuild] {
        let ev = artifact(kind, "/p/src/x", &["/p/target/x"]);
        assert!(matches!(process_event(&ev, &vec![true], true), Action::Ignore));
    }
}

#[test]
fn rootless_binary_aborts() {
    let ev = artifact(TargetKind::Bin, "/p/src/main", &["/p/target/out"]);
    assert_eq!(find_project_root("/p/src/main", &vec![false; 4]), None);
    assert!(matches!(
        process_event(&ev, &vec![false; 4], true),
        Action::Abort(Fatal::NoProjectRoot)
    ));
    assert!(matches!(
        process_event(&ev, &vec![], true),
        Action::Abort(Fatal::NoProjectRoot)
    ));
}

#[test]
fn binary_without_files_aborts() {
    let ev = artifact(TargetKind::Bin, "/p/src/main", &[]);
    assert!(matches!(
        process_event(&ev, &vec![true], false),
        Action::Abort(Fatal::NoProducedFile)
    ));
}

#[test]
fn binary_without_file_name_aborts() {
    let ev = artifact(TargetKind::Bin, "/p/src/main", &["/p/target/.."]);
    assert!(matches!(
        process_event(&ev, &vec![true], false),
        Action::Abort(Fatal::NoFileName)
    ));
}

#[test]
fn diagnostic_object_is_shown() {
    let ev = diagnostic(Payload::Object {
        rendered: Some(String::from("error: x")),
        children: Some(String::from("Array []")),
    });
    match process_event(&ev, &vec![], false) {
        Action::Show { rendered, children } => {
            assert_eq!(rendered, "error: x");
            assert_eq!(children, "Array []");
        }
        other => panic!("unexpected {:?}", other),
    }
}

#[test]
fn diagnostic_string_aborts() {
    let ev = diagnostic(Payload::Other(String::from("String(\"error: x\")")));
    assert!(matches!(
        process_event(&ev, &vec![], false),
        Action::Abort(Fatal::PayloadNotObject)
    ));
}

#[test]
fn diagnostic_missing_fields_abort() {
    let no_rendered = Payload::Object { rendered: None, children: Some(String::from("Array []")) };
    assert!(matches!(render_diagnostic(&no_rendered), Action::Abort(Fatal::MissingRendered)));
    let no_children = Payload::Object { rendered: Some(String::from("e")), children: None };
    assert!(matches!(render_diagnostic(&no_children), Action::Abort(Fatal::MissingChildren)));
}

#[test]
fn malformed_event_is_reported() {
    let ev = Decoded::Malformed(String::from("missing field `target`"));
    match process_event(&ev, &vec![], false) {
        Action::Report(text) => assert_eq!(text, "missing field `target`"),
        other => panic!("unexpected {:?}", other),
    }
}

#[test]
fn malformed_then_next_event_handled() {
    let events = vec![
        Decoded::Malformed(String::from("bad")),
        artifact(TargetKind::Bin, "/p/src/main", &["/p/target/out"]),
    ];
    let actions: Vec<Action> =
        events.iter().map(|e| process_event(e, &vec![false, false, true, false], false)).collect();
    assert!(matches!(actions[0], Action::Report(_)));
    assert!(matches!(actions[1], Action::Package(_)));
}

#[test]
fn rerun_gives_same_packaging() {
    let ev = artifact(TargetKind::Bin, "/q/main", &["/q/target/app"]);
    let marked = vec![false, true, false];
    let first = process_event(&ev, &marked, true);
    let second = process_event(&ev, &marked, true);
    match (first, second) {
        (Action::Package(a), Action::Package(b)) => {
            assert_eq!(a.image, b.image);
            assert_eq!(a.output, b.output);
            assert_eq!(a.resources, b.resources);
            assert_eq!(a.resources, Some(String::from("/q/res")));
        }
        other => panic!("unexpected {:?}", other),
    }
}

#[test]
fn corrupt_stream_aborts() {
    let ev = Decoded::Corrupt(String::from("io error"));
    assert!(matches!(process_event(&ev, &vec![], false), Action::Abort(Fatal::StreamCorrupt)));
}

#[test]
fn build_script_and_unknown_are_ignored() {
    let bs = Decoded::Event(Message::BuildScript(BuildScript {
        package_id: String::from("x"),
        linked_libs: vec![],
        linked_paths: vec![],
        cfgs: vec![],
        env: vec![(String::from("K"), String::from("V"))],
    }));
    assert!(matches!(process_event(&bs, &vec![], false), Action::Ignore));
    assert!(matches!(process_event(&Decoded::Event(Message::Other), &vec![], false), Action::Ignore));
}

#[test]
fn ancestors_of_various_paths() {
    assert_eq!(ancestors("/"), strings(&["/"]));
    assert_eq!(ancestors(""), strings(&[""]));
    assert_eq!(ancestors("foo/bar"), strings(&["foo/bar", "foo", ""]));
    assert_eq!(ancestors("/p/src/"), strings(&["/p/src/", "/p", "/"]));
}

#[test]
fn extension_replacement() {
    assert_eq!(replace_extension("/p/target/out", "nro"), Some(String::from("/p/target/out.nro")));
    assert_eq!(replace_extension("a/foo.tar.gz", "nro"), Some(String::from("a/foo.tar.nro")));
    assert_eq!(replace_extension("/h/.bashrc", "nro"), Some(String::from("/h/.bashrc.nro")));
    assert_eq!(replace_extension("foo.", "nro"), Some(String::from("foo.nro")));
    assert_eq!(replace_extension("/p/..", "nro"), None);
    assert_eq!(replace_extension("/p/.", "nro"), None);
    assert_eq!(replace_extension("/p/", "nro"), None);
    assert_eq!(replace_extension("", "nro"), None);
}

#[test]
fn joined_paths() {
    assert_eq!(resource_dir("/p"), "/p/res");
    assert_eq!(resource_dir("/"), "/res");
    assert_eq!(resource_dir(""), "res");
    assert_eq!(manifest_path("/p/src"), "/p/src/Cargo.toml");
}

#[test]
fn target_kind_names_and_default_edition() {
    assert_eq!(TargetKind::Bin.name(), "bin");
    assert_eq!(TargetKind::Lib.name(), "lib");
    assert_eq!(TargetKind::CustomBuild.name(), "custom-build");
    assert_eq!(TargetKind::Bench.name(), "bench");
    assert_eq!(default_edition(), "2015");
}

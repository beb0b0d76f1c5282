use cedar::error::BuildError;
use cedar::orchestrator::{split_listing, Action, BuildRun, DirEntry, Event, Stage};
use std::collections::BTreeMap;

/// A pretend filesystem: directory listings and file texts.
struct Tree {
    dirs: BTreeMap<String, Vec<(String, bool)>>,
    files: BTreeMap<String, String>,
}

impl Tree {
    fn new() -> Tree {
        Tree { dirs: BTreeMap::new(), files: BTreeMap::new() }
    }

    fn dir(&mut self, path: &str, entries: &[(&str, bool)]) {
        self.dirs.insert(
            path.to_string(),
            entries.iter().map(|(p, d)| (p.to_string(), *d)).collect(),
        );
    }

    fn file(&mut self, path: &str, text: &str) {
        self.files.insert(path.to_string(), text.to_string());
    }

    fn has(&self, path: &str) -> bool {
        self.dirs.contains_key(path) || self.files.contains_key(path)
    }
}

/// Drives a build over the pretend tree; returns the actions asked for,
/// the compiler call if one was made, and the result.
fn drive(tree: &Tree, root: &str) -> (Vec<String>, Option<(String, Vec<String>)>, Result<(), BuildError>) {
    let (mut run, mut action) = BuildRun::start(root);
    let mut log = Vec::new();
    let mut call = None;
    loop {
        let ev = match action {
            Action::CheckPaths(paths) => {
                log.push("check".to_string());
                Event::Checked(paths.iter().map(|p| tree.has(p)).collect())
            }
            Action::ReadFile(p) => {
                log.push(format!("read {}", p));
                Event::ManifestRead(tree.files.get(&p).cloned().ok_or("no such file".to_string()))
            }
            Action::ListDir(p) => {
                log.push(format!("list {}", p));
                Event::Listed(
                    tree.dirs
                        .get(&p)
                        .map(|es| {
                            es.iter()
                                .map(|(path, is_dir)| DirEntry { path: path.clone(), is_dir: *is_dir })
                                .collect()
                        })
                        .ok_or("no such directory".to_string()),
                )
            }
            Action::Spawn(inv) => {
                log.push("spawn".to_string());
                call = Some((inv.program.clone(), inv.args.clone()));
                Event::Compiled(Ok(()))
            }
            Action::Finish(r) => {
                assert_eq!(run.stage, Stage::Done);
                return (log, call, r);
            }
        };
        assert!(run.accepts(&ev));
        action = run.advance(ev);
    }
}

const DEMO: &str = "[meta]\nname = \"demo\"\nversion = \"0.1.0\"\n[build]\ncompiler = \"gcc\"\ncflags = []\n";

fn demo_tree() -> Tree {
    let mut t = Tree::new();
    t.file("p/cedar.toml", DEMO);
    t.dir("p/src", &[("p/src/main.c", false)]);
    t.file("p/src/main.c", "int main(void) { return 0; }");
    t.dir("p/include", &[]);
    t.dir("p/build", &[]);
    t
}

#[test]
fn demo_project_builds() {
    let (log, call, r) = drive(&demo_tree(), "p");
    assert!(r.is_ok());
    let (program, args) = call.unwrap();
    assert_eq!(program, "gcc");
    assert_eq!(args, vec!["p/src/main.c".to_string(), "-o".to_string(), "p/build/demo".to_string()]);
    assert_eq!(
        log,
        vec!["check", "read p/cedar.toml", "list p/src", "list p/include", "spawn"]
    );
}

#[test]
fn missing_build_dir_fails_before_reading() {
    let mut t = demo_tree();
    t.dirs.remove("p/build");
    let (log, call, r) = drive(&t, "p");
    assert!(matches!(r, Err(BuildError::InvalidDirectory)));
    assert!(call.is_none());
    assert_eq!(log, vec!["check"]);
}

#[test]
fn each_missing_member_fails_regardless_of_manifest() {
    for missing in ["p/cedar.toml", "p/src", "p/include", "p/build"] {
        for text in [DEMO, "not a manifest"] {
            let mut t = demo_tree();
            t.file("p/cedar.toml", text);
            t.dirs.remove(missing);
            t.files.remove(missing);
            let (log, _, r) = drive(&t, "p");
            assert!(matches!(r, Err(BuildError::InvalidDirectory)), "{}", missing);
            assert_eq!(log, vec!["check"]);
        }
    }
}

#[test]
fn invalid_manifest_stops_the_build() {
    let mut t = demo_tree();
    t.file("p/cedar.toml", "[meta]\nversion = \"1\"\n[build]\ncompiler = \"gcc\"\n");
    let (log, call, r) = drive(&t, "p");
    assert!(matches!(r, Err(BuildError::InvalidManifest)));
    assert!(call.is_none());
    assert_eq!(log, vec!["check", "read p/cedar.toml"]);
}

#[test]
fn unsupported_compiler_after_discovery() {
    let mut t = demo_tree();
    t.file("p/cedar.toml", "[meta]\nname = \"demo\"\n[build]\ncompiler = \"msvc\"\n");
    let (_, call, r) = drive(&t, "p");
    assert!(matches!(r, Err(BuildError::UnsupportedCompiler(_))));
    assert!(call.is_none());
}

#[test]
fn listing_failure_is_io_error() {
    let mut t = demo_tree();
    t.dir("p/src", &[("p/src/gone", true)]);
    let (_, _, r) = drive(&t, "p");
    match r {
        Err(BuildError::IoError(m)) => assert_eq!(m, "no such directory"),
        _ => panic!("expected an I/O error"),
    }
}

#[test]
fn spawn_failure_is_reported() {
    let (mut run, _) = BuildRun::start("p");
    let _ = run.advance(Event::Checked(vec![true; 4]));
    let _ = run.advance(Event::ManifestRead(Ok(DEMO.to_string())));
    let _ = run.advance(Event::Listed(Ok(vec![])));
    let a = run.advance(Event::Listed(Ok(vec![])));
    assert!(matches!(a, Action::Spawn(_)));
    match run.advance(Event::Compiled(Err("not found".to_string()))) {
        Action::Finish(Err(BuildError::ProcessSpawnFailure(m))) => assert_eq!(m, "not found"),
        _ => panic!("expected a spawn failure"),
    }
}

#[test]
fn discovery_finds_every_file_at_every_depth_once() {
    let mut t = demo_tree();
    t.file("p/cedar.toml", "[meta]\nname = \"app\"\n[build]\ncompiler = \"gcc\"\ncflags = [\"-Wall\", \"-O2\"]\n");
    t.dir("p/src", &[("p/src/main.c", false), ("p/src/net", true), ("p/src/util.c", false)]);
    t.dir("p/src/net", &[("p/src/net/deep", true), ("p/src/net/sock.c", false)]);
    t.dir("p/src/net/deep", &[("p/src/net/deep/x.c", false)]);
    t.dir("p/include", &[("p/include/a.h", false), ("p/include/sys", true)]);
    t.dir("p/include/sys", &[("p/include/sys/b.h", false)]);
    let (_, call, r) = drive(&t, "p");
    assert!(r.is_ok());
    let (_, args) = call.unwrap();
    let n = args.len();
    assert_eq!(&args[n - 4..], &["-Wall", "-O2", "-o", "p/build/app"]);
    let mut src: Vec<String> = args[..4].to_vec();
    src.sort();
    assert_eq!(src, vec!["p/src/main.c", "p/src/net/deep/x.c", "p/src/net/sock.c", "p/src/util.c"]);
    let mut headers: Vec<String> = args[4..6].to_vec();
    headers.sort();
    assert_eq!(headers, vec!["p/include/a.h", "p/include/sys/b.h"]);
    assert_eq!(n, 10);
}

#[test]
fn listing_splits_files_and_dirs() {
    let entries = vec![
        DirEntry { path: "a.c".to_string(), is_dir: false },
        DirEntry { path: "sub".to_string(), is_dir: true },
        DirEntry { path: "b.c".to_string(), is_dir: false },
    ];
    let (files, dirs) = split_listing(&entries);
    assert_eq!(files, vec!["a.c".to_string(), "b.c".to_string()]);
    assert_eq!(dirs, vec!["sub".to_string()]);
}

#[test]
fn binary_path_after_manifest() {
    let (mut run, _) = BuildRun::start("/w/p");
    assert!(run.binary_path().is_none());
    let _ = run.advance(Event::Checked(vec![true; 4]));
    let _ = run.advance(Event::ManifestRead(Ok(DEMO.to_string())));
    assert_eq!(run.binary_path().unwrap(), "/w/p/build/demo");
}

#[test]
fn events_must_answer_the_action() {
    let (run, _) = BuildRun::start("p");
    assert!(run.accepts(&Event::Checked(vec![])));
    assert!(!run.accepts(&Event::Compiled(Ok(()))));
}

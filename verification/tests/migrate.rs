use volta::command::Platform;
use volta::error::ErrorKind;
use volta::listing::DirEntry;
use volta::migrate::{file_stem_of, is_load_script, Migration, MigrationStep, VoltaHome, V1};

fn s(x: &str) -> String {
    x.to_string()
}

fn file(name: &str) -> DirEntry {
    DirEntry { name: s(name), is_dir: false, is_file: true }
}

fn dir(name: &str) -> DirEntry {
    DirEntry { name: s(name), is_dir: true, is_file: false }
}

/// Runs `m` with every step succeeding, listing `entries` when asked, and
/// returns the steps it handed out.
fn run_all(m: &mut Migration, entries: &Vec<DirEntry>) -> Vec<MigrationStep> {
    let mut seen = Vec::new();
    while let Some(step) = m.next_step() {
        match step {
            MigrationStep::ListRoot { .. } => m.root_listed(entries),
            _ => m.step_done(),
        }
        seen.push(step);
    }
    seen
}

#[test]
fn test_empty_to_v1() {
    let mut m = Migration::from_empty(s("/home/u/.volta"));
    let steps = run_all(&mut m, &vec![]);
    assert_eq!(steps.len(), 2);
    match &steps[0] {
        MigrationStep::CreateLayout { root, dirs } => {
            assert_eq!(root, "/home/u/.volta");
            for d in ["/home/u/.volta", "/home/u/.volta/cache", "/home/u/.volta/bin", "/home/u/.volta/tools", "/home/u/.volta/tmp"] {
                assert!(dirs.contains(&s(d)), "missing {}", d);
            }
        }
        other => panic!("unexpected first step {:?}", other),
    }
    assert_eq!(steps[1], MigrationStep::WriteLayoutMarker { file: s("/home/u/.volta/layout.v1") });
    let v1 = m.outcome().unwrap().unwrap();
    assert_eq!(v1.home.root(), "/home/u/.volta");
    assert_eq!(v1.home.cache_dir(), "/home/u/.volta/cache");
    assert_eq!(v1.home.shim_dir(), "/home/u/.volta/bin");
    assert_eq!(v1.home.tools_dir(), "/home/u/.volta/tools");
    assert_eq!(v1.home.tmp_dir(), "/home/u/.volta/tmp");
    assert_eq!(v1.home.layout_file(), "/home/u/.volta/layout.v1");
}

#[test]
fn test_v0_to_v1_removes_load_files() {
    let root = "/home/u/.volta";
    let mut m = Migration::from_v0(s(root), Platform::Unix);
    let listing = vec![file("load.sh"), file("load.zsh"), file("volta"), file("shim"), dir("bin")];
    let steps = run_all(&mut m, &listing);
    assert!(matches!(steps[0], MigrationStep::CreateLayout { .. }));
    assert_eq!(steps[1], MigrationStep::ListRoot { dir: s(root) });
    assert_eq!(
        steps.iter().skip(2).collect::<Vec<_>>(),
        vec![
            &MigrationStep::DeleteFile { file: s("/home/u/.volta/load.sh") },
            &MigrationStep::DeleteFile { file: s("/home/u/.volta/load.zsh") },
            &MigrationStep::DeleteFileIfExists { file: s("/home/u/.volta/volta") },
            &MigrationStep::DeleteFileIfExists { file: s("/home/u/.volta/shim") },
            &MigrationStep::WriteLayoutMarker { file: s("/home/u/.volta/layout.v1") },
        ]
    );
    let v1 = m.outcome().unwrap().unwrap();
    assert_eq!(v1.home.layout_file(), "/home/u/.volta/layout.v1");
}

#[test]
fn v0_keeps_load_directories_and_other_files() {
    let mut m = Migration::from_v0(s("/v"), Platform::Unix);
    let listing = vec![dir("load.d"), file("loader.sh"), file(".load"), file("load.tar.gz"), file("load")];
    let steps = run_all(&mut m, &listing);
    let deleted: Vec<&MigrationStep> = steps.iter().filter(|s| matches!(s, MigrationStep::DeleteFile { .. })).collect();
    assert_eq!(deleted, vec![&MigrationStep::DeleteFile { file: s("/v/load") }]);
}

#[test]
fn migration_stops_at_first_failure() {
    let mut m = Migration::from_v0(s("/v"), Platform::Unix);
    assert!(matches!(m.next_step(), Some(MigrationStep::CreateLayout { .. })));
    m.step_failed();
    assert_eq!(m.next_step(), None);
    assert!(matches!(m.outcome(), Some(Err(ErrorKind::CreateDirError { ref dir })) if dir == "/v"));

    let mut n = Migration::from_v0(s("/v"), Platform::Unix);
    n.step_done();
    assert_eq!(n.next_step(), Some(MigrationStep::ListRoot { dir: s("/v") }));
    assert!(n.outcome().is_none());
    n.step_failed();
    assert!(matches!(n.outcome(), Some(Err(ErrorKind::ReadDirError { ref dir })) if dir == "/v"));
}

#[test]
fn marker_failure_is_reported() {
    let mut m = Migration::from_empty(s("/v"));
    m.step_done();
    assert_eq!(m.next_step(), Some(MigrationStep::WriteLayoutMarker { file: s("/v/layout.v1") }));
    m.step_failed();
    assert!(matches!(m.outcome(), Some(Err(ErrorKind::CreateLayoutFileError { ref file })) if file == "/v/layout.v1"));
}

#[test]
fn deletion_failure_names_the_file() {
    let mut m = Migration::from_v0(s("/v"), Platform::Unix);
    m.step_done();
    m.root_listed(&vec![file("load.sh")]);
    assert_eq!(m.next_step(), Some(MigrationStep::DeleteFile { file: s("/v/load.sh") }));
    m.step_failed();
    assert!(matches!(m.outcome(), Some(Err(ErrorKind::DeleteFileError { ref file })) if file == "/v/load.sh"));
}

#[test]
fn file_stem_matches_std() {
    for name in ["load.sh", "load", ".load", "load.tar.gz", "..", "a.", ".", "x.y.z", ""] {
        let expected = std::path::Path::new(name)
            .file_stem()
            .map(|s| s.to_str().unwrap().to_string())
            .unwrap_or_else(|| name.to_string());
        if name.is_empty() || name == "." || name == ".." {
            // std gives no stem for paths without a file name
            continue;
        }
        assert_eq!(file_stem_of(name), expected, "stem of {:?}", name);
    }
    assert_eq!(file_stem_of(".."), "..");
}

#[test]
fn load_scripts_are_files_with_stem_load() {
    assert!(is_load_script(&file("load.sh")));
    assert!(is_load_script(&file("load")));
    assert!(!is_load_script(&dir("load.sh")));
    assert!(!is_load_script(&file("loader.sh")));
    assert!(!is_load_script(&file("load.tar.gz")));
}

#[test]
fn layout_directories_start_at_root() {
    let home = VoltaHome::new(s("/v"));
    let dirs = home.directories();
    assert_eq!(dirs[0], "/v");
    assert!(dirs.contains(&s("/v/tools/inventory/packages")));
    assert!(dirs.contains(&s("/v/cache/node")));
    let v1 = V1::new(s("/v"));
    assert_eq!(v1.home, home);
}

#[test]
fn v0_on_windows_only_creates_and_marks() {
    let mut m = Migration::from_v0(s("C:/v"), Platform::Windows);
    let steps = run_all(&mut m, &vec![file("load.sh")]);
    assert_eq!(steps.len(), 2);
    assert!(matches!(steps[0], MigrationStep::CreateLayout { .. }));
    assert_eq!(steps[1], MigrationStep::WriteLayoutMarker { file: s("C:/v/layout.v1") });
}

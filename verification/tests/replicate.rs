use std::collections::BTreeMap;
use venv_bootstrap::replicate::copy_dir_all;
use venv_bootstrap::replicate::CopyAction;
use venv_bootstrap::replicate::CopyEvent;
use venv_bootstrap::replicate::CopyPhase;
use venv_bootstrap::replicate::CopyState;
use venv_bootstrap::replicate::DirEntry;
use venv_bootstrap::replicate::FilesystemError;
use venv_bootstrap::replicate::Task;

/// A file system in memory: a path holds a directory (`None`) or a file with
/// its bytes.
type Disk = BTreeMap<String, Option<Vec<u8>>>;

fn listing_of(disk: &Disk, dir: &str) -> Option<Vec<DirEntry>> {
    match disk.get(dir) {
        Some(None) => {}
        _ => return None,
    }
    let prefix = format!("{}/", dir);
    let mut entries = Vec::new();
    for (path, node) in disk.iter() {
        if let Some(name) = path.strip_prefix(&prefix) {
            if !name.contains('/') {
                entries.push(DirEntry { name: name.to_string(), is_dir: node.is_none() });
            }
        }
    }
    Some(entries)
}

fn replicate(disk: &mut Disk, src: &str, dst: &str, log: &mut Vec<String>) -> CopyAction {
    let mut state = CopyState::new();
    let mut event = CopyEvent::Begin;
    for _ in 0..1000 {
        let (next, action) = copy_dir_all(src, dst, state, event);
        state = next;
        event = match action {
            CopyAction::CreateDir { path } => {
                log.push(format!("mkdir {}", path));
                match disk.get(&path) {
                    Some(Some(_)) => CopyEvent::DirCreated(Err("is a file".to_string())),
                    _ => {
                        disk.insert(path, None);
                        CopyEvent::DirCreated(Ok(()))
                    }
                }
            }
            CopyAction::ListDir { path } => {
                log.push(format!("list {}", path));
                match listing_of(disk, &path) {
                    Some(entries) => CopyEvent::Listed(Ok(entries)),
                    None => CopyEvent::Listed(Err("no such directory".to_string())),
                }
            }
            CopyAction::CopyFile { from, to } => {
                log.push(format!("copy {} {}", from, to));
                match disk.get(&from).cloned() {
                    Some(Some(bytes)) => {
                        disk.insert(to, Some(bytes));
                        CopyEvent::Copied(Ok(()))
                    }
                    _ => CopyEvent::Copied(Err("cannot read".to_string())),
                }
            }
            other => return other,
        };
    }
    panic!("the replication did not end");
}

fn below(disk: &Disk, root: &str) -> BTreeMap<String, Option<Vec<u8>>> {
    let prefix = format!("{}/", root);
    let mut found = BTreeMap::new();
    for (path, node) in disk.iter() {
        if let Some(rest) = path.strip_prefix(&prefix) {
            found.insert(rest.to_string(), node.clone());
        }
    }
    found
}

fn sample() -> Disk {
    let mut disk = Disk::new();
    disk.insert("src".to_string(), None);
    disk.insert("src/a".to_string(), None);
    disk.insert("src/a/b.txt".to_string(), Some(b"hi".to_vec()));
    disk.insert("src/a/c".to_string(), None);
    disk.insert("src/a/c/d.txt".to_string(), Some(b"x".to_vec()));
    disk
}

#[test]
fn copy_tree_gives_the_same_paths_and_bytes() {
    let mut disk = sample();
    let mut log = Vec::new();
    assert_eq!(replicate(&mut disk, "src", "dst", &mut log), CopyAction::Done);
    assert_eq!(below(&disk, "dst"), below(&disk, "src"));
    assert_eq!(disk.get("dst/a/b.txt"), Some(&Some(b"hi".to_vec())));
    assert_eq!(disk.get("dst/a/c/d.txt"), Some(&Some(b"x".to_vec())));
    assert_eq!(below(&disk, "dst").len(), 4);
}

#[test]
fn copy_tree_goes_depth_first_in_listing_order() {
    let mut disk = sample();
    disk.insert("src/a/c/e".to_string(), None);
    disk.insert("src/z.txt".to_string(), Some(b"z".to_vec()));
    let mut log = Vec::new();
    assert_eq!(replicate(&mut disk, "src", "dst", &mut log), CopyAction::Done);
    assert_eq!(
        log,
        vec![
            "mkdir dst",
            "list src",
            "mkdir dst/a",
            "list src/a",
            "copy src/a/b.txt dst/a/b.txt",
            "mkdir dst/a/c",
            "list src/a/c",
            "copy src/a/c/d.txt dst/a/c/d.txt",
            "mkdir dst/a/c/e",
            "list src/a/c/e",
            "copy src/z.txt dst/z.txt",
        ]
    );
    assert_eq!(below(&disk, "dst"), below(&disk, "src"));
}

#[test]
fn copy_tree_of_an_empty_directory_creates_it() {
    let mut disk = Disk::new();
    disk.insert("empty".to_string(), None);
    let mut log = Vec::new();
    assert_eq!(replicate(&mut disk, "empty", "out/deep", &mut log), CopyAction::Done);
    assert_eq!(log, vec!["mkdir out/deep", "list empty"]);
    assert_eq!(disk.get("out/deep"), Some(&None));
}

#[test]
fn copy_tree_into_an_existing_directory_adds_to_it() {
    let mut disk = sample();
    disk.insert("dst".to_string(), None);
    disk.insert("dst/kept.txt".to_string(), Some(b"kept".to_vec()));
    let mut log = Vec::new();
    assert_eq!(replicate(&mut disk, "src", "dst", &mut log), CopyAction::Done);
    assert_eq!(disk.get("dst/kept.txt"), Some(&Some(b"kept".to_vec())));
    assert_eq!(disk.get("dst/a/b.txt"), Some(&Some(b"hi".to_vec())));
}

#[test]
fn copy_tree_of_a_missing_source_names_it() {
    let mut disk = Disk::new();
    let mut log = Vec::new();
    assert_eq!(
        replicate(&mut disk, "nowhere", "dst", &mut log),
        CopyAction::Fail(FilesystemError {
            path: "nowhere".to_string(),
            detail: "no such directory".to_string(),
        })
    );
}

#[test]
fn copy_tree_stops_at_the_first_failure_and_keeps_what_was_copied() {
    let mut disk = sample();
    disk.insert("dst".to_string(), None);
    disk.insert("dst/a".to_string(), None);
    disk.insert("dst/a/c".to_string(), Some(b"in the way".to_vec()));
    let mut log = Vec::new();
    assert_eq!(
        replicate(&mut disk, "src", "dst", &mut log),
        CopyAction::Fail(FilesystemError {
            path: "dst/a/c".to_string(),
            detail: "is a file".to_string(),
        })
    );
    assert_eq!(disk.get("dst/a/b.txt"), Some(&Some(b"hi".to_vec())));
    assert_eq!(disk.get("dst/a/c/d.txt"), None);
}

#[test]
fn copy_failure_names_the_source_file() {
    let state = CopyState {
        phase: CopyPhase::Copying,
        from: "src/f".to_string(),
        to: "dst/f".to_string(),
        pending: vec![Task { from: "src/g".to_string(), to: "dst/g".to_string(), is_dir: false }],
    };
    let (state, action) =
        copy_dir_all("src", "dst", state, CopyEvent::Copied(Err("unreadable".to_string())));
    assert_eq!(state, CopyState::finished());
    assert_eq!(
        action,
        CopyAction::Fail(FilesystemError {
            path: "src/f".to_string(),
            detail: "unreadable".to_string(),
        })
    );
}

#[test]
fn copy_starts_with_the_destination_directory() {
    let (state, action) = copy_dir_all("src", "dst", CopyState::new(), CopyEvent::Begin);
    assert_eq!(
        state,
        CopyState {
            phase: CopyPhase::Creating,
            from: "src".to_string(),
            to: "dst".to_string(),
            pending: vec![],
        }
    );
    assert_eq!(action, CopyAction::CreateDir { path: "dst".to_string() });
}

#[test]
fn copy_stacks_the_entries_of_a_listing() {
    let state = CopyState {
        phase: CopyPhase::Listing,
        from: "src".to_string(),
        to: "dst".to_string(),
        pending: vec![Task { from: "w".to_string(), to: "v".to_string(), is_dir: true }],
    };
    let entries = vec![
        DirEntry { name: "one".to_string(), is_dir: false },
        DirEntry { name: "two".to_string(), is_dir: true },
        DirEntry { name: "three".to_string(), is_dir: false },
    ];
    let (state, action) = copy_dir_all("src", "dst", state, CopyEvent::Listed(Ok(entries)));
    assert_eq!(
        action,
        CopyAction::CopyFile { from: "src/one".to_string(), to: "dst/one".to_string() }
    );
    assert_eq!(
        state,
        CopyState {
            phase: CopyPhase::Copying,
            from: "src/one".to_string(),
            to: "dst/one".to_string(),
            pending: vec![
                Task { from: "w".to_string(), to: "v".to_string(), is_dir: true },
                Task { from: "src/three".to_string(), to: "dst/three".to_string(), is_dir: false },
                Task { from: "src/two".to_string(), to: "dst/two".to_string(), is_dir: true },
            ],
        }
    );
}

#[test]
fn copy_answers_an_event_out_of_turn() {
    let (state, action) =
        copy_dir_all("src", "dst", CopyState::new(), CopyEvent::Copied(Ok(())));
    assert_eq!(state, CopyState::new());
    assert_eq!(action, CopyAction::OutOfTurn);
    let (state, action) = copy_dir_all("src", "dst", CopyState::finished(), CopyEvent::Begin);
    assert_eq!(state, CopyState::finished());
    assert_eq!(action, CopyAction::OutOfTurn);
}

use std::collections::BTreeMap;
use std::collections::BTreeSet;
use venv_bootstrap::entry_points::Entry;
use venv_bootstrap::entry_points::EntryPointTable;
use venv_bootstrap::entry_points::ParseError;
use venv_bootstrap::entry_points::Section;
use venv_bootstrap::install::base_packages;
use venv_bootstrap::install::entry_points_file;
use venv_bootstrap::install::install_base_packages;
use venv_bootstrap::install::install_with_parsed;
use venv_bootstrap::install::unpacked_wheel_dir;
use venv_bootstrap::install::InstallAction;
use venv_bootstrap::install::InstallError;
use venv_bootstrap::install::InstallEvent;
use venv_bootstrap::install::InstallPhase;
use venv_bootstrap::install::InstallState;
use venv_bootstrap::install::InstallTarget;
use venv_bootstrap::install::Package;
use venv_bootstrap::install::ENTRY_POINTS_FILE;
use venv_bootstrap::install::LAUNCHER_MODE;
use venv_bootstrap::install::WHEEL_DATA_PREFIX;
use venv_bootstrap::install::WHEEL_TAG;
use venv_bootstrap::launcher::unix_launcher_script;
use venv_bootstrap::replicate::copy_dir_all;
use venv_bootstrap::replicate::CopyAction;
use venv_bootstrap::replicate::CopyEvent;
use venv_bootstrap::replicate::CopyState;
use venv_bootstrap::replicate::DirEntry;
use venv_bootstrap::replicate::FilesystemError;

const PIP_TREE: &str = "/data/virtualenv/wheel/3.11/image/1/CopyPipInstall/pip-23.2.1-py3-none-any";
const SETUPTOOLS_TREE: &str =
    "/data/virtualenv/wheel/3.11/image/1/CopyPipInstall/setuptools-68.2.2-py3-none-any";
const WHEEL_TREE: &str =
    "/data/virtualenv/wheel/3.11/image/1/CopyPipInstall/wheel-0.41.2-py3-none-any";

/// A machine in memory: a path holds a directory (`None`) or a file with its
/// bytes, and some files are marked executable.
struct Machine {
    disk: BTreeMap<String, Option<Vec<u8>>>,
    executable: BTreeSet<String>,
    data_dir: Option<String>,
    executable_bits: bool,
    read_only_bin: bool,
}

fn machine() -> Machine {
    Machine {
        disk: BTreeMap::new(),
        executable: BTreeSet::new(),
        data_dir: Some("/data".to_string()),
        executable_bits: true,
        read_only_bin: false,
    }
}

fn target() -> InstallTarget {
    InstallTarget {
        bin_dir: "/venv/bin".to_string(),
        venv_python: "/venv/bin/python".to_string(),
        site_packages: "/venv/lib/python3.11/site-packages".to_string(),
    }
}

fn text(entry: &str) -> Option<Vec<u8>> {
    Some(entry.as_bytes().to_vec())
}

fn add_package(machine: &mut Machine, tree: &str, dist_info: &str, entry_points: Option<&str>) {
    machine.disk.insert(tree.to_string(), None);
    machine.disk.insert(format!("{}/{}", tree, dist_info), None);
    machine.disk.insert(format!("{}/{}/METADATA", tree, dist_info), text("Metadata-Version: 2.1\n"));
    if let Some(entries) = entry_points {
        machine.disk.insert(format!("{}/{}/entry_points.txt", tree, dist_info), text(entries));
    }
}

fn listing_of(machine: &Machine, dir: &str) -> Option<Vec<DirEntry>> {
    match machine.disk.get(dir) {
        Some(None) => {}
        _ => return None,
    }
    let prefix = format!("{}/", dir);
    let mut entries = Vec::new();
    for (path, node) in machine.disk.iter() {
        if let Some(name) = path.strip_prefix(&prefix) {
            if !name.contains('/') {
                entries.push(DirEntry { name: name.to_string(), is_dir: node.is_none() });
            }
        }
    }
    Some(entries)
}

fn replicate(machine: &mut Machine, src: &str, dst: &str) -> Result<(), FilesystemError> {
    let mut state = CopyState::new();
    let mut event = CopyEvent::Begin;
    for _ in 0..1000 {
        let (next, action) = copy_dir_all(src, dst, state, event);
        state = next;
        event = match action {
            CopyAction::CreateDir { path } => {
                machine.disk.insert(path, None);
                CopyEvent::DirCreated(Ok(()))
            }
            CopyAction::ListDir { path } => match listing_of(machine, &path) {
                Some(entries) => CopyEvent::Listed(Ok(entries)),
                None => CopyEvent::Listed(Err("no such directory".to_string())),
            },
            CopyAction::CopyFile { from, to } => match machine.disk.get(&from).cloned() {
                Some(Some(bytes)) => {
                    machine.disk.insert(to, Some(bytes));
                    CopyEvent::Copied(Ok(()))
                }
                _ => CopyEvent::Copied(Err("cannot read".to_string())),
            },
            CopyAction::Done => return Ok(()),
            CopyAction::Fail(error) => return Err(error),
            CopyAction::OutOfTurn => panic!("out of turn"),
        };
    }
    panic!("the replication did not end");
}

fn install(machine: &mut Machine) -> Result<(), InstallError> {
    let target = target();
    let mut state = InstallState::new();
    let mut event = InstallEvent::Begin {
        data_dir: machine.data_dir.clone(),
        executable_bits: machine.executable_bits,
    };
    for _ in 0..1000 {
        let (next, action) = install_base_packages(&target, state, event);
        state = next;
        event = match action {
            InstallAction::CopyTree { from, to } => {
                InstallEvent::Copied(replicate(machine, &from, &to))
            }
            InstallAction::ReadMetadata { path } => match machine.disk.get(&path) {
                Some(Some(bytes)) => {
                    InstallEvent::MetadataRead(Ok(String::from_utf8(bytes.clone()).unwrap()))
                }
                _ => InstallEvent::MetadataRead(Err("no such file".to_string())),
            },
            InstallAction::WriteLauncher { path, script } => {
                if machine.read_only_bin {
                    InstallEvent::Written(Err("read-only file system".to_string()))
                } else {
                    machine.disk.insert(path, Some(script.into_bytes()));
                    InstallEvent::Written(Ok(()))
                }
            }
            InstallAction::MarkExecutable { path, mode } => {
                assert!(machine.executable_bits);
                assert_eq!(mode, 0o755);
                machine.executable.insert(path);
                InstallEvent::Marked(Ok(()))
            }
            InstallAction::Done => return Ok(()),
            InstallAction::Fail(error) => return Err(error),
            InstallAction::OutOfTurn => panic!("out of turn"),
        };
    }
    panic!("the installation did not end");
}

fn full_machine() -> Machine {
    let mut machine = machine();
    add_package(
        &mut machine,
        PIP_TREE,
        "pip-23.2.1.dist-info",
        Some("[console_scripts]\npip = pip._internal.cli.main:main\npip3 = pip._internal.cli.main:main\n"),
    );
    add_package(
        &mut machine,
        SETUPTOOLS_TREE,
        "setuptools-68.2.2.dist-info",
        Some("[distutils.commands]\nalias = setuptools.command.alias:alias\n"),
    );
    add_package(
        &mut machine,
        WHEEL_TREE,
        "wheel-0.41.2.dist-info",
        Some("[console_scripts]\nwheel = wheel.cli:main\n"),
    );
    machine
}

fn file_text(machine: &Machine, path: &str) -> String {
    match machine.disk.get(path) {
        Some(Some(bytes)) => String::from_utf8(bytes.clone()).unwrap(),
        other => panic!("no file at {}: {:?}", path, other),
    }
}

fn reading(package: usize) -> InstallState {
    InstallState {
        phase: InstallPhase::Reading,
        data_dir: "/data".to_string(),
        executable_bits: true,
        package,
        entries: vec![],
        entry: 0,
    }
}

fn entry(key: &str, value: Option<&str>) -> Entry {
    Entry { key: key.to_string(), value: value.map(|text| text.to_string()) }
}

fn scripts(entries: Vec<Entry>) -> EntryPointTable {
    EntryPointTable { sections: vec![Section { name: "console_scripts".to_string(), entries }] }
}

#[test]
fn installer_writes_an_executable_pip_launcher() {
    let mut machine = machine();
    add_package(
        &mut machine,
        PIP_TREE,
        "pip-23.2.1.dist-info",
        Some("[console_scripts]\npip = pip._internal.cli.main:main\n"),
    );
    let outcome = install(&mut machine);
    let launcher = file_text(&machine, "/venv/bin/pip");
    assert!(launcher.contains("pip._internal.cli.main"));
    assert!(launcher.contains("main"));
    assert_eq!(
        launcher,
        unix_launcher_script("/venv/bin/python", "pip._internal.cli.main", "main")
    );
    assert!(machine.executable.contains("/venv/bin/pip"));
    assert_eq!(
        file_text(&machine, "/venv/lib/python3.11/site-packages/pip-23.2.1.dist-info/METADATA"),
        "Metadata-Version: 2.1\n"
    );
    assert_eq!(
        outcome,
        Err(InstallError::MissingData {
            path: SETUPTOOLS_TREE.to_string(),
            detail: "no such directory".to_string(),
        })
    );
}

#[test]
fn installer_installs_every_base_package() {
    let mut machine = full_machine();
    assert_eq!(install(&mut machine), Ok(()));
    for command in ["pip", "pip3", "wheel"] {
        let path = format!("/venv/bin/{}", command);
        assert!(machine.executable.contains(&path));
        assert!(file_text(&machine, &path).starts_with("#!/venv/bin/python\n"));
    }
    assert!(file_text(&machine, "/venv/bin/wheel").contains("\nfrom wheel.cli import main\n"));
    assert_eq!(machine.executable.len(), 3);
    for dist_info in ["pip-23.2.1", "setuptools-68.2.2", "wheel-0.41.2"] {
        let path =
            format!("/venv/lib/python3.11/site-packages/{}.dist-info/entry_points.txt", dist_info);
        assert!(machine.disk.contains_key(&path));
    }
}

#[test]
fn installer_marks_nothing_without_executable_bits() {
    let mut machine = full_machine();
    machine.executable_bits = false;
    assert_eq!(install(&mut machine), Ok(()));
    assert!(machine.executable.is_empty());
    assert!(machine.disk.contains_key("/venv/bin/pip"));
    assert!(machine.disk.contains_key("/venv/bin/wheel"));
}

#[test]
fn installer_overwrites_an_old_launcher() {
    let mut machine = full_machine();
    machine.disk.insert("/venv/bin/wheel".to_string(), text("old"));
    assert_eq!(install(&mut machine), Ok(()));
    assert_eq!(
        file_text(&machine, "/venv/bin/wheel"),
        unix_launcher_script("/venv/bin/python", "wheel.cli", "main")
    );
}

#[test]
fn installer_rejects_an_entry_without_colon() {
    let mut machine = machine();
    add_package(
        &mut machine,
        PIP_TREE,
        "pip-23.2.1.dist-info",
        Some("[console_scripts]\nfoo = pkgmod\n"),
    );
    assert_eq!(
        install(&mut machine),
        Err(InstallError::MalformedEntryPoint {
            package: "pip".to_string(),
            key: "foo".to_string(),
            value: Some("pkgmod".to_string()),
        })
    );
    assert!(!machine.disk.contains_key("/venv/bin/foo"));
}

#[test]
fn installer_rejects_an_entry_without_value() {
    let mut machine = machine();
    add_package(
        &mut machine,
        PIP_TREE,
        "pip-23.2.1.dist-info",
        Some("[console_scripts]\nfoo\n"),
    );
    assert_eq!(
        install(&mut machine),
        Err(InstallError::MalformedEntryPoint {
            package: "pip".to_string(),
            key: "foo".to_string(),
            value: None,
        })
    );
}

#[test]
fn installer_fails_without_a_data_directory() {
    let mut machine = full_machine();
    machine.data_dir = None;
    assert_eq!(install(&mut machine), Err(InstallError::NoDataDir));
    assert!(!machine.disk.contains_key("/venv/bin/pip"));
}

#[test]
fn installer_fails_on_a_missing_unpacked_wheel() {
    let mut machine = machine();
    assert_eq!(
        install(&mut machine),
        Err(InstallError::MissingData {
            path: PIP_TREE.to_string(),
            detail: "no such directory".to_string(),
        })
    );
}

#[test]
fn installer_fails_on_missing_metadata() {
    let mut machine = machine();
    add_package(&mut machine, PIP_TREE, "pip-23.2.1.dist-info", None);
    assert_eq!(
        install(&mut machine),
        Err(InstallError::MissingMetadata {
            package: "pip".to_string(),
            path: "/venv/lib/python3.11/site-packages/pip-23.2.1.dist-info/entry_points.txt"
                .to_string(),
            detail: "no such file".to_string(),
        })
    );
}

#[test]
fn installer_fails_on_malformed_metadata() {
    let mut machine = machine();
    add_package(
        &mut machine,
        PIP_TREE,
        "pip-23.2.1.dist-info",
        Some("[console_scripts\npip = pip:main\n"),
    );
    match install(&mut machine) {
        Err(InstallError::Parse(ParseError { package, detail })) => {
            assert_eq!(package, "pip");
            assert!(!detail.is_empty());
        }
        other => panic!("unexpected: {:?}", other),
    }
}

#[test]
fn installer_fails_when_a_launcher_cannot_be_written() {
    let mut machine = full_machine();
    machine.read_only_bin = true;
    match install(&mut machine) {
        Err(InstallError::Filesystem(FilesystemError { path, detail })) => {
            assert!(path == "/venv/bin/pip" || path == "/venv/bin/pip3");
            assert_eq!(detail, "read-only file system");
        }
        other => panic!("unexpected: {:?}", other),
    }
}

#[test]
fn installer_keeps_earlier_packages_after_a_failure() {
    let mut machine = full_machine();
    machine.disk.remove(&format!("{}/wheel-0.41.2.dist-info/entry_points.txt", WHEEL_TREE));
    match install(&mut machine) {
        Err(InstallError::MissingMetadata { package, .. }) => assert_eq!(package, "wheel"),
        other => panic!("unexpected: {:?}", other),
    }
    assert!(machine.disk.contains_key("/venv/bin/pip"));
    assert!(machine
        .disk
        .contains_key("/venv/lib/python3.11/site-packages/wheel-0.41.2.dist-info/METADATA"));
    assert!(!machine.disk.contains_key("/venv/bin/wheel"));
}

#[test]
fn copy_failure_below_the_wheel_is_a_filesystem_error() {
    let state = InstallState {
        phase: InstallPhase::Copying,
        data_dir: "/data".to_string(),
        executable_bits: true,
        package: 0,
        entries: vec![],
        entry: 0,
    };
    let error = FilesystemError {
        path: format!("{}/pip/__init__.py", PIP_TREE),
        detail: "permission denied".to_string(),
    };
    let same = FilesystemError {
        path: format!("{}/pip/__init__.py", PIP_TREE),
        detail: "permission denied".to_string(),
    };
    let (state, action) = install_base_packages(&target(), state, InstallEvent::Copied(Err(error)));
    assert_eq!(state.phase, InstallPhase::Finished);
    assert_eq!(action, InstallAction::Fail(InstallError::Filesystem(same)));
}

#[test]
fn install_begins_with_the_copy_of_pip() {
    let (state, action) = install_base_packages(
        &target(),
        InstallState::new(),
        InstallEvent::Begin { data_dir: Some("/data".to_string()), executable_bits: false },
    );
    assert_eq!(
        state,
        InstallState {
            phase: InstallPhase::Copying,
            data_dir: "/data".to_string(),
            executable_bits: false,
            package: 0,
            entries: vec![],
            entry: 0,
        }
    );
    assert_eq!(
        action,
        InstallAction::CopyTree {
            from: PIP_TREE.to_string(),
            to: "/venv/lib/python3.11/site-packages".to_string(),
        }
    );
}

#[test]
fn install_reads_the_metadata_after_the_copy() {
    let state = InstallState {
        phase: InstallPhase::Copying,
        data_dir: "/data".to_string(),
        executable_bits: true,
        package: 1,
        entries: vec![],
        entry: 0,
    };
    let (state, action) = install_base_packages(&target(), state, InstallEvent::Copied(Ok(())));
    assert_eq!(state.phase, InstallPhase::Reading);
    assert_eq!(state.package, 1);
    assert_eq!(
        action,
        InstallAction::ReadMetadata {
            path: "/venv/lib/python3.11/site-packages/setuptools-68.2.2.dist-info/entry_points.txt"
                .to_string(),
        }
    );
}

#[test]
fn install_with_parsed_writes_launchers_in_table_order() {
    let table = scripts(vec![entry("b", Some("mod.b:run")), entry("a", Some("mod.a:go"))]);
    let (state, action) = install_with_parsed(&target(), reading(0), Ok(table));
    assert_eq!(state.phase, InstallPhase::Writing);
    assert_eq!(state.entry, 0);
    assert_eq!(
        action,
        InstallAction::WriteLauncher {
            path: "/venv/bin/b".to_string(),
            script: unix_launcher_script("/venv/bin/python", "mod.b", "run"),
        }
    );
    let (state, action) = install_base_packages(&target(), state, InstallEvent::Written(Ok(())));
    assert_eq!(state.phase, InstallPhase::Marking);
    assert_eq!(action, InstallAction::MarkExecutable { path: "/venv/bin/b".to_string(), mode: 0o755 });
    let (state, action) = install_base_packages(&target(), state, InstallEvent::Marked(Ok(())));
    assert_eq!(state.phase, InstallPhase::Writing);
    assert_eq!(state.entry, 1);
    assert_eq!(
        action,
        InstallAction::WriteLauncher {
            path: "/venv/bin/a".to_string(),
            script: unix_launcher_script("/venv/bin/python", "mod.a", "go"),
        }
    );
    let (state, action) = install_base_packages(&target(), state, InstallEvent::Written(Ok(())));
    assert_eq!(action, InstallAction::MarkExecutable { path: "/venv/bin/a".to_string(), mode: 0o755 });
    let (state, action) = install_base_packages(&target(), state, InstallEvent::Marked(Ok(())));
    assert_eq!(state.phase, InstallPhase::Copying);
    assert_eq!(state.package, 1);
    assert_eq!(
        action,
        InstallAction::CopyTree {
            from: SETUPTOOLS_TREE.to_string(),
            to: "/venv/lib/python3.11/site-packages".to_string(),
        }
    );
}

#[test]
fn install_with_parsed_fails_after_earlier_launchers() {
    let table = scripts(vec![entry("good", Some("mod:run")), entry("bad", Some("nocolon"))]);
    let (state, action) = install_with_parsed(&target(), reading(2), Ok(table));
    assert!(matches!(action, InstallAction::WriteLauncher { .. }));
    let (state, _) = install_base_packages(&target(), state, InstallEvent::Written(Ok(())));
    let (state, action) = install_base_packages(&target(), state, InstallEvent::Marked(Ok(())));
    assert_eq!(state.phase, InstallPhase::Finished);
    assert_eq!(
        action,
        InstallAction::Fail(InstallError::MalformedEntryPoint {
            package: "wheel".to_string(),
            key: "bad".to_string(),
            value: Some("nocolon".to_string()),
        })
    );
}

#[test]
fn install_with_parsed_ends_after_the_last_package() {
    let table = EntryPointTable { sections: vec![] };
    let (state, action) = install_with_parsed(&target(), reading(2), Ok(table));
    assert_eq!(state.phase, InstallPhase::Finished);
    assert_eq!(action, InstallAction::Done);
}

#[test]
fn install_with_parsed_passes_the_parse_error_on() {
    let error = ParseError { package: "pip".to_string(), detail: "line 1: bad".to_string() };
    let same = ParseError { package: "pip".to_string(), detail: "line 1: bad".to_string() };
    let (state, action) = install_with_parsed(&target(), reading(0), Err(error));
    assert_eq!(state.phase, InstallPhase::Finished);
    assert_eq!(action, InstallAction::Fail(InstallError::Parse(same)));
}

#[test]
fn install_with_parsed_out_of_turn_changes_nothing() {
    let (state, action) =
        install_with_parsed(&target(), InstallState::new(), Ok(scripts(vec![])));
    assert_eq!(state, InstallState::new());
    assert_eq!(action, InstallAction::OutOfTurn);
    let (state, action) = install_with_parsed(&target(), reading(3), Ok(scripts(vec![])));
    assert_eq!(state, reading(3));
    assert_eq!(action, InstallAction::OutOfTurn);
}

#[test]
fn install_answers_an_event_out_of_turn() {
    let (state, action) =
        install_base_packages(&target(), InstallState::new(), InstallEvent::Copied(Ok(())));
    assert_eq!(state, InstallState::new());
    assert_eq!(action, InstallAction::OutOfTurn);
    let (state, action) = install_base_packages(
        &target(),
        reading(0),
        InstallEvent::Begin { data_dir: None, executable_bits: true },
    );
    assert_eq!(state, reading(0));
    assert_eq!(action, InstallAction::OutOfTurn);
    let (state, action) = install_base_packages(
        &target(),
        reading(7),
        InstallEvent::MetadataRead(Ok("[console_scripts]\n".to_string())),
    );
    assert_eq!(state, reading(7));
    assert_eq!(action, InstallAction::OutOfTurn);
}

#[test]
fn base_packages_are_the_fixed_three() {
    assert_eq!(
        base_packages(),
        vec![
            Package { name: "pip".to_string(), version: "23.2.1".to_string() },
            Package { name: "setuptools".to_string(), version: "68.2.2".to_string() },
            Package { name: "wheel".to_string(), version: "0.41.2".to_string() },
        ]
    );
}

#[test]
fn unpacked_wheel_lies_below_the_data_directory() {
    let pip = Package { name: "pip".to_string(), version: "23.2.1".to_string() };
    assert_eq!(unpacked_wheel_dir("/data", &pip), PIP_TREE);
    assert_eq!(
        unpacked_wheel_dir("share", &pip),
        "share/virtualenv/wheel/3.11/image/1/CopyPipInstall/pip-23.2.1-py3-none-any"
    );
}

#[test]
fn entry_points_file_lies_in_the_dist_info_directory() {
    let wheel = Package { name: "wheel".to_string(), version: "0.41.2".to_string() };
    assert_eq!(
        entry_points_file("/venv/site-packages", &wheel),
        "/venv/site-packages/wheel-0.41.2.dist-info/entry_points.txt"
    );
}

#[test]
fn install_constants_have_their_values() {
    assert_eq!(WHEEL_DATA_PREFIX, "virtualenv/wheel/3.11/image/1/CopyPipInstall/");
    assert_eq!(WHEEL_TAG, "py3-none-any");
    assert_eq!(ENTRY_POINTS_FILE, "entry_points.txt");
    assert_eq!(LAUNCHER_MODE, 0o755);
}

#[test]
fn install_errors_have_their_texts() {
    assert_eq!(InstallError::NoDataDir.message(), "Couldn't get data dir");
    assert_eq!(
        InstallError::MissingData { path: "/data/x".to_string(), detail: "gone".to_string() }
            .message(),
        "The unpacked wheel /data/x is missing: gone"
    );
    assert_eq!(
        InstallError::Filesystem(FilesystemError {
            path: "/venv/bin/pip".to_string(),
            detail: "denied".to_string(),
        })
        .message(),
        "/venv/bin/pip: denied"
    );
    assert_eq!(
        InstallError::MissingMetadata {
            package: "pip".to_string(),
            path: "/sp/pip-23.2.1.dist-info/entry_points.txt".to_string(),
            detail: "no such file".to_string(),
        }
        .message(),
        "pip should have an entry_points.txt at /sp/pip-23.2.1.dist-info/entry_points.txt: no such file"
    );
    assert_eq!(
        InstallError::Parse(ParseError {
            package: "pip".to_string(),
            detail: "line 1: bad".to_string(),
        })
        .message(),
        "pip entry_points.txt is invalid: line 1: bad"
    );
    assert_eq!(
        InstallError::MalformedEntryPoint {
            package: "pip".to_string(),
            key: "foo".to_string(),
            value: Some("pkgmod".to_string()),
        }
        .message(),
        "pip entry_points.txt foo has an invalid value pkgmod"
    );
    assert_eq!(
        InstallError::MalformedEntryPoint {
            package: "pip".to_string(),
            key: "foo".to_string(),
            value: None,
        }
        .message(),
        "pip entry_points.txt foo has no value"
    );
}

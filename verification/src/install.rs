//! Installation of the base packages into a fresh virtual environment.
//!
//! Each base package is copied from its unpacked wheel in the data directory
//! into the environment's package directory; then its entry-point file is
//! read, and one launcher is written, and marked executable, for each console
//! script it declares. The packages are installed one after the other, and
//! the first failure ends the work: what was installed until then stays.
//!
//! The installer decides which operation comes next; the caller performs it
//! and reports the outcome.

use vstd::prelude::*;
use vstd::string::StringExecFns;
use crate::entry_points::console_scripts;
use crate::entry_points::entry_point;
use crate::entry_points::entry_point_of;
use crate::entry_points::ini_parse;
use crate::entry_points::lemma_target_splits_at_first_colon;
use crate::entry_points::parse_entry_points;
use crate::entry_points::parse_error_text;
use crate::entry_points::text_of;
use crate::entry_points::Entry;
use crate::entry_points::EntryPointTable;
use crate::entry_points::EntryView;
use crate::entry_points::ParseError;
use crate::entry_points::ParseErrorView;
use crate::entry_points::TableView;
use crate::entry_points::CONSOLE_SCRIPTS;
use crate::launcher::launcher_text;
use crate::launcher::unix_launcher_script;
use crate::paths::join;
use crate::paths::path_join;
use crate::replicate::filesystem_error_text;
use crate::replicate::outcome_view;
use crate::replicate::FilesystemError;
use crate::replicate::FilesystemErrorView;
use crate::text::same_text;

verus! {

/// Where the unpacked wheels lie, below the data directory.
pub const WHEEL_DATA_PREFIX: &'static str = "virtualenv/wheel/3.11/image/1/CopyPipInstall/";

/// The compatibility tag of the wheels of the base packages.
pub const WHEEL_TAG: &'static str = "py3-none-any";

/// The permission bits of a launcher: all for its owner, read and execute
/// for group and others.
pub const LAUNCHER_MODE: u32 = 0o755;

/// The name of the entry-point file in a package's metadata directory.
pub const ENTRY_POINTS_FILE: &'static str = "entry_points.txt";

/// A package of the base set.
#[derive(Debug, PartialEq, Eq)]
pub struct Package {
    pub name: String,
    pub version: String,
}

/// The directories of the environment to install into.
#[derive(Debug, PartialEq, Eq)]
pub struct InstallTarget {
    /// Where the launchers go.
    pub bin_dir: String,
    /// The environment's interpreter, which the launchers name.
    pub venv_python: String,
    /// Where the packages go.
    pub site_packages: String,
}

/// Why the base packages could not be installed.
#[derive(Debug, PartialEq, Eq)]
pub enum InstallError {
    /// The platform names no data directory.
    NoDataDir,
    /// The unpacked wheel at `path` is absent or cannot be read.
    MissingData { path: String, detail: String },
    /// Copying a package, or writing or marking a launcher, failed.
    Filesystem(FilesystemError),
    /// The entry-point file of `package` at `path` could not be read.
    MissingMetadata { package: String, path: String, detail: String },
    /// The entry-point file is not well-formed.
    Parse(ParseError),
    /// The console script `key` of `package` names no `module:function`:
    /// it has no value, or the value that is given holds no `:`.
    MalformedEntryPoint { package: String, key: String, value: Option<String> },
}

/// What the installer is waiting for.
#[derive(Debug, Clone, Copy, PartialEq, Eq, Structural)]
pub enum InstallPhase {
    /// Nothing was requested yet.
    Start,
    /// The copy of the current package.
    Copying,
    /// The text of the current package's entry-point file.
    Reading,
    /// The writing of the current launcher.
    Writing,
    /// The marking of the current launcher as executable.
    Marking,
    /// Nothing: the work has ended.
    Finished,
}

/// Where an installation stands.
#[derive(Debug, PartialEq, Eq)]
pub struct InstallState {
    pub phase: InstallPhase,
    /// The data directory that holds the unpacked wheels.
    pub data_dir: String,
    /// Whether launchers are to be marked executable.
    pub executable_bits: bool,
    /// The position of the current package among the base packages.
    pub package: usize,
    /// The console scripts of the current package.
    pub entries: Vec<Entry>,
    /// The position of the current console script among them.
    pub entry: usize,
}

/// The outcome of the operation that was requested last.
#[derive(Debug, PartialEq, Eq)]
pub enum InstallEvent {
    /// The data directory, if the platform names one, and whether the
    /// platform has execute permission bits.
    Begin { data_dir: Option<String>, executable_bits: bool },
    Copied(Result<(), FilesystemError>),
    /// The text of the entry-point file.
    MetadataRead(Result<String, String>),
    Written(Result<(), String>),
    Marked(Result<(), String>),
}

/// The operation to perform next, or the end of the work.
#[derive(Debug, PartialEq, Eq)]
pub enum InstallAction {
    /// Replicate the directory `from` to `to`.
    CopyTree { from: String, to: String },
    /// Read the file at `path` as text.
    ReadMetadata { path: String },
    /// Write `script` to the file at `path`, replacing what is there.
    WriteLauncher { path: String, script: String },
    /// Set the permission bits of the file at `path` to `mode`, which lets
    /// owner, group and others execute it.
    MarkExecutable { path: String, mode: u32 },
    /// Every base package is installed.
    Done,
    /// The installation has failed; what was installed so far stays.
    Fail(InstallError),
    /// The event does not answer what was requested; nothing has changed.
    OutOfTurn,
}

pub struct PackageView {
    pub name: Seq<char>,
    pub version: Seq<char>,
}

pub struct InstallTargetView {
    pub bin_dir: Seq<char>,
    pub venv_python: Seq<char>,
    pub site_packages: Seq<char>,
}

pub enum InstallErrorView {
    NoDataDir,
    MissingData { path: Seq<char>, detail: Seq<char> },
    Filesystem(FilesystemErrorView),
    MissingMetadata { package: Seq<char>, path: Seq<char>, detail: Seq<char> },
    Parse(ParseErrorView),
    MalformedEntryPoint { package: Seq<char>, key: Seq<char>, value: Option<Seq<char>> },
}

pub struct InstallStateView {
    pub phase: InstallPhase,
    pub data_dir: Seq<char>,
    pub executable_bits: bool,
    pub package: nat,
    pub entries: Seq<EntryView>,
    pub entry: nat,
}

pub enum InstallEventView {
    Begin { data_dir: Option<Seq<char>>, executable_bits: bool },
    Copied(Result<(), FilesystemErrorView>),
    MetadataRead(Result<Seq<char>, Seq<char>>),
    Written(Result<(), Seq<char>>),
    Marked(Result<(), Seq<char>>),
}

pub enum InstallActionView {
    CopyTree { from: Seq<char>, to: Seq<char> },
    ReadMetadata { path: Seq<char> },
    WriteLauncher { path: Seq<char>, script: Seq<char> },
    MarkExecutable { path: Seq<char>, mode: u32 },
    Done,
    Fail(InstallErrorView),
    OutOfTurn,
}

impl View for Package {
    type V = PackageView;

    open spec fn view(&self) -> PackageView {
        PackageView { name: self.name@, version: self.version@ }
    }
}

impl DeepView for Package {
    type V = PackageView;

    open spec fn deep_view(&self) -> PackageView {
        self@
    }
}

impl View for InstallTarget {
    type V = InstallTargetView;

    open spec fn view(&self) -> InstallTargetView {
        InstallTargetView {
            bin_dir: self.bin_dir@,
            venv_python: self.venv_python@,
            site_packages: self.site_packages@,
        }
    }
}

impl View for InstallError {
    type V = InstallErrorView;

    open spec fn view(&self) -> InstallErrorView {
        match *self {
            InstallError::NoDataDir => InstallErrorView::NoDataDir,
            InstallError::MissingData { path, detail } => InstallErrorView::MissingData {
                path: path@,
                detail: detail@,
            },
            InstallError::Filesystem(error) => InstallErrorView::Filesystem(error@),
            InstallError::MissingMetadata {
                package,
                path,
                detail,
            } => InstallErrorView::MissingMetadata {
                package: package@,
                path: path@,
                detail: detail@,
            },
            InstallError::Parse(error) => InstallErrorView::Parse(error@),
            InstallError::MalformedEntryPoint {
                package,
                key,
                value,
            } => InstallErrorView::MalformedEntryPoint {
                package: package@,
                key: key@,
                value: text_of(value),
            },
        }
    }
}

impl View for InstallState {
    type V = InstallStateView;

    open spec fn view(&self) -> InstallStateView {
        InstallStateView {
            phase: self.phase,
            data_dir: self.data_dir@,
            executable_bits: self.executable_bits,
            package: self.package as nat,
            entries: self.entries.deep_view(),
            entry: self.entry as nat,
        }
    }
}

impl View for InstallEvent {
    type V = InstallEventView;

    open spec fn view(&self) -> InstallEventView {
        match *self {
            InstallEvent::Begin {
                data_dir: Some(dir),
                executable_bits,
            } => InstallEventView::Begin { data_dir: Some(dir@), executable_bits },
            InstallEvent::Begin { data_dir: None, executable_bits } => InstallEventView::Begin {
                data_dir: None,
                executable_bits,
            },
            InstallEvent::Copied(Ok(_)) => InstallEventView::Copied(Ok(())),
            InstallEvent::Copied(Err(error)) => InstallEventView::Copied(Err(error@)),
            InstallEvent::MetadataRead(Ok(text)) => InstallEventView::MetadataRead(Ok(text@)),
            InstallEvent::MetadataRead(Err(detail)) => InstallEventView::MetadataRead(Err(detail@)),
            InstallEvent::Written(outcome) => InstallEventView::Written(outcome_view(outcome)),
            InstallEvent::Marked(outcome) => InstallEventView::Marked(outcome_view(outcome)),
        }
    }
}

impl View for InstallAction {
    type V = InstallActionView;

    open spec fn view(&self) -> InstallActionView {
        match *self {
            InstallAction::CopyTree { from, to } => InstallActionView::CopyTree {
                from: from@,
                to: to@,
            },
            InstallAction::ReadMetadata { path } => InstallActionView::ReadMetadata { path: path@ },
            InstallAction::WriteLauncher { path, script } => InstallActionView::WriteLauncher {
                path: path@,
                script: script@,
            },
            InstallAction::MarkExecutable { path, mode } => InstallActionView::MarkExecutable {
                path: path@,
                mode,
            },
            InstallAction::Done => InstallActionView::Done,
            InstallAction::Fail(error) => InstallActionView::Fail(error@),
            InstallAction::OutOfTurn => InstallActionView::OutOfTurn,
        }
    }
}

/// The text of an installation error.
pub open spec fn install_error_text(error: InstallErrorView) -> Seq<char> {
    match error {
        InstallErrorView::NoDataDir => "Couldn't get data dir"@,
        InstallErrorView::MissingData { path, detail } => "The unpacked wheel "@ + path
            + " is missing: "@ + detail,
        InstallErrorView::Filesystem(error) => filesystem_error_text(error),
        InstallErrorView::MissingMetadata { package, path, detail } => package
            + " should have an entry_points.txt at "@ + path + ": "@ + detail,
        InstallErrorView::Parse(error) => parse_error_text(error),
        InstallErrorView::MalformedEntryPoint { package, key, value } => match value {
            Some(value) => package + " entry_points.txt "@ + key + " has an invalid value "@
                + value,
            None => package + " entry_points.txt "@ + key + " has no value"@,
        },
    }
}

impl InstallError {
    /// The error as one line of text.
    pub fn message(&self) -> (text: String)
        ensures
            text@ == install_error_text(self@),
    {
        match self {
            InstallError::NoDataDir => String::from_str("Couldn't get data dir"),
            InstallError::MissingData { path, detail } => {
                let mut text = String::from_str("The unpacked wheel ");
                text.append(path.as_str());
                text.append(" is missing: ");
                text.append(detail.as_str());
                text
            },
            InstallError::Filesystem(error) => error.message(),
            InstallError::MissingMetadata { package, path, detail } => {
                let mut text = package.clone();
                text.append(" should have an entry_points.txt at ");
                text.append(path.as_str());
                text.append(": ");
                text.append(detail.as_str());
                text
            },
            InstallError::Parse(error) => error.message(),
            InstallError::MalformedEntryPoint { package, key, value } => {
                let mut text = package.clone();
                text.append(" entry_points.txt ");
                text.append(key.as_str());
                match value {
                    Some(value) => {
                        text.append(" has an invalid value ");
                        text.append(value.as_str());
                    },
                    None => {
                        text.append(" has no value");
                    },
                }
                text
            },
        }
    }
}

/// The base packages, in the order in which they are installed.
pub open spec fn base_packages_view() -> Seq<PackageView> {
    seq![
        PackageView { name: "pip"@, version: "23.2.1"@ },
        PackageView { name: "setuptools"@, version: "68.2.2"@ },
        PackageView { name: "wheel"@, version: "0.41.2"@ },
    ]
}

/// The name of the directory of a package's unpacked wheel.
pub open spec fn unpacked_name(package: PackageView) -> Seq<char> {
    package.name + "-"@ + package.version + "-"@ + WHEEL_TAG@
}

/// The directory of a package's unpacked wheel, below the data directory.
pub open spec fn unpacked_wheel(data_dir: Seq<char>, package: PackageView) -> Seq<char> {
    path_join(path_join(data_dir, WHEEL_DATA_PREFIX@), unpacked_name(package))
}

/// The name of a package's metadata directory.
pub open spec fn dist_info_name(package: PackageView) -> Seq<char> {
    package.name + "-"@ + package.version + ".dist-info"@
}

/// The entry-point file of an installed package.
pub open spec fn entry_points_path(site_packages: Seq<char>, package: PackageView) -> Seq<char> {
    path_join(path_join(site_packages, dist_info_name(package)), ENTRY_POINTS_FILE@)
}

/// The state before anything was requested, and after the work has ended.
pub open spec fn install_idle(phase: InstallPhase) -> InstallStateView {
    InstallStateView {
        phase,
        data_dir: Seq::empty(),
        executable_bits: false,
        package: 0,
        entries: Seq::empty(),
        entry: 0,
    }
}

/// The end of the work on a failure.
pub open spec fn install_failed(error: InstallErrorView) -> (InstallStateView, InstallActionView) {
    (install_idle(InstallPhase::Finished), InstallActionView::Fail(error))
}

/// Turns to the package at `index`: requests its copy, or ends the work if
/// every package is installed.
pub open spec fn begin_package(
    target: InstallTargetView,
    state: InstallStateView,
    index: nat,
) -> (InstallStateView, InstallActionView) {
    if index >= base_packages_view().len() {
        (install_idle(InstallPhase::Finished), InstallActionView::Done)
    } else {
        (
            InstallStateView {
                phase: InstallPhase::Copying,
                package: index,
                entries: Seq::empty(),
                entry: 0,
                ..state
            },
            InstallActionView::CopyTree {
                from: unpacked_wheel(state.data_dir, base_packages_view()[index as int]),
                to: target.site_packages,
            },
        )
    }
}

/// Turns to the console script at `index` of the current package: requests
/// its launcher, fails if it names no target, or turns to the next package
/// if every console script has its launcher.
pub open spec fn begin_launcher(
    target: InstallTargetView,
    state: InstallStateView,
    index: nat,
) -> (InstallStateView, InstallActionView) {
    if index >= state.entries.len() {
        begin_package(target, state, state.package + 1)
    } else {
        match entry_point_of(state.entries[index as int]) {
            Some(script) => (
                InstallStateView { phase: InstallPhase::Writing, entry: index, ..state },
                InstallActionView::WriteLauncher {
                    path: path_join(target.bin_dir, script.command_name),
                    script: launcher_text(target.venv_python, script.module, script.function),
                },
            ),
            None => install_failed(
                InstallErrorView::MalformedEntryPoint {
                    package: base_packages_view()[state.package as int].name,
                    key: state.entries[index as int].key,
                    value: state.entries[index as int].value,
                },
            ),
        }
    }
}

/// What follows the reading of the current package's entry-point file, given
/// what the parser made of it: the first launcher of its console scripts, or
/// the failure. In a state that waits for no such file nothing changes.
pub open spec fn with_parsed(
    target: InstallTargetView,
    state: InstallStateView,
    parsed: Result<TableView, ParseErrorView>,
) -> (InstallStateView, InstallActionView) {
    if state.phase != InstallPhase::Reading || state.package >= base_packages_view().len() {
        (state, InstallActionView::OutOfTurn)
    } else {
        match parsed {
            Ok(table) => begin_launcher(
                target,
                InstallStateView { entries: table.entries_of(CONSOLE_SCRIPTS@), ..state },
                0,
            ),
            Err(error) => install_failed(InstallErrorView::Parse(error)),
        }
    }
}

/// Whether `event` answers the operation that `state` waits for.
pub open spec fn in_turn(state: InstallStateView, event: InstallEventView) -> bool {
    match (state.phase, event) {
        (InstallPhase::Start, InstallEventView::Begin { .. }) => true,
        (InstallPhase::Copying, InstallEventView::Copied(_)) => state.package
            < base_packages_view().len(),
        (InstallPhase::Reading, InstallEventView::MetadataRead(_)) => state.package
            < base_packages_view().len(),
        (InstallPhase::Writing, InstallEventView::Written(_)) => state.package
            < base_packages_view().len() && state.entry < state.entries.len(),
        (InstallPhase::Marking, InstallEventView::Marked(_)) => state.package
            < base_packages_view().len() && state.entry < state.entries.len(),
        _ => false,
    }
}

/// Whether `parsed` is what the parser makes of the text that `event` brings
/// in its turn: the table, each section and key once, or the parser's
/// complaint with the name of the current package. Of any other event it
/// says nothing.
pub open spec fn parsed_from(
    state: InstallStateView,
    event: InstallEventView,
    parsed: Result<TableView, ParseErrorView>,
) -> bool {
    in_turn(state, event) ==> (event matches InstallEventView::MetadataRead(Ok(text))
        ==> match parsed {
        Ok(table) => table.wf() && ini_parse(text) == Ok::<_, Seq<char>>(table.as_map()),
        Err(error) => error.package == base_packages_view()[state.package as int].name
            && ini_parse(text) == Err::<Map<Seq<char>, Map<Seq<char>, Option<Seq<char>>>>, _>(
            error.detail,
        ),
    })
}

/// One step of the installation: the state and the operation that follow
/// `event` in `state`, where `parsed` is what the parser makes of the text
/// that the event brings, if it brings one.
pub open spec fn install_step(
    target: InstallTargetView,
    state: InstallStateView,
    event: InstallEventView,
    parsed: Result<TableView, ParseErrorView>,
) -> (InstallStateView, InstallActionView) {
    if !in_turn(state, event) {
        (state, InstallActionView::OutOfTurn)
    } else {
        let package = base_packages_view()[state.package as int];
        match event {
            InstallEventView::Begin { data_dir: None, .. } => install_failed(
                InstallErrorView::NoDataDir,
            ),
            InstallEventView::Begin { data_dir: Some(dir), executable_bits } => begin_package(
                target,
                InstallStateView { data_dir: dir, executable_bits, ..state },
                0,
            ),
            InstallEventView::Copied(Ok(_)) => (
                InstallStateView { phase: InstallPhase::Reading, ..state },
                InstallActionView::ReadMetadata {
                    path: entry_points_path(target.site_packages, package),
                },
            ),
            InstallEventView::Copied(Err(error)) => if error.path == unpacked_wheel(
                state.data_dir,
                package,
            ) {
                install_failed(
                    InstallErrorView::MissingData { path: error.path, detail: error.detail },
                )
            } else {
                install_failed(InstallErrorView::Filesystem(error))
            },
            InstallEventView::MetadataRead(Ok(_)) => with_parsed(target, state, parsed),
            InstallEventView::MetadataRead(Err(detail)) => install_failed(
                InstallErrorView::MissingMetadata {
                    package: package.name,
                    path: entry_points_path(target.site_packages, package),
                    detail,
                },
            ),
            InstallEventView::Written(Ok(_)) => if state.executable_bits {
                (
                    InstallStateView { phase: InstallPhase::Marking, ..state },
                    InstallActionView::MarkExecutable {
                        path: path_join(target.bin_dir, state.entries[state.entry as int].key),
                        mode: LAUNCHER_MODE,
                    },
                )
            } else {
                begin_launcher(target, state, state.entry + 1)
            },
            InstallEventView::Written(Err(detail)) => install_failed(
                InstallErrorView::Filesystem(
                    FilesystemErrorView {
                        path: path_join(target.bin_dir, state.entries[state.entry as int].key),
                        detail,
                    },
                ),
            ),
            InstallEventView::Marked(Ok(_)) => begin_launcher(target, state, state.entry + 1),
            InstallEventView::Marked(Err(detail)) => install_failed(
                InstallErrorView::Filesystem(
                    FilesystemErrorView {
                        path: path_join(target.bin_dir, state.entries[state.entry as int].key),
                        detail,
                    },
                ),
            ),
        }
    }
}

/// The view of what the parser made of a text.
pub open spec fn parsed_view(parsed: Result<EntryPointTable, ParseError>) -> Result<
    TableView,
    ParseErrorView,
> {
    match parsed {
        Ok(table) => Ok(table@),
        Err(error) => Err(error@),
    }
}

/// The base packages, in the order in which they are installed.
pub fn base_packages() -> (list: Vec<Package>)
    ensures
        list.deep_view() == base_packages_view(),
{
    let mut list: Vec<Package> = Vec::new();
    list.push(Package { name: String::from_str("pip"), version: String::from_str("23.2.1") });
    list.push(
        Package { name: String::from_str("setuptools"), version: String::from_str("68.2.2") },
    );
    list.push(Package { name: String::from_str("wheel"), version: String::from_str("0.41.2") });
    assert(list.deep_view() =~= base_packages_view());
    list
}

/// The directory of a package's unpacked wheel, below the data directory.
pub fn unpacked_wheel_dir(data_dir: &str, package: &Package) -> (path: String)
    ensures
        path@ == unpacked_wheel(data_dir@, package@),
{
    let mut name = package.name.clone();
    name.append("-");
    name.append(package.version.as_str());
    name.append("-");
    name.append(WHEEL_TAG);
    let prefix = join(data_dir, WHEEL_DATA_PREFIX);
    join(prefix.as_str(), name.as_str())
}

/// The entry-point file of an installed package.
pub fn entry_points_file(site_packages: &str, package: &Package) -> (path: String)
    ensures
        path@ == entry_points_path(site_packages@, package@),
{
    let mut name = package.name.clone();
    name.append("-");
    name.append(package.version.as_str());
    name.append(".dist-info");
    let dist_info = join(site_packages, name.as_str());
    join(dist_info.as_str(), ENTRY_POINTS_FILE)
}

impl InstallState {
    /// The state in which an installation starts.
    pub fn new() -> (state: InstallState)
        ensures
            state@ == install_idle(InstallPhase::Start),
    {
        InstallState::idle(InstallPhase::Start)
    }

    /// The state in `phase` that holds nothing.
    fn idle(phase: InstallPhase) -> (state: InstallState)
        ensures
            state@ == install_idle(phase),
    {
        let entries: Vec<Entry> = Vec::new();
        assert(entries.deep_view() =~= Seq::<EntryView>::empty());
        InstallState {
            phase,
            data_dir: String::new(),
            executable_bits: false,
            package: 0,
            entries,
            entry: 0,
        }
    }
}

/// Ends the work on a failure.
fn fail_install(error: InstallError) -> (step: (InstallState, InstallAction))
    ensures
        (step.0@, step.1@) == install_failed(error@),
{
    (InstallState::idle(InstallPhase::Finished), InstallAction::Fail(error))
}

/// Turns to the package at `index`.
fn start_package(
    target: &InstallTarget,
    state: InstallState,
    index: usize,
) -> (step: (InstallState, InstallAction))
    ensures
        (step.0@, step.1@) == begin_package(target@, state@, index as nat),
{
    let packages = base_packages();
    if index >= packages.len() {
        (InstallState::idle(InstallPhase::Finished), InstallAction::Done)
    } else {
        assert(packages.deep_view()[index as int] == packages[index as int]@);
        let from = unpacked_wheel_dir(state.data_dir.as_str(), &packages[index]);
        let entries: Vec<Entry> = Vec::new();
        assert(entries.deep_view() =~= Seq::<EntryView>::empty());
        (
            InstallState {
                phase: InstallPhase::Copying,
                data_dir: state.data_dir,
                executable_bits: state.executable_bits,
                package: index,
                entries,
                entry: 0,
            },
            InstallAction::CopyTree { from, to: target.site_packages.clone() },
        )
    }
}

/// Turns to the console script at `index` of the current package.
fn start_launcher(
    target: &InstallTarget,
    state: InstallState,
    index: usize,
) -> (step: (InstallState, InstallAction))
    requires
        state@.package < base_packages_view().len(),
    ensures
        (step.0@, step.1@) == begin_launcher(target@, state@, index as nat),
{
    if index >= state.entries.len() {
        let next = state.package + 1;
        start_package(target, state, next)
    } else {
        assert(state.entries.deep_view()[index as int] == state.entries[index as int]@);
        match entry_point(&state.entries[index]) {
            Some(script) => {
                let path = join(target.bin_dir.as_str(), script.command_name.as_str());
                let text = unix_launcher_script(
                    target.venv_python.as_str(),
                    script.module.as_str(),
                    script.function.as_str(),
                );
                (
                    InstallState {
                        phase: InstallPhase::Writing,
                        data_dir: state.data_dir,
                        executable_bits: state.executable_bits,
                        package: state.package,
                        entries: state.entries,
                        entry: index,
                    },
                    InstallAction::WriteLauncher { path, script: text },
                )
            },
            None => {
                let packages = base_packages();
                assert(packages.deep_view()[state.package as int] == packages[state.package as int]@);
                fail_install(
                    InstallError::MalformedEntryPoint {
                        package: packages[state.package].name.clone(),
                        key: state.entries[index].key.clone(),
                        value: state.entries[index].value.clone(),
                    },
                )
            },
        }
    }
}

/// What follows the reading of the current package's entry-point file, given
/// what the parser made of it. The console scripts get their launchers in
/// the order in which the table holds them; a table without a
/// `console_scripts` section declares none, which is no error.
pub fn install_with_parsed(
    target: &InstallTarget,
    state: InstallState,
    parsed: Result<EntryPointTable, ParseError>,
) -> (step: (InstallState, InstallAction))
    ensures
        (step.0@, step.1@) == with_parsed(target@, state@, parsed_view(parsed)),
{
    let packages = base_packages();
    match state.phase {
        InstallPhase::Reading => {},
        _ => {
            return (state, InstallAction::OutOfTurn);
        },
    }
    if state.package >= packages.len() {
        return (state, InstallAction::OutOfTurn);
    }
    match parsed {
        Ok(table) => {
            let entries = console_scripts(table);
            start_launcher(
                target,
                InstallState {
                    phase: state.phase,
                    data_dir: state.data_dir,
                    executable_bits: state.executable_bits,
                    package: state.package,
                    entries,
                    entry: state.entry,
                },
                0,
            )
        },
        Err(error) => fail_install(InstallError::Parse(error)),
    }
}

/// Whether `event` answers the operation that `state` waits for.
fn answers(state: &InstallState, event: &InstallEvent) -> (yes: bool)
    ensures
        yes == in_turn(state@, event@),
{
    let known = state.package < base_packages().len();
    let current = state.entry < state.entries.len();
    match (state.phase, event) {
        (InstallPhase::Start, InstallEvent::Begin { .. }) => true,
        (InstallPhase::Copying, InstallEvent::Copied(_)) => known,
        (InstallPhase::Reading, InstallEvent::MetadataRead(_)) => known,
        (InstallPhase::Writing, InstallEvent::Written(_)) => known && current,
        (InstallPhase::Marking, InstallEvent::Marked(_)) => known && current,
        (_, _) => false,
    }
}

/// The path of the launcher of the current console script.
fn current_launcher(target: &InstallTarget, state: &InstallState) -> (path: String)
    requires
        state@.entry < state@.entries.len(),
    ensures
        path@ == path_join(target@.bin_dir, state@.entries[state@.entry as int].key),
{
    assert(state.entries.deep_view()[state.entry as int] == state.entries[state.entry as int]@);
    join(target.bin_dir.as_str(), state.entries[state.entry].key.as_str())
}

/// One step of the installation of the base packages into `target`. The
/// caller starts with [`InstallState::new`] and `Begin`, performs each
/// operation that is handed back and reports its outcome, until the
/// operation is `Done` or `Fail`. An event that does not answer the
/// operation requested last changes nothing and is answered `OutOfTurn`.
///
/// The text of an entry-point file goes to the INI parser, and what follows
/// is what [`install_with_parsed`] makes of the parser's answer.
pub fn install_base_packages(
    target: &InstallTarget,
    state: InstallState,
    event: InstallEvent,
) -> (step: (InstallState, InstallAction))
    ensures
        exists|parsed: Result<TableView, ParseErrorView>|
            parsed_from(state@, event@, parsed) && (step.0@, step.1@) == #[trigger] install_step(
                target@,
                state@,
                event@,
                parsed,
            ),
{
    let ghost unread: Result<TableView, ParseErrorView> = Ok(TableView { sections: Seq::empty() });
    if !answers(&state, &event) {
        assert((state@, InstallActionView::OutOfTurn) == install_step(
            target@,
            state@,
            event@,
            unread,
        ));
        return (state, InstallAction::OutOfTurn);
    }
    let packages = base_packages();
    assert(state.entries.deep_view().len() == state.entries.len());
    match event {
        InstallEvent::Begin { data_dir: None, .. } => {
            assert(install_failed(InstallErrorView::NoDataDir) == install_step(
                target@,
                state@,
                event@,
                unread,
            ));
            fail_install(InstallError::NoDataDir)
        },
        InstallEvent::Begin { data_dir: Some(dir), executable_bits } => {
            let step = start_package(
                target,
                InstallState {
                    phase: state.phase,
                    data_dir: dir,
                    executable_bits,
                    package: state.package,
                    entries: state.entries,
                    entry: state.entry,
                },
                0,
            );
            assert((step.0@, step.1@) == install_step(target@, state@, event@, unread));
            step
        },
        InstallEvent::Copied(Ok(_)) => {
            assert(packages.deep_view()[state.package as int] == packages[state.package as int]@);
            let path = entry_points_file(target.site_packages.as_str(), &packages[state.package]);
            let step = (
                InstallState {
                    phase: InstallPhase::Reading,
                    data_dir: state.data_dir,
                    executable_bits: state.executable_bits,
                    package: state.package,
                    entries: state.entries,
                    entry: state.entry,
                },
                InstallAction::ReadMetadata { path },
            );
            assert((step.0@, step.1@) == install_step(target@, state@, event@, unread));
            step
        },
        InstallEvent::Copied(Err(error)) => {
            assert(packages.deep_view()[state.package as int] == packages[state.package as int]@);
            let from = unpacked_wheel_dir(state.data_dir.as_str(), &packages[state.package]);
            let step = if same_text(error.path.as_str(), from.as_str()) {
                fail_install(InstallError::MissingData { path: error.path, detail: error.detail })
            } else {
                fail_install(InstallError::Filesystem(error))
            };
            assert((step.0@, step.1@) == install_step(target@, state@, event@, unread));
            step
        },
        InstallEvent::MetadataRead(Ok(text)) => {
            assert(packages.deep_view()[state.package as int] == packages[state.package as int]@);
            let parsed = parse_entry_points(packages[state.package].name.as_str(), text.as_str());
            let ghost told = parsed_view(parsed);
            let step = install_with_parsed(target, state, parsed);
            assert(parsed_from(state@, event@, told));
            assert((step.0@, step.1@) == install_step(target@, state@, event@, told));
            step
        },
        InstallEvent::MetadataRead(Err(detail)) => {
            assert(packages.deep_view()[state.package as int] == packages[state.package as int]@);
            let path = entry_points_file(target.site_packages.as_str(), &packages[state.package]);
            let step = fail_install(
                InstallError::MissingMetadata {
                    package: packages[state.package].name.clone(),
                    path,
                    detail,
                },
            );
            assert((step.0@, step.1@) == install_step(target@, state@, event@, unread));
            step
        },
        InstallEvent::Written(Ok(_)) => {
            let step = if state.executable_bits {
                let path = current_launcher(target, &state);
                (
                    InstallState {
                        phase: InstallPhase::Marking,
                        data_dir: state.data_dir,
                        executable_bits: state.executable_bits,
                        package: state.package,
                        entries: state.entries,
                        entry: state.entry,
                    },
                    InstallAction::MarkExecutable { path, mode: LAUNCHER_MODE },
                )
            } else {
                let next = state.entry + 1;
                start_launcher(target, state, next)
            };
            assert((step.0@, step.1@) == install_step(target@, state@, event@, unread));
            step
        },
        InstallEvent::Written(Err(detail)) => {
            let path = current_launcher(target, &state);
            let step = fail_install(InstallError::Filesystem(FilesystemError { path, detail }));
            assert((step.0@, step.1@) == install_step(target@, state@, event@, unread));
            step
        },
        InstallEvent::Marked(Ok(_)) => {
            let next = state.entry + 1;
            let step = start_launcher(target, state, next);
            assert((step.0@, step.1@) == install_step(target@, state@, event@, unread));
            step
        },
        InstallEvent::Marked(Err(detail)) => {
            let path = current_launcher(target, &state);
            let step = fail_install(InstallError::Filesystem(FilesystemError { path, detail }));
            assert((step.0@, step.1@) == install_step(target@, state@, event@, unread));
            step
        },
    }
}

/// A console script that names no target is rejected: if its value is absent
/// or holds no `:`, turning to it ends the installation with the error that
/// names the package and the key, and no launcher is requested for it.
pub proof fn lemma_malformed_entry_rejected(
    target: InstallTargetView,
    state: InstallStateView,
    index: nat,
)
    requires
        index < state.entries.len(),
        match state.entries[index as int].value {
            Some(value) => !value.contains(':'),
            None => true,
        },
    ensures
        begin_launcher(target, state, index) == install_failed(
            InstallErrorView::MalformedEntryPoint {
                package: base_packages_view()[state.package as int].name,
                key: state.entries[index as int].key,
                value: state.entries[index as int].value,
            },
        ),
{
    let entry = state.entries[index as int];
    if entry.value is Some {
        lemma_target_splits_at_first_colon(entry.value->Some_0, Seq::empty(), Seq::empty());
    }
}

/// A console script `key = module:function` gets its launcher: the script
/// that runs `function` of `module` under the environment's interpreter, at
/// the path of `key` in the directory of the launchers.
pub proof fn lemma_entry_gets_launcher(
    target: InstallTargetView,
    state: InstallStateView,
    index: nat,
    module: Seq<char>,
    function: Seq<char>,
)
    requires
        index < state.entries.len(),
        state.entries[index as int].value == Some(module + seq![':'] + function),
        !module.contains(':'),
    ensures
        begin_launcher(target, state, index) == (
            InstallStateView { phase: InstallPhase::Writing, entry: index, ..state },
            InstallActionView::WriteLauncher {
                path: path_join(target.bin_dir, state.entries[index as int].key),
                script: launcher_text(target.venv_python, module, function),
            },
        ),
{
    lemma_target_splits_at_first_colon(module + seq![':'] + function, module, function);
}

/// A package that declares no console scripts gets no launcher, and that is
/// no error: when its entry-point file has no `console_scripts` section, the
/// installer turns to the next package.
pub proof fn lemma_no_console_scripts(
    target: InstallTargetView,
    state: InstallStateView,
    table: TableView,
)
    requires
        state.phase == InstallPhase::Reading,
        state.package < base_packages_view().len(),
        !table.has_section(CONSOLE_SCRIPTS@),
    ensures
        with_parsed(target, state, Ok(table)) == begin_package(
            target,
            InstallStateView { entries: Seq::empty(), ..state },
            state.package + 1,
        ),
{
    table.lemma_has_section(CONSOLE_SCRIPTS@);
}

/// An installation that has ended stays ended: whatever is reported then,
/// the state stays as it is and no operation is requested. So after the
/// first failure no further package is touched.
pub proof fn lemma_install_ends_for_good(
    target: InstallTargetView,
    event: InstallEventView,
    parsed: Result<TableView, ParseErrorView>,
)
    ensures
        install_step(target, install_idle(InstallPhase::Finished), event, parsed) == (
            install_idle(InstallPhase::Finished),
            InstallActionView::OutOfTurn,
        ),
{
}

/// Every failure ends the installation: a step that fails leaves the state
/// in which nothing more is done.
pub proof fn lemma_install_fails_fast(
    target: InstallTargetView,
    state: InstallStateView,
    event: InstallEventView,
    parsed: Result<TableView, ParseErrorView>,
)
    ensures
        install_step(target, state, event, parsed).1 is Fail ==> install_step(
            target,
            state,
            event,
            parsed,
        ).0 == install_idle(InstallPhase::Finished),
{
}

/// The packages are installed one after the other: a step requests the copy
/// of a package only at the start, for the first package, or once every
/// console script of the package before it has its launcher; and the
/// installation is done only after the last package.
pub proof fn lemma_packages_in_order(
    target: InstallTargetView,
    state: InstallStateView,
    event: InstallEventView,
    parsed: Result<TableView, ParseErrorView>,
)
    ensures
        ({
            let (next, action) = install_step(target, state, event, parsed);
            &&& action is CopyTree ==> next.package < base_packages_view().len() && action
                == (InstallActionView::CopyTree {
                from: unpacked_wheel(next.data_dir, base_packages_view()[next.package as int]),
                to: target.site_packages,
            })
            &&& action is CopyTree ==> if event is Begin {
                next.package == 0
            } else {
                next.package == state.package + 1
            }
            &&& action is Done ==> state.package + 1 == base_packages_view().len()
        }),
{
}

/// A launcher is marked executable only once it is written, and only where
/// the platform has execute permission bits: a step requests the marking
/// exactly when it answers, in its turn, the writing of that launcher there.
pub proof fn lemma_mark_follows_write(
    target: InstallTargetView,
    state: InstallStateView,
    event: InstallEventView,
    parsed: Result<TableView, ParseErrorView>,
)
    ensures
        install_step(target, state, event, parsed).1 is MarkExecutable <==> (in_turn(state, event)
            && state.executable_bits && (event matches InstallEventView::Written(Ok(_)))),
{
}

} // verus!

//! The wheel cache: one file per wheel under `wheels` in the cache directory,
//! keyed by file name alone.
//!
//! A wheel that is there is used as it is. One that is missing is streamed
//! into a temporary file in the same directory and moved to its place once
//! it is complete, so that the cached path never shows a partial file. The
//! cache decides which operation comes next; the caller performs it and
//! reports the outcome.

use vstd::prelude::*;
use vstd::string::StringExecFns;
use crate::paths::join;
use crate::paths::path_join;
use crate::replicate::filesystem_error_text;
use crate::replicate::outcome_view;
use crate::replicate::FilesystemError;
use crate::replicate::FilesystemErrorView;

verus! {

/// The directory of the wheels, below the cache directory.
pub const WHEELS_DIR: &'static str = "wheels";

/// Why a wheel could not be had.
#[derive(Debug, PartialEq, Eq)]
pub enum FetchError {
    /// The cache directory or the temporary file could not be created.
    Filesystem(FilesystemError),
    /// The transfer from `url` into the temporary file `temp` failed.
    Download { url: String, temp: String, detail: String },
    /// The complete temporary file could not be moved to `path`.
    Persist { path: String, detail: String },
}

/// What the cache is waiting for.
#[derive(Debug, Clone, Copy, PartialEq, Eq, Structural)]
pub enum FetchPhase {
    /// Nothing was requested yet.
    Start,
    /// Whether the wheel is cached.
    Probing,
    /// The creation of the directory of the wheels.
    CreatingDir,
    /// The creation of the temporary file.
    CreatingTemp,
    /// The transfer into the temporary file `temp`.
    Transferring,
    /// The move of the temporary file `temp` to the cached path.
    Persisting,
    /// Nothing: the work has ended.
    Finished,
}

/// Where a fetch stands.
#[derive(Debug, PartialEq, Eq)]
pub struct FetchState {
    pub phase: FetchPhase,
    /// The temporary file, once there is one; empty before and after.
    pub temp: String,
}

/// The outcome of the operation that was requested last.
#[derive(Debug, PartialEq, Eq)]
pub enum FetchEvent {
    Begin,
    /// Whether a regular file is at the probed path.
    Probed(bool),
    DirCreated(Result<(), String>),
    /// The path of the temporary file that was created.
    TempCreated(Result<String, String>),
    Transferred(Result<(), String>),
    Persisted(Result<(), String>),
}

/// The operation to perform next, or the end of the work.
#[derive(Debug, PartialEq, Eq)]
pub enum FetchAction {
    /// Say whether a regular file is at `path`.
    Probe { path: String },
    /// Create the directory and its missing parents.
    CreateDir { path: String },
    /// Create a temporary file in `dir`, removed again unless it is persisted.
    CreateTemp { dir: String },
    /// Stream what `url` serves into the temporary file `temp`.
    Transfer { url: String, temp: String },
    /// Move the temporary file `temp` to `path` in one step.
    Persist { temp: String, path: String },
    /// The wheel is at `path`.
    Done { path: String },
    /// The fetch has failed; nothing is at the cached path that was not there.
    Fail(FetchError),
    /// The event does not answer what was requested; nothing has changed.
    OutOfTurn,
}

pub enum FetchErrorView {
    Filesystem(FilesystemErrorView),
    Download { url: Seq<char>, temp: Seq<char>, detail: Seq<char> },
    Persist { path: Seq<char>, detail: Seq<char> },
}

pub struct FetchStateView {
    pub phase: FetchPhase,
    pub temp: Seq<char>,
}

pub enum FetchEventView {
    Begin,
    Probed(bool),
    DirCreated(Result<(), Seq<char>>),
    TempCreated(Result<Seq<char>, Seq<char>>),
    Transferred(Result<(), Seq<char>>),
    Persisted(Result<(), Seq<char>>),
}

pub enum FetchActionView {
    Probe { path: Seq<char> },
    CreateDir { path: Seq<char> },
    CreateTemp { dir: Seq<char> },
    Transfer { url: Seq<char>, temp: Seq<char> },
    Persist { temp: Seq<char>, path: Seq<char> },
    Done { path: Seq<char> },
    Fail(FetchErrorView),
    OutOfTurn,
}

impl View for FetchError {
    type V = FetchErrorView;

    open spec fn view(&self) -> FetchErrorView {
        match *self {
            FetchError::Filesystem(error) => FetchErrorView::Filesystem(error@),
            FetchError::Download { url, temp, detail } => FetchErrorView::Download {
                url: url@,
                temp: temp@,
                detail: detail@,
            },
            FetchError::Persist { path, detail } => FetchErrorView::Persist {
                path: path@,
                detail: detail@,
            },
        }
    }
}

impl View for FetchState {
    type V = FetchStateView;

    open spec fn view(&self) -> FetchStateView {
        FetchStateView { phase: self.phase, temp: self.temp@ }
    }
}

impl View for FetchEvent {
    type V = FetchEventView;

    open spec fn view(&self) -> FetchEventView {
        match *self {
            FetchEvent::Begin => FetchEventView::Begin,
            FetchEvent::Probed(is_file) => FetchEventView::Probed(is_file),
            FetchEvent::DirCreated(outcome) => FetchEventView::DirCreated(outcome_view(outcome)),
            FetchEvent::TempCreated(Ok(temp)) => FetchEventView::TempCreated(Ok(temp@)),
            FetchEvent::TempCreated(Err(detail)) => FetchEventView::TempCreated(Err(detail@)),
            FetchEvent::Transferred(outcome) => FetchEventView::Transferred(outcome_view(outcome)),
            FetchEvent::Persisted(outcome) => FetchEventView::Persisted(outcome_view(outcome)),
        }
    }
}

impl View for FetchAction {
    type V = FetchActionView;

    open spec fn view(&self) -> FetchActionView {
        match *self {
            FetchAction::Probe { path } => FetchActionView::Probe { path: path@ },
            FetchAction::CreateDir { path } => FetchActionView::CreateDir { path: path@ },
            FetchAction::CreateTemp { dir } => FetchActionView::CreateTemp { dir: dir@ },
            FetchAction::Transfer { url, temp } => FetchActionView::Transfer {
                url: url@,
                temp: temp@,
            },
            FetchAction::Persist { temp, path } => FetchActionView::Persist {
                temp: temp@,
                path: path@,
            },
            FetchAction::Done { path } => FetchActionView::Done { path: path@ },
            FetchAction::Fail(error) => FetchActionView::Fail(error@),
            FetchAction::OutOfTurn => FetchActionView::OutOfTurn,
        }
    }
}

/// The text of a fetch error.
pub open spec fn fetch_error_text(error: FetchErrorView) -> Seq<char> {
    match error {
        FetchErrorView::Filesystem(error) => filesystem_error_text(error),
        FetchErrorView::Download { url, temp, detail } => "Failed to download wheel from "@ + url
            + " to "@ + temp + ": "@ + detail,
        FetchErrorView::Persist { path, detail } => "Failed to persist tempfile to "@ + path
            + ": "@ + detail,
    }
}

impl FetchError {
    /// The error as one line of text.
    pub fn message(&self) -> (text: String)
        ensures
            text@ == fetch_error_text(self@),
    {
        match self {
            FetchError::Filesystem(error) => error.message(),
            FetchError::Download { url, temp, detail } => {
                let mut text = String::from_str("Failed to download wheel from ");
                text.append(url.as_str());
                text.append(" to ");
                text.append(temp.as_str());
                text.append(": ");
                text.append(detail.as_str());
                text
            },
            FetchError::Persist { path, detail } => {
                let mut text = String::from_str("Failed to persist tempfile to ");
                text.append(path.as_str());
                text.append(": ");
                text.append(detail.as_str());
                text
            },
        }
    }
}

/// The directory that holds the cached wheels.
pub open spec fn wheels_dir(cache_dir: Seq<char>) -> Seq<char> {
    path_join(cache_dir, WHEELS_DIR@)
}

/// The path at which the wheel of that file name is cached.
pub open spec fn cached_wheel(cache_dir: Seq<char>, filename: Seq<char>) -> Seq<char> {
    path_join(wheels_dir(cache_dir), filename)
}

/// The state before anything was requested.
pub open spec fn fetch_start() -> FetchStateView {
    FetchStateView { phase: FetchPhase::Start, temp: Seq::empty() }
}

/// The state in `phase` with no temporary file.
pub open spec fn fetch_in(phase: FetchPhase) -> FetchStateView {
    FetchStateView { phase, temp: Seq::empty() }
}

/// One step of the fetch of the wheel `filename` from `url`: the state and
/// the operation that follow `event` in `state`.
pub open spec fn fetch_step(
    cache_dir: Seq<char>,
    filename: Seq<char>,
    url: Seq<char>,
    state: FetchStateView,
    event: FetchEventView,
) -> (FetchStateView, FetchActionView) {
    let dir = wheels_dir(cache_dir);
    let path = cached_wheel(cache_dir, filename);
    match (state.phase, event) {
        (FetchPhase::Start, FetchEventView::Begin) => (
            fetch_in(FetchPhase::Probing),
            FetchActionView::Probe { path },
        ),
        (FetchPhase::Probing, FetchEventView::Probed(is_file)) => if is_file {
            (fetch_in(FetchPhase::Finished), FetchActionView::Done { path })
        } else {
            (fetch_in(FetchPhase::CreatingDir), FetchActionView::CreateDir { path: dir })
        },
        (FetchPhase::CreatingDir, FetchEventView::DirCreated(Ok(_))) => (
            fetch_in(FetchPhase::CreatingTemp),
            FetchActionView::CreateTemp { dir },
        ),
        (FetchPhase::CreatingDir, FetchEventView::DirCreated(Err(detail))) => (
            fetch_in(FetchPhase::Finished),
            FetchActionView::Fail(
                FetchErrorView::Filesystem(FilesystemErrorView { path: dir, detail }),
            ),
        ),
        (FetchPhase::CreatingTemp, FetchEventView::TempCreated(Ok(temp))) => (
            FetchStateView { phase: FetchPhase::Transferring, temp },
            FetchActionView::Transfer { url, temp },
        ),
        (FetchPhase::CreatingTemp, FetchEventView::TempCreated(Err(detail))) => (
            fetch_in(FetchPhase::Finished),
            FetchActionView::Fail(
                FetchErrorView::Filesystem(FilesystemErrorView { path: dir, detail }),
            ),
        ),
        (FetchPhase::Transferring, FetchEventView::Transferred(Ok(_))) => (
            FetchStateView { phase: FetchPhase::Persisting, temp: state.temp },
            FetchActionView::Persist { temp: state.temp, path },
        ),
        (FetchPhase::Transferring, FetchEventView::Transferred(Err(detail))) => (
            fetch_in(FetchPhase::Finished),
            FetchActionView::Fail(FetchErrorView::Download { url, temp: state.temp, detail }),
        ),
        (FetchPhase::Persisting, FetchEventView::Persisted(Ok(_))) => (
            fetch_in(FetchPhase::Finished),
            FetchActionView::Done { path },
        ),
        (FetchPhase::Persisting, FetchEventView::Persisted(Err(detail))) => (
            fetch_in(FetchPhase::Finished),
            FetchActionView::Fail(FetchErrorView::Persist { path, detail }),
        ),
        _ => (state, FetchActionView::OutOfTurn),
    }
}

/// The path at which the wheel of that file name is cached: the file name,
/// joined as it is to the directory of the wheels below `cache_dir`.
pub fn cached_wheel_path(cache_dir: &str, filename: &str) -> (path: String)
    ensures
        path@ == cached_wheel(cache_dir@, filename@),
{
    let dir = join(cache_dir, WHEELS_DIR);
    join(dir.as_str(), filename)
}

impl FetchState {
    /// The state in which a fetch starts.
    pub fn new() -> (state: FetchState)
        ensures
            state@ == fetch_start(),
    {
        FetchState { phase: FetchPhase::Start, temp: String::new() }
    }

    /// The state in `phase` with no temporary file.
    fn at(phase: FetchPhase) -> (state: FetchState)
        ensures
            state@ == fetch_in(phase),
    {
        FetchState { phase, temp: String::new() }
    }
}

/// One step of the fetch of the wheel `filename` from `url` into the cache
/// below `cache_dir`. The caller starts with [`FetchState::new`] and `Begin`,
/// performs each operation that is handed back and reports its outcome,
/// until the operation is `Done` or `Fail`. The file name is joined to the
/// directory of the wheels as it is. An event that does not answer the
/// operation requested last changes nothing and is answered `OutOfTurn`.
pub fn download_wheel_cached(
    cache_dir: &str,
    filename: &str,
    url: &str,
    state: FetchState,
    event: FetchEvent,
) -> (step: (FetchState, FetchAction))
    ensures
        (step.0@, step.1@) == fetch_step(cache_dir@, filename@, url@, state@, event@),
{
    let dir = join(cache_dir, WHEELS_DIR);
    match (state.phase, event) {
        (FetchPhase::Start, FetchEvent::Begin) => (
            FetchState::at(FetchPhase::Probing),
            FetchAction::Probe { path: cached_wheel_path(cache_dir, filename) },
        ),
        (FetchPhase::Probing, FetchEvent::Probed(is_file)) => {
            if is_file {
                (
                    FetchState::at(FetchPhase::Finished),
                    FetchAction::Done { path: cached_wheel_path(cache_dir, filename) },
                )
            } else {
                (FetchState::at(FetchPhase::CreatingDir), FetchAction::CreateDir { path: dir })
            }
        },
        (FetchPhase::CreatingDir, FetchEvent::DirCreated(Ok(_))) => (
            FetchState::at(FetchPhase::CreatingTemp),
            FetchAction::CreateTemp { dir },
        ),
        (FetchPhase::CreatingDir, FetchEvent::DirCreated(Err(detail))) => (
            FetchState::at(FetchPhase::Finished),
            FetchAction::Fail(FetchError::Filesystem(FilesystemError { path: dir, detail })),
        ),
        (FetchPhase::CreatingTemp, FetchEvent::TempCreated(Ok(temp))) => {
            let kept = temp.clone();
            (
                FetchState { phase: FetchPhase::Transferring, temp: kept },
                FetchAction::Transfer { url: String::from_str(url), temp },
            )
        },
        (FetchPhase::CreatingTemp, FetchEvent::TempCreated(Err(detail))) => (
            FetchState::at(FetchPhase::Finished),
            FetchAction::Fail(FetchError::Filesystem(FilesystemError { path: dir, detail })),
        ),
        (FetchPhase::Transferring, FetchEvent::Transferred(Ok(_))) => {
            let temp = state.temp.clone();
            (
                FetchState { phase: FetchPhase::Persisting, temp: state.temp },
                FetchAction::Persist { temp, path: cached_wheel_path(cache_dir, filename) },
            )
        },
        (FetchPhase::Transferring, FetchEvent::Transferred(Err(detail))) => (
            FetchState::at(FetchPhase::Finished),
            FetchAction::Fail(
                FetchError::Download { url: String::from_str(url), temp: state.temp, detail },
            ),
        ),
        (FetchPhase::Persisting, FetchEvent::Persisted(Ok(_))) => (
            FetchState::at(FetchPhase::Finished),
            FetchAction::Done { path: cached_wheel_path(cache_dir, filename) },
        ),
        (FetchPhase::Persisting, FetchEvent::Persisted(Err(detail))) => (
            FetchState::at(FetchPhase::Finished),
            FetchAction::Fail(
                FetchError::Persist { path: cached_wheel_path(cache_dir, filename), detail },
            ),
        ),
        (_, _) => (state, FetchAction::OutOfTurn),
    }
}

/// What the world outside answers to the operations of one fetch, the probe
/// apart, which is answered from the files that are there.
pub struct Answers {
    pub dir: Result<(), Seq<char>>,
    pub temp: Result<Seq<char>, Seq<char>>,
    pub transfer: Result<(), Seq<char>>,
    pub persist: Result<(), Seq<char>>,
}

/// How a fetch ended.
pub struct FetchRun {
    /// The number of transfers that were requested.
    pub transfers: nat,
    /// The paths at which a complete wheel is visible afterwards.
    pub files: Set<Seq<char>>,
    /// The operation that ended it.
    pub end: FetchActionView,
}

/// The event with which the world answers `action`, where `files` are the
/// paths at which a complete wheel is visible.
pub open spec fn answer_to(
    action: FetchActionView,
    files: Set<Seq<char>>,
    world: Answers,
) -> FetchEventView {
    match action {
        FetchActionView::Probe { path } => FetchEventView::Probed(files.contains(path)),
        FetchActionView::CreateDir { .. } => FetchEventView::DirCreated(world.dir),
        FetchActionView::CreateTemp { .. } => FetchEventView::TempCreated(world.temp),
        FetchActionView::Transfer { .. } => FetchEventView::Transferred(world.transfer),
        FetchActionView::Persist { .. } => FetchEventView::Persisted(world.persist),
        _ => FetchEventView::Begin,
    }
}

/// The paths at which a complete wheel is visible once `action` was
/// performed: a move that succeeds shows one at its destination, and nothing
/// else shows or hides any.
pub open spec fn files_after(
    action: FetchActionView,
    files: Set<Seq<char>>,
    world: Answers,
) -> Set<Seq<char>> {
    match action {
        FetchActionView::Persist { path, .. } => if world.persist is Ok {
            files.insert(path)
        } else {
            files
        },
        _ => files,
    }
}

/// Whether `action` ends a fetch.
pub open spec fn ends_fetch(action: FetchActionView) -> bool {
    action is Done || action is Fail || action is OutOfTurn
}

/// The fetch from `state` and `event` on, against a world that answers each
/// operation, for at most `steps` further operations.
pub open spec fn fetch_from(
    cache_dir: Seq<char>,
    filename: Seq<char>,
    url: Seq<char>,
    state: FetchStateView,
    event: FetchEventView,
    files: Set<Seq<char>>,
    world: Answers,
    steps: nat,
) -> FetchRun
    decreases steps,
{
    let (next, action) = fetch_step(cache_dir, filename, url, state, event);
    if ends_fetch(action) || steps == 0 {
        FetchRun { transfers: 0, files, end: action }
    } else {
        let rest = fetch_from(
            cache_dir,
            filename,
            url,
            next,
            answer_to(action, files, world),
            files_after(action, files, world),
            world,
            (steps - 1) as nat,
        );
        FetchRun {
            transfers: rest.transfers + if action is Transfer {
                1nat
            } else {
                0nat
            },
            ..rest
        }
    }
}

/// A whole fetch, from its start, against a world that answers each
/// operation. No fetch requests more than five operations before it ends.
pub open spec fn fetch(
    cache_dir: Seq<char>,
    filename: Seq<char>,
    url: Seq<char>,
    files: Set<Seq<char>>,
    world: Answers,
) -> FetchRun {
    fetch_from(cache_dir, filename, url, fetch_start(), FetchEventView::Begin, files, world, 5)
}

/// Every fetch ends, in `Done` with the cached path or in `Fail`. It ends in
/// `Done` exactly when the wheel is cached afterwards, and a fetch that
/// fails leaves the visible files as they were.
pub proof fn lemma_fetch_ends(
    cache_dir: Seq<char>,
    filename: Seq<char>,
    url: Seq<char>,
    files: Set<Seq<char>>,
    world: Answers,
)
    ensures
        ({
            let run = fetch(cache_dir, filename, url, files, world);
            let path = cached_wheel(cache_dir, filename);
            &&& run.end == (FetchActionView::Done { path }) || run.end is Fail
            &&& run.end is Done ==> run.files == files.insert(path)
            &&& run.end is Fail ==> run.files == files && !files.contains(path)
            &&& run.transfers <= 1
        }),
{
    reveal_with_fuel(fetch_from, 6);
    let path = cached_wheel(cache_dir, filename);
    if files.contains(path) {
        assert(files.insert(path) =~= files);
    }
}

/// A cached wheel is used as it is: the fetch ends in `Done` with the cached
/// path at once, requests no transfer and changes nothing.
pub proof fn lemma_fetch_hit(
    cache_dir: Seq<char>,
    filename: Seq<char>,
    url: Seq<char>,
    files: Set<Seq<char>>,
    world: Answers,
)
    requires
        files.contains(cached_wheel(cache_dir, filename)),
    ensures
        ({
            let run = fetch(cache_dir, filename, url, files, world);
            &&& run.end == (FetchActionView::Done { path: cached_wheel(cache_dir, filename) })
            &&& run.transfers == 0
            &&& run.files == files
        }),
{
    reveal_with_fuel(fetch_from, 6);
}

/// A wheel that is not cached is fetched with exactly one transfer, if the
/// fetch succeeds.
pub proof fn lemma_fetch_miss(
    cache_dir: Seq<char>,
    filename: Seq<char>,
    url: Seq<char>,
    files: Set<Seq<char>>,
    world: Answers,
)
    requires
        !files.contains(cached_wheel(cache_dir, filename)),
    ensures
        ({
            let run = fetch(cache_dir, filename, url, files, world);
            &&& run.end is Done <==> (world.dir is Ok && world.temp is Ok && world.transfer is Ok
                && world.persist is Ok)
            &&& run.end is Done ==> run.transfers == 1
        }),
{
    reveal_with_fuel(fetch_from, 6);
}

/// Fetching the same wheel twice transfers it at most once: after a fetch
/// that succeeded, a second fetch of the same file name ends in `Done` with
/// the same path and requests no transfer, whatever the world would answer
/// and whatever URL it is given.
pub proof fn lemma_fetch_twice(
    cache_dir: Seq<char>,
    filename: Seq<char>,
    url: Seq<char>,
    again: Seq<char>,
    files: Set<Seq<char>>,
    first_world: Answers,
    second_world: Answers,
)
    requires
        fetch(cache_dir, filename, url, files, first_world).end is Done,
    ensures
        ({
            let first = fetch(cache_dir, filename, url, files, first_world);
            let second = fetch(cache_dir, filename, again, first.files, second_world);
            &&& second.end == first.end
            &&& second.transfers == 0
            &&& second.files == first.files
            &&& first.transfers + second.transfers <= 1
            &&& !files.contains(cached_wheel(cache_dir, filename)) ==> first.transfers
                + second.transfers == 1
        }),
{
    lemma_fetch_ends(cache_dir, filename, url, files, first_world);
    let first = fetch(cache_dir, filename, url, files, first_world);
    lemma_fetch_hit(cache_dir, filename, again, first.files, second_world);
    if !files.contains(cached_wheel(cache_dir, filename)) {
        lemma_fetch_miss(cache_dir, filename, url, files, first_world);
    }
}

/// A transfer that is interrupted leaves nothing at the cached path: the
/// fetch of a wheel that is not cached then fails with the download error
/// that names the URL and the temporary file, requests no move, and no wheel
/// is visible at the cached path afterwards.
pub proof fn lemma_interrupted_transfer(
    cache_dir: Seq<char>,
    filename: Seq<char>,
    url: Seq<char>,
    files: Set<Seq<char>>,
    world: Answers,
)
    requires
        !files.contains(cached_wheel(cache_dir, filename)),
        world.dir is Ok,
        world.temp is Ok,
        world.transfer is Err,
    ensures
        ({
            let run = fetch(cache_dir, filename, url, files, world);
            &&& run.end == FetchActionView::Fail(
                FetchErrorView::Download {
                    url,
                    temp: world.temp->Ok_0,
                    detail: world.transfer->Err_0,
                },
            )
            &&& run.files == files
            &&& !run.files.contains(cached_wheel(cache_dir, filename))
        }),
{
    reveal_with_fuel(fetch_from, 6);
}

/// Only a transfer that succeeded is followed by a move to the cached path:
/// a step requests `Persist` exactly when it answers, in its turn, a
/// transfer that went well.
pub proof fn lemma_persist_follows_transfer(
    cache_dir: Seq<char>,
    filename: Seq<char>,
    url: Seq<char>,
    state: FetchStateView,
    event: FetchEventView,
)
    ensures
        fetch_step(cache_dir, filename, url, state, event).1 is Persist <==> (state.phase
            == FetchPhase::Transferring && event matches FetchEventView::Transferred(Ok(_))),
{
}

/// A fetch that has ended stays ended: whatever is reported then, the state
/// stays as it is and no operation is requested.
pub proof fn lemma_fetch_ends_for_good(
    cache_dir: Seq<char>,
    filename: Seq<char>,
    url: Seq<char>,
    event: FetchEventView,
)
    ensures
        fetch_step(cache_dir, filename, url, fetch_in(FetchPhase::Finished), event) == (
            fetch_in(FetchPhase::Finished),
            FetchActionView::OutOfTurn,
        ),
{
}

} // verus!

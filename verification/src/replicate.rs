//! Replication of a directory tree.
//!
//! The replicator decides which operation comes next; the caller creates
//! directories, lists them and copies files, and reports each outcome. A
//! directory is created before it is listed and listed before anything in it
//! is copied, and what a directory holds is replicated in the order of its
//! listing, each subdirectory completely before the entry after it.

use vstd::prelude::*;
use vstd::string::StringExecFns;
use crate::paths::join;
use crate::paths::path_join;

verus! {

/// One entry of a directory listing.
#[derive(Debug, PartialEq, Eq)]
pub struct DirEntry {
    pub name: String,
    pub is_dir: bool,
}

/// A path that is still to be replicated.
#[derive(Debug, PartialEq, Eq)]
pub struct Task {
    pub from: String,
    pub to: String,
    pub is_dir: bool,
}

/// A file-system operation failed.
#[derive(Debug, PartialEq, Eq)]
pub struct FilesystemError {
    /// The path on which it failed.
    pub path: String,
    /// What the operating system said.
    pub detail: String,
}

/// What the replicator is waiting for.
#[derive(Debug, Clone, Copy, PartialEq, Eq, Structural)]
pub enum CopyPhase {
    /// Nothing was requested yet.
    Start,
    /// The creation of the directory `to`.
    Creating,
    /// The listing of the directory `from`.
    Listing,
    /// The copy of the file `from` to `to`.
    Copying,
    /// Nothing: the work has ended.
    Finished,
}

/// Where a replication stands: the item in work, and below it those that
/// wait, the next one last.
#[derive(Debug, PartialEq, Eq)]
pub struct CopyState {
    pub phase: CopyPhase,
    pub from: String,
    pub to: String,
    pub pending: Vec<Task>,
}

/// The outcome of the operation that was requested last.
#[derive(Debug, PartialEq, Eq)]
pub enum CopyEvent {
    Begin,
    DirCreated(Result<(), String>),
    Listed(Result<Vec<DirEntry>, String>),
    Copied(Result<(), String>),
}

/// The operation to perform next, or the end of the work.
#[derive(Debug, PartialEq, Eq)]
pub enum CopyAction {
    /// Create the directory and its missing parents.
    CreateDir { path: String },
    /// List the directory and say of each entry whether it is a directory.
    ListDir { path: String },
    /// Copy the bytes of the file `from` to `to`.
    CopyFile { from: String, to: String },
    /// Everything was replicated.
    Done,
    /// The replication has failed; what was written so far stays.
    Fail(FilesystemError),
    /// The event does not answer what was requested; nothing has changed.
    OutOfTurn,
}

pub struct DirEntryView {
    pub name: Seq<char>,
    pub is_dir: bool,
}

pub struct TaskView {
    pub from: Seq<char>,
    pub to: Seq<char>,
    pub is_dir: bool,
}

pub struct FilesystemErrorView {
    pub path: Seq<char>,
    pub detail: Seq<char>,
}

pub struct CopyStateView {
    pub phase: CopyPhase,
    pub from: Seq<char>,
    pub to: Seq<char>,
    pub pending: Seq<TaskView>,
}

pub enum CopyEventView {
    Begin,
    DirCreated(Result<(), Seq<char>>),
    Listed(Result<Seq<DirEntryView>, Seq<char>>),
    Copied(Result<(), Seq<char>>),
}

pub enum CopyActionView {
    CreateDir { path: Seq<char> },
    ListDir { path: Seq<char> },
    CopyFile { from: Seq<char>, to: Seq<char> },
    Done,
    Fail(FilesystemErrorView),
    OutOfTurn,
}

/// The view of the outcome of an operation that hands nothing back.
pub open spec fn outcome_view(outcome: Result<(), String>) -> Result<(), Seq<char>> {
    match outcome {
        Ok(_) => Ok(()),
        Err(detail) => Err(detail@),
    }
}

impl View for DirEntry {
    type V = DirEntryView;

    open spec fn view(&self) -> DirEntryView {
        DirEntryView { name: self.name@, is_dir: self.is_dir }
    }
}

impl DeepView for DirEntry {
    type V = DirEntryView;

    open spec fn deep_view(&self) -> DirEntryView {
        self@
    }
}

impl View for Task {
    type V = TaskView;

    open spec fn view(&self) -> TaskView {
        TaskView { from: self.from@, to: self.to@, is_dir: self.is_dir }
    }
}

impl DeepView for Task {
    type V = TaskView;

    open spec fn deep_view(&self) -> TaskView {
        self@
    }
}

impl View for FilesystemError {
    type V = FilesystemErrorView;

    open spec fn view(&self) -> FilesystemErrorView {
        FilesystemErrorView { path: self.path@, detail: self.detail@ }
    }
}

impl View for CopyState {
    type V = CopyStateView;

    open spec fn view(&self) -> CopyStateView {
        CopyStateView {
            phase: self.phase,
            from: self.from@,
            to: self.to@,
            pending: self.pending.deep_view(),
        }
    }
}

impl View for CopyEvent {
    type V = CopyEventView;

    open spec fn view(&self) -> CopyEventView {
        match *self {
            CopyEvent::Begin => CopyEventView::Begin,
            CopyEvent::DirCreated(outcome) => CopyEventView::DirCreated(outcome_view(outcome)),
            CopyEvent::Listed(Ok(entries)) => CopyEventView::Listed(Ok(entries.deep_view())),
            CopyEvent::Listed(Err(detail)) => CopyEventView::Listed(Err(detail@)),
            CopyEvent::Copied(outcome) => CopyEventView::Copied(outcome_view(outcome)),
        }
    }
}

impl View for CopyAction {
    type V = CopyActionView;

    open spec fn view(&self) -> CopyActionView {
        match *self {
            CopyAction::CreateDir { path } => CopyActionView::CreateDir { path: path@ },
            CopyAction::ListDir { path } => CopyActionView::ListDir { path: path@ },
            CopyAction::CopyFile { from, to } => CopyActionView::CopyFile { from: from@, to: to@ },
            CopyAction::Done => CopyActionView::Done,
            CopyAction::Fail(error) => CopyActionView::Fail(error@),
            CopyAction::OutOfTurn => CopyActionView::OutOfTurn,
        }
    }
}

/// The text of a file-system error: the path and what was said of it.
pub open spec fn filesystem_error_text(error: FilesystemErrorView) -> Seq<char> {
    error.path + ": "@ + error.detail
}

impl FilesystemError {
    /// The error as one line of text.
    pub fn message(&self) -> (text: String)
        ensures
            text@ == filesystem_error_text(self@),
    {
        let mut text = self.path.clone();
        text.append(": ");
        text.append(self.detail.as_str());
        text
    }
}

/// The state before anything was requested.
pub open spec fn copy_start() -> CopyStateView {
    CopyStateView { phase: CopyPhase::Start, from: Seq::empty(), to: Seq::empty(), pending: Seq::empty() }
}

/// The state after the work has ended.
pub open spec fn copy_finished() -> CopyStateView {
    CopyStateView {
        phase: CopyPhase::Finished,
        from: Seq::empty(),
        to: Seq::empty(),
        pending: Seq::empty(),
    }
}

/// The task of replicating one entry of the directory `from` under `to`.
pub open spec fn child_task(from: Seq<char>, to: Seq<char>, entry: DirEntryView) -> TaskView {
    TaskView {
        from: path_join(from, entry.name),
        to: path_join(to, entry.name),
        is_dir: entry.is_dir,
    }
}

/// The tasks for the entries of a listing, stacked: the task of the last
/// entry first, that of the first entry last, which is the next to be taken.
pub open spec fn stacked_tasks(
    from: Seq<char>,
    to: Seq<char>,
    entries: Seq<DirEntryView>,
) -> Seq<TaskView> {
    Seq::new(entries.len(), |i: int| child_task(from, to, entries[entries.len() - 1 - i]))
}

/// Takes the next waiting task, if there is one, and requests its first
/// operation.
pub open spec fn take_next(pending: Seq<TaskView>) -> (CopyStateView, CopyActionView) {
    if pending.len() == 0 {
        (copy_finished(), CopyActionView::Done)
    } else {
        let task = pending.last();
        if task.is_dir {
            (
                CopyStateView {
                    phase: CopyPhase::Creating,
                    from: task.from,
                    to: task.to,
                    pending: pending.drop_last(),
                },
                CopyActionView::CreateDir { path: task.to },
            )
        } else {
            (
                CopyStateView {
                    phase: CopyPhase::Copying,
                    from: task.from,
                    to: task.to,
                    pending: pending.drop_last(),
                },
                CopyActionView::CopyFile { from: task.from, to: task.to },
            )
        }
    }
}

/// The end of the work on a failed operation on `path`.
pub open spec fn copy_failed(path: Seq<char>, detail: Seq<char>) -> (
    CopyStateView,
    CopyActionView,
) {
    (copy_finished(), CopyActionView::Fail(FilesystemErrorView { path, detail }))
}

/// One step of the replication of the directory `src` to `dst`: the state
/// and the operation that follow `event` in `state`.
pub open spec fn copy_step(
    src: Seq<char>,
    dst: Seq<char>,
    state: CopyStateView,
    event: CopyEventView,
) -> (CopyStateView, CopyActionView) {
    match (state.phase, event) {
        (CopyPhase::Start, CopyEventView::Begin) => (
            CopyStateView { phase: CopyPhase::Creating, from: src, to: dst, pending: Seq::empty() },
            CopyActionView::CreateDir { path: dst },
        ),
        (CopyPhase::Creating, CopyEventView::DirCreated(Ok(_))) => (
            CopyStateView { phase: CopyPhase::Listing, ..state },
            CopyActionView::ListDir { path: state.from },
        ),
        (CopyPhase::Creating, CopyEventView::DirCreated(Err(detail))) => copy_failed(
            state.to,
            detail,
        ),
        (CopyPhase::Listing, CopyEventView::Listed(Ok(entries))) => take_next(
            state.pending + stacked_tasks(state.from, state.to, entries),
        ),
        (CopyPhase::Listing, CopyEventView::Listed(Err(detail))) => copy_failed(
            state.from,
            detail,
        ),
        (CopyPhase::Copying, CopyEventView::Copied(Ok(_))) => take_next(state.pending),
        (CopyPhase::Copying, CopyEventView::Copied(Err(detail))) => copy_failed(
            state.from,
            detail,
        ),
        _ => (state, CopyActionView::OutOfTurn),
    }
}

impl CopyState {
    /// The state in which a replication starts.
    pub fn new() -> (state: CopyState)
        ensures
            state@ == copy_start(),
    {
        let pending: Vec<Task> = Vec::new();
        assert(pending.deep_view() =~= Seq::<TaskView>::empty());
        CopyState { phase: CopyPhase::Start, from: String::new(), to: String::new(), pending }
    }

    /// The state in which a replication has ended.
    pub fn finished() -> (state: CopyState)
        ensures
            state@ == copy_finished(),
    {
        let pending: Vec<Task> = Vec::new();
        assert(pending.deep_view() =~= Seq::<TaskView>::empty());
        CopyState { phase: CopyPhase::Finished, from: String::new(), to: String::new(), pending }
    }
}

/// Ends the work on a failed operation on `path`.
fn fail_copy(path: String, detail: String) -> (step: (CopyState, CopyAction))
    ensures
        (step.0@, step.1@) == copy_failed(path@, detail@),
{
    (CopyState::finished(), CopyAction::Fail(FilesystemError { path, detail }))
}

/// Takes the next waiting task and requests its first operation.
fn next_task(pending: Vec<Task>) -> (step: (CopyState, CopyAction))
    ensures
        (step.0@, step.1@) == take_next(pending.deep_view()),
{
    let mut pending = pending;
    let ghost before = pending.deep_view();
    match pending.pop() {
        None => (CopyState::finished(), CopyAction::Done),
        Some(task) => {
            assert(task@ == before.last());
            assert(pending.deep_view() =~= before.drop_last());
            if task.is_dir {
                let path = task.to.clone();
                (
                    CopyState { phase: CopyPhase::Creating, from: task.from, to: task.to, pending },
                    CopyAction::CreateDir { path },
                )
            } else {
                let from = task.from.clone();
                let to = task.to.clone();
                (
                    CopyState { phase: CopyPhase::Copying, from: task.from, to: task.to, pending },
                    CopyAction::CopyFile { from, to },
                )
            }
        },
    }
}

/// Puts the tasks for the entries of a listing of `from` on the waiting
/// tasks, the first entry's task last.
fn stack_entries(
    pending: Vec<Task>,
    from: &str,
    to: &str,
    entries: Vec<DirEntry>,
) -> (stacked: Vec<Task>)
    ensures
        stacked.deep_view() == pending.deep_view() + stacked_tasks(
            from@,
            to@,
            entries.deep_view(),
        ),
{
    let mut stacked = pending;
    let mut entries = entries;
    let ghost below = stacked.deep_view();
    let ghost listing = entries.deep_view();
    let ghost tasks = stacked_tasks(from@, to@, listing);
    assert(stacked.deep_view() =~= below + tasks.subrange(0, 0));
    loop
        invariant
            entries.len() <= listing.len(),
            entries.deep_view() == listing.subrange(0, entries.len() as int),
            tasks == stacked_tasks(from@, to@, listing),
            stacked.deep_view() == below + tasks.subrange(0, listing.len() - entries.len()),
        ensures
            entries.len() == 0,
        decreases entries.len(),
    {
        let ghost rest = entries.deep_view();
        let ghost done = stacked.deep_view();
        let ghost taken = listing.len() - entries.len();
        match entries.pop() {
            None => {
                break;
            },
            Some(entry) => {
                assert(entry@ == rest.last());
                assert(entries.deep_view() =~= rest.drop_last());
                assert(entries.deep_view() =~= listing.subrange(0, entries.len() as int));
                let task = Task {
                    from: join(from, entry.name.as_str()),
                    to: join(to, entry.name.as_str()),
                    is_dir: entry.is_dir,
                };
                assert(task@ == tasks[taken]);
                stacked.push(task);
                assert(stacked.deep_view() =~= done.push(task@));
                assert(stacked.deep_view() =~= below + tasks.subrange(0, taken + 1));
            },
        }
    }
    assert(tasks.subrange(0, listing.len() as int) =~= tasks);
    stacked
}

/// One step of the replication of the directory `src` to `dst`. The caller
/// starts with [`CopyState::new`] and `Begin`, performs each operation that is
/// handed back and reports its outcome, until the operation is `Done` or
/// `Fail`. An event that does not answer the operation requested last
/// changes nothing and is answered `OutOfTurn`.
pub fn copy_dir_all(
    src: &str,
    dst: &str,
    state: CopyState,
    event: CopyEvent,
) -> (step: (CopyState, CopyAction))
    ensures
        (step.0@, step.1@) == copy_step(src@, dst@, state@, event@),
{
    match (state.phase, event) {
        (CopyPhase::Start, CopyEvent::Begin) => {
            let pending: Vec<Task> = Vec::new();
            assert(pending.deep_view() =~= Seq::<TaskView>::empty());
            (
                CopyState {
                    phase: CopyPhase::Creating,
                    from: String::from_str(src),
                    to: String::from_str(dst),
                    pending,
                },
                CopyAction::CreateDir { path: String::from_str(dst) },
            )
        },
        (CopyPhase::Creating, CopyEvent::DirCreated(Ok(_))) => {
            let path = state.from.clone();
            (
                CopyState {
                    phase: CopyPhase::Listing,
                    from: state.from,
                    to: state.to,
                    pending: state.pending,
                },
                CopyAction::ListDir { path },
            )
        },
        (CopyPhase::Creating, CopyEvent::DirCreated(Err(detail))) => fail_copy(state.to, detail),
        (CopyPhase::Listing, CopyEvent::Listed(Ok(entries))) => {
            let stacked = stack_entries(
                state.pending,
                state.from.as_str(),
                state.to.as_str(),
                entries,
            );
            next_task(stacked)
        },
        (CopyPhase::Listing, CopyEvent::Listed(Err(detail))) => fail_copy(state.from, detail),
        (CopyPhase::Copying, CopyEvent::Copied(Ok(_))) => next_task(state.pending),
        (CopyPhase::Copying, CopyEvent::Copied(Err(detail))) => fail_copy(state.from, detail),
        (_, _) => (state, CopyAction::OutOfTurn),
    }
}

/// A replication that has ended stays ended: whatever is reported then, the
/// state stays as it is and no operation is requested.
pub proof fn lemma_copy_ends_for_good(src: Seq<char>, dst: Seq<char>, event: CopyEventView)
    ensures
        copy_step(src, dst, copy_finished(), event) == (copy_finished(), CopyActionView::OutOfTurn),
{
}

/// A failure ends a replication at once, with the path of the operation that
/// failed: the destination of a creation, the source of a listing or of a
/// copy.
pub proof fn lemma_copy_fails_fast(
    src: Seq<char>,
    dst: Seq<char>,
    state: CopyStateView,
    event: CopyEventView,
)
    ensures
        ({
            let (next, action) = copy_step(src, dst, state, event);
            &&& action is Fail ==> next == copy_finished()
            &&& action is Fail <==> {
                ||| state.phase == CopyPhase::Creating && event matches CopyEventView::DirCreated(
                    Err(_),
                )
                ||| state.phase == CopyPhase::Listing && event matches CopyEventView::Listed(Err(_))
                ||| state.phase == CopyPhase::Copying && event matches CopyEventView::Copied(Err(_))
            }
            &&& action matches CopyActionView::Fail(error) ==> error.path == if state.phase
                == CopyPhase::Creating {
                state.to
            } else {
                state.from
            }
        }),
{
}

} // verus!

//! What the replicator does to a whole tree.
//!
//! A directory tree is mirrored by creating the destination directory,
//! listing the source, and mirroring each entry in the order of the listing:
//! a file by one copy, a directory in the same way. The step function of the
//! replicator, driven against a file system that holds a tree and on which
//! every operation succeeds, requests exactly these operations and then ends.

use vstd::prelude::*;
use crate::paths::path_join;
use crate::replicate::copy_start;
use crate::replicate::copy_step;
use crate::replicate::stacked_tasks;
use crate::replicate::take_next;
use crate::replicate::CopyActionView;
use crate::replicate::CopyEventView;
use crate::replicate::CopyPhase;
use crate::replicate::CopyStateView;
use crate::replicate::DirEntryView;
use crate::replicate::TaskView;

verus! {

/// A file, or a directory with its entries in the order of its listing.
pub enum Tree {
    File,
    Dir(Seq<Child>),
}

/// A named entry of a directory.
pub struct Child {
    pub name: Seq<char>,
    pub node: Tree,
}

/// The listings of the directories of a file system, by path.
pub type Listings = Map<Seq<char>, Seq<DirEntryView>>;

/// The listing of a directory with these entries.
pub open spec fn listing(children: Seq<Child>) -> Seq<DirEntryView> {
    Seq::new(
        children.len(),
        |i: int| DirEntryView { name: children[i].name, is_dir: children[i].node is Dir },
    )
}

/// Whether the file system shows `tree` at `path`: each directory of the
/// tree is listed with its entries, in their order.
pub open spec fn shows(fs: Listings, tree: Tree, path: Seq<char>) -> bool
    decreases tree, 0nat,
{
    match tree {
        Tree::File => true,
        Tree::Dir(children) => fs.dom().contains(path) && fs[path] == listing(children)
            && shows_children(fs, children, path, 0),
    }
}

/// Whether the file system shows the entries from `at` on below `path`.
pub open spec fn shows_children(fs: Listings, children: Seq<Child>, path: Seq<char>, at: nat) -> bool
    decreases children, children.len() - at,
{
    if at >= children.len() {
        true
    } else {
        shows(fs, children[at as int].node, path_join(path, children[at as int].name))
            && shows_children(fs, children, path, at + 1)
    }
}

/// The operations that mirror `tree` from `from` to `to`, in their order.
pub open spec fn mirror(tree: Tree, from: Seq<char>, to: Seq<char>) -> Seq<CopyActionView>
    decreases tree, 0nat,
{
    match tree {
        Tree::File => seq![CopyActionView::CopyFile { from, to }],
        Tree::Dir(children) => seq![
            CopyActionView::CreateDir { path: to },
            CopyActionView::ListDir { path: from },
        ] + mirror_children(children, from, to, 0),
    }
}

/// The operations that mirror the entries from `at` on of the directory
/// `from` below `to`: those of each entry, one entry after the other.
pub open spec fn mirror_children(
    children: Seq<Child>,
    from: Seq<char>,
    to: Seq<char>,
    at: nat,
) -> Seq<CopyActionView>
    decreases children, children.len() - at,
{
    if at >= children.len() {
        Seq::empty()
    } else {
        mirror(
            children[at as int].node,
            path_join(from, children[at as int].name),
            path_join(to, children[at as int].name),
        ) + mirror_children(children, from, to, at + 1)
    }
}

/// Whether `action` ends a replication.
pub open spec fn ends_copy(action: CopyActionView) -> bool {
    action is Done || action is Fail || action is OutOfTurn
}

/// The event with which a file system on which every operation succeeds
/// answers `action`.
pub open spec fn answer_to(action: CopyActionView, fs: Listings) -> CopyEventView {
    match action {
        CopyActionView::CreateDir { .. } => CopyEventView::DirCreated(Ok(())),
        CopyActionView::ListDir { path } => CopyEventView::Listed(Ok(fs[path])),
        CopyActionView::CopyFile { .. } => CopyEventView::Copied(Ok(())),
        _ => CopyEventView::Begin,
    }
}

/// The operations that the replicator requests from `state` and `event` on,
/// the one that ends the work included, against such a file system, for at
/// most `steps` further operations.
pub open spec fn copy_run(
    src: Seq<char>,
    dst: Seq<char>,
    state: CopyStateView,
    event: CopyEventView,
    fs: Listings,
    steps: nat,
) -> Seq<CopyActionView>
    decreases steps,
{
    let (next, action) = copy_step(src, dst, state, event);
    if ends_copy(action) || steps == 0 {
        seq![action]
    } else {
        seq![action] + copy_run(src, dst, next, answer_to(action, fs), fs, (steps - 1) as nat)
    }
}

/// The trees of the entries of a directory, stacked as their tasks are.
pub open spec fn stacked_trees(children: Seq<Child>, at: nat) -> Seq<Tree> {
    Seq::new(
        (children.len() - at) as nat,
        |i: int| children[children.len() - 1 - i].node,
    )
}

/// The tasks of the entries from `at` on of a directory, stacked.
pub open spec fn stacked_from(
    from: Seq<char>,
    to: Seq<char>,
    children: Seq<Child>,
    at: nat,
) -> Seq<TaskView> {
    Seq::new(
        (children.len() - at) as nat,
        |i: int|
            TaskView {
                from: path_join(from, children[children.len() - 1 - i].name),
                to: path_join(to, children[children.len() - 1 - i].name),
                is_dir: children[children.len() - 1 - i].node is Dir,
            },
    )
}

/// The operations that mirror the trees of the waiting tasks, the task that
/// is taken next first.
pub open spec fn agenda(tasks: Seq<TaskView>, trees: Seq<Tree>) -> Seq<CopyActionView>
    decreases tasks.len(),
{
    if tasks.len() == 0 || trees.len() != tasks.len() {
        Seq::empty()
    } else {
        mirror(trees.last(), tasks.last().from, tasks.last().to) + agenda(
            tasks.drop_last(),
            trees.drop_last(),
        )
    }
}

/// Whether each waiting task has its tree: a directory for a directory, and
/// one that the file system shows at the task's source.
pub open spec fn planned(fs: Listings, tasks: Seq<TaskView>, trees: Seq<Tree>) -> bool {
    &&& tasks.len() == trees.len()
    &&& forall|i: int|
        0 <= i < tasks.len() ==> (#[trigger] tasks[i]).is_dir == (trees[i] is Dir)
    &&& forall|i: int| 0 <= i < tasks.len() ==> shows(fs, #[trigger] trees[i], tasks[i].from)
}

/// A file system that shows the entries of a directory from `at` on shows
/// each of them.
proof fn lemma_shows_each(fs: Listings, children: Seq<Child>, path: Seq<char>, at: nat, k: int)
    requires
        shows_children(fs, children, path, at),
        at <= k < children.len(),
    ensures
        shows(fs, children[k].node, path_join(path, children[k].name)),
    decreases children.len() - at,
{
    if at < k {
        lemma_shows_each(fs, children, path, at + 1, k);
    }
}

/// Stacking the tasks of a directory's entries on waiting tasks puts the
/// mirroring of these entries, in their order, before that of the waiting
/// tasks.
proof fn lemma_agenda_of_stacked(
    tasks: Seq<TaskView>,
    trees: Seq<Tree>,
    from: Seq<char>,
    to: Seq<char>,
    children: Seq<Child>,
    at: nat,
)
    requires
        tasks.len() == trees.len(),
        at <= children.len(),
    ensures
        agenda(tasks + stacked_from(from, to, children, at), trees + stacked_trees(children, at))
            == mirror_children(children, from, to, at) + agenda(tasks, trees),
    decreases children.len() - at,
{
    let more_tasks = tasks + stacked_from(from, to, children, at);
    let more_trees = trees + stacked_trees(children, at);
    if at == children.len() {
        assert(more_tasks =~= tasks);
        assert(more_trees =~= trees);
        assert(mirror_children(children, from, to, at) + agenda(tasks, trees) =~= agenda(
            tasks,
            trees,
        ));
    } else {
        lemma_agenda_of_stacked(tasks, trees, from, to, children, at + 1);
        assert(more_tasks.drop_last() =~= tasks + stacked_from(from, to, children, at + 1));
        assert(more_trees.drop_last() =~= trees + stacked_trees(children, at + 1));
        assert(more_trees.last() == children[at as int].node);
        assert(more_tasks.last().from == path_join(from, children[at as int].name));
        assert(more_tasks.last().to == path_join(to, children[at as int].name));
        let first = mirror(
            children[at as int].node,
            path_join(from, children[at as int].name),
            path_join(to, children[at as int].name),
        );
        assert(agenda(more_tasks, more_trees) == first + agenda(
            more_tasks.drop_last(),
            more_trees.drop_last(),
        ));
        assert(first + (mirror_children(children, from, to, at + 1) + agenda(tasks, trees)) =~= (
        first + mirror_children(children, from, to, at + 1)) + agenda(tasks, trees));
    }
}

/// The tasks that the replicator stacks for a listing are those of the
/// entries of the directory that was listed.
proof fn lemma_stacked_tasks(from: Seq<char>, to: Seq<char>, children: Seq<Child>)
    ensures
        stacked_tasks(from, to, listing(children)) == stacked_from(from, to, children, 0),
{
    assert(stacked_tasks(from, to, listing(children)) =~= stacked_from(from, to, children, 0));
}

/// Once a task is done, the replicator mirrors the trees of the waiting
/// tasks, the one on top first, and then ends.
proof fn lemma_run_mirrors_agenda(
    src: Seq<char>,
    dst: Seq<char>,
    fs: Listings,
    from: Seq<char>,
    to: Seq<char>,
    tasks: Seq<TaskView>,
    trees: Seq<Tree>,
    steps: nat,
)
    requires
        planned(fs, tasks, trees),
        agenda(tasks, trees).len() <= steps,
    ensures
        copy_run(
            src,
            dst,
            CopyStateView { phase: CopyPhase::Copying, from, to, pending: tasks },
            CopyEventView::Copied(Ok(())),
            fs,
            steps,
        ) == agenda(tasks, trees) + seq![CopyActionView::Done],
    decreases steps,
{
    let state = CopyStateView { phase: CopyPhase::Copying, from, to, pending: tasks };
    let run = copy_run(src, dst, state, CopyEventView::Copied(Ok(())), fs, steps);
    let (next, action) = take_next(tasks);
    assert(copy_step(src, dst, state, CopyEventView::Copied(Ok(()))) == (next, action));
    if tasks.len() == 0 {
        assert(run =~= agenda(tasks, trees) + seq![CopyActionView::Done]);
    } else {
        let task = tasks.last();
        let tree = trees.last();
        let rest = tasks.drop_last();
        let rest_trees = trees.drop_last();
        assert(task == tasks[tasks.len() - 1]);
        assert(tree == trees[tasks.len() - 1]);
        assert(planned(fs, rest, rest_trees)) by {
            assert forall|i: int| 0 <= i < rest.len() implies (#[trigger] rest[i]).is_dir == (
            rest_trees[i] is Dir) by {
                assert(rest[i] == tasks[i]);
            }
            assert forall|i: int| 0 <= i < rest.len() implies shows(
                fs,
                #[trigger] rest_trees[i],
                rest[i].from,
            ) by {
                assert(rest_trees[i] == trees[i]);
                assert(rest[i] == tasks[i]);
            }
        }
        let head = mirror(tree, task.from, task.to);
        assert(agenda(tasks, trees) == head + agenda(rest, rest_trees));
        match tree {
            Tree::File => {
                assert(head.len() == 1);
                lemma_run_mirrors_agenda(
                    src,
                    dst,
                    fs,
                    task.from,
                    task.to,
                    rest,
                    rest_trees,
                    (steps - 1) as nat,
                );
                assert(run =~= agenda(tasks, trees) + seq![CopyActionView::Done]);
            },
            Tree::Dir(children) => {
                let below = mirror_children(children, task.from, task.to, 0);
                assert(head.len() == 2 + below.len());
                let creating = CopyStateView {
                    phase: CopyPhase::Creating,
                    from: task.from,
                    to: task.to,
                    pending: rest,
                };
                let listing_state = CopyStateView { phase: CopyPhase::Listing, ..creating };
                let entries = listing(children);
                let more_tasks = rest + stacked_from(task.from, task.to, children, 0);
                let more_trees = rest_trees + stacked_trees(children, 0);
                let taking = CopyStateView {
                    phase: CopyPhase::Copying,
                    from: task.from,
                    to: task.to,
                    pending: more_tasks,
                };
                lemma_stacked_tasks(task.from, task.to, children);
                lemma_agenda_of_stacked(rest, rest_trees, task.from, task.to, children, 0);
                assert(planned(fs, more_tasks, more_trees)) by {
                    assert forall|i: int| 0 <= i < more_tasks.len() implies (
                    #[trigger] more_tasks[i]).is_dir == (more_trees[i] is Dir) by {
                        if i < rest.len() {
                            assert(more_tasks[i] == rest[i]);
                        }
                    }
                    assert forall|i: int| 0 <= i < more_tasks.len() implies shows(
                        fs,
                        #[trigger] more_trees[i],
                        more_tasks[i].from,
                    ) by {
                        if i < rest.len() {
                            assert(more_trees[i] == rest_trees[i]);
                            assert(more_tasks[i] == rest[i]);
                        } else {
                            let k = children.len() - 1 - (i - rest.len());
                            lemma_shows_each(fs, children, task.from, 0, k);
                        }
                    }
                }
                lemma_run_mirrors_agenda(
                    src,
                    dst,
                    fs,
                    task.from,
                    task.to,
                    more_tasks,
                    more_trees,
                    (steps - 2) as nat,
                );
                let listed = CopyEventView::Listed(Ok(entries));
                let tail = copy_run(
                    src,
                    dst,
                    taking,
                    CopyEventView::Copied(Ok(())),
                    fs,
                    (steps - 2) as nat,
                );
                assert(copy_step(src, dst, listing_state, listed) == copy_step(
                    src,
                    dst,
                    taking,
                    CopyEventView::Copied(Ok(())),
                ));
                assert(copy_run(src, dst, listing_state, listed, fs, (steps - 2) as nat) == tail);
                let list = CopyActionView::ListDir { path: task.from };
                assert(copy_step(src, dst, creating, CopyEventView::DirCreated(Ok(()))) == (
                    listing_state,
                    list,
                ));
                assert(answer_to(list, fs) == listed);
                assert(copy_run(
                    src,
                    dst,
                    creating,
                    CopyEventView::DirCreated(Ok(())),
                    fs,
                    (steps - 1) as nat,
                ) == seq![list] + tail);
                assert(run == seq![action] + (seq![list] + tail));
                assert(run =~= agenda(tasks, trees) + seq![CopyActionView::Done]);
            },
        }
    }
}

/// Replication mirrors the tree: driven against a file system that shows
/// `tree` at `src`, and given steps enough, the replicator requests exactly
/// the operations that mirror `tree` from `src` to `dst`, in their order,
/// and then ends with `Done`. So each directory of the tree is created at
/// its mirrored path before anything is put into it, each file is copied
/// once to its mirrored path, and nothing else is touched.
pub proof fn lemma_copy_mirrors_tree(
    src: Seq<char>,
    dst: Seq<char>,
    fs: Listings,
    tree: Tree,
    steps: nat,
)
    requires
        tree is Dir,
        shows(fs, tree, src),
        mirror(tree, src, dst).len() <= steps,
    ensures
        copy_run(src, dst, copy_start(), CopyEventView::Begin, fs, steps) == mirror(
            tree,
            src,
            dst,
        ) + seq![CopyActionView::Done],
{
    let children = tree->Dir_0;
    let none = Seq::<TaskView>::empty();
    let no_trees = Seq::<Tree>::empty();
    let creating = CopyStateView { phase: CopyPhase::Creating, from: src, to: dst, pending: none };
    let listing_state = CopyStateView { phase: CopyPhase::Listing, ..creating };
    let more_tasks = none + stacked_from(src, dst, children, 0);
    let more_trees = no_trees + stacked_trees(children, 0);
    let taking = CopyStateView { phase: CopyPhase::Copying, from: src, to: dst, pending: more_tasks };
    let create = CopyActionView::CreateDir { path: dst };
    let list = CopyActionView::ListDir { path: src };
    let listed = CopyEventView::Listed(Ok(listing(children)));
    lemma_stacked_tasks(src, dst, children);
    lemma_agenda_of_stacked(none, no_trees, src, dst, children, 0);
    assert(planned(fs, more_tasks, more_trees)) by {
        assert forall|i: int| 0 <= i < more_tasks.len() implies shows(
            fs,
            #[trigger] more_trees[i],
            more_tasks[i].from,
        ) by {
            lemma_shows_each(fs, children, src, 0, children.len() - 1 - i);
        }
    }
    lemma_run_mirrors_agenda(src, dst, fs, src, dst, more_tasks, more_trees, (steps - 2) as nat);
    let tail = copy_run(src, dst, taking, CopyEventView::Copied(Ok(())), fs, (steps - 2) as nat);
    assert(copy_step(src, dst, listing_state, listed) == copy_step(
        src,
        dst,
        taking,
        CopyEventView::Copied(Ok(())),
    ));
    assert(copy_run(src, dst, listing_state, listed, fs, (steps - 2) as nat) == tail);
    assert(copy_step(src, dst, creating, CopyEventView::DirCreated(Ok(()))) == (
        listing_state,
        list,
    ));
    assert(answer_to(list, fs) == listed);
    assert(copy_run(src, dst, creating, CopyEventView::DirCreated(Ok(())), fs, (steps - 1) as nat)
        == seq![list] + tail);
    assert(copy_step(src, dst, copy_start(), CopyEventView::Begin) == (creating, create));
    let run = copy_run(src, dst, copy_start(), CopyEventView::Begin, fs, steps);
    assert(run == seq![create] + (seq![list] + tail));
    assert(run =~= mirror(tree, src, dst) + seq![CopyActionView::Done]);
}

/// The node that is reached from `tree` by taking, in each directory on the
/// way, the entry at the given position.
pub open spec fn node_at(tree: Tree, way: Seq<int>) -> Option<Tree>
    decreases way.len(),
{
    if way.len() == 0 {
        Some(tree)
    } else {
        match tree {
            Tree::Dir(children) => if 0 <= way[0] < children.len() {
                node_at(children[way[0]].node, way.drop_first())
            } else {
                None
            },
            Tree::File => None,
        }
    }
}

/// The path of the node that is reached so, where `root` is the path of
/// `tree`: the names of the entries on the way, joined one after the other.
pub open spec fn path_at(tree: Tree, root: Seq<char>, way: Seq<int>) -> Seq<char>
    decreases way.len(),
{
    if way.len() == 0 {
        root
    } else {
        match tree {
            Tree::Dir(children) => if 0 <= way[0] < children.len() {
                path_at(
                    children[way[0]].node,
                    path_join(root, children[way[0]].name),
                    way.drop_first(),
                )
            } else {
                root
            },
            Tree::File => root,
        }
    }
}

/// Whether `action` is the operation on the node that `way` reaches: the
/// copy of a file from its path below `from` to the same relative path below
/// `to`, or the creation or the listing of a directory at its path there.
pub open spec fn mirrors_node(
    tree: Tree,
    from: Seq<char>,
    to: Seq<char>,
    way: Seq<int>,
    action: CopyActionView,
) -> bool {
    match node_at(tree, way) {
        Some(Tree::File) => action == (CopyActionView::CopyFile {
            from: path_at(tree, from, way),
            to: path_at(tree, to, way),
        }),
        Some(Tree::Dir(_)) => action == (CopyActionView::CreateDir { path: path_at(tree, to, way) })
            || action == (CopyActionView::ListDir { path: path_at(tree, from, way) }),
        None => false,
    }
}

/// What lies on a way through an entry of a directory lies on the rest of
/// the way through that entry.
proof fn lemma_way_through(
    children: Seq<Child>,
    from: Seq<char>,
    to: Seq<char>,
    i: int,
    rest: Seq<int>,
    action: CopyActionView,
)
    requires
        0 <= i < children.len(),
    ensures
        mirrors_node(Tree::Dir(children), from, to, seq![i] + rest, action) == mirrors_node(
            children[i].node,
            path_join(from, children[i].name),
            path_join(to, children[i].name),
            rest,
            action,
        ),
{
    let way = seq![i] + rest;
    assert(way[0] == i);
    assert(way.drop_first() =~= rest);
}

/// The operations of an entry are among those of the entries from `at` on.
proof fn lemma_child_in_children(
    children: Seq<Child>,
    from: Seq<char>,
    to: Seq<char>,
    at: nat,
    i: int,
    action: CopyActionView,
)
    requires
        at <= i < children.len(),
        mirror(
            children[i].node,
            path_join(from, children[i].name),
            path_join(to, children[i].name),
        ).contains(action),
    ensures
        mirror_children(children, from, to, at).contains(action),
    decreases i - at,
{
    let first = mirror(
        children[at as int].node,
        path_join(from, children[at as int].name),
        path_join(to, children[at as int].name),
    );
    let rest = mirror_children(children, from, to, at + 1);
    if at == i {
        let k = choose|k: int| 0 <= k < first.len() && first[k] == action;
        assert((first + rest)[k] == action);
    } else {
        lemma_child_in_children(children, from, to, at + 1, i, action);
        let k = choose|k: int| 0 <= k < rest.len() && rest[k] == action;
        assert((first + rest)[first.len() + k] == action);
    }
}

/// The operation on each node of the tree is among those that mirror it.
proof fn lemma_mirror_reaches(
    tree: Tree,
    from: Seq<char>,
    to: Seq<char>,
    way: Seq<int>,
    action: CopyActionView,
)
    requires
        mirrors_node(tree, from, to, way, action),
    ensures
        mirror(tree, from, to).contains(action),
    decreases way.len(),
{
    let all = mirror(tree, from, to);
    if way.len() == 0 {
        match tree {
            Tree::File => {
                assert(all[0] == action);
            },
            Tree::Dir(children) => {
                assert(all[0] == CopyActionView::CreateDir { path: to });
                assert(all[1] == CopyActionView::ListDir { path: from });
            },
        }
    } else {
        let children = tree->Dir_0;
        let i = way[0];
        assert(way =~= seq![i] + way.drop_first());
        lemma_way_through(children, from, to, i, way.drop_first(), action);
        lemma_mirror_reaches(
            children[i].node,
            path_join(from, children[i].name),
            path_join(to, children[i].name),
            way.drop_first(),
            action,
        );
        lemma_child_in_children(children, from, to, 0, i, action);
        let below = mirror_children(children, from, to, 0);
        let k = choose|k: int| 0 <= k < below.len() && below[k] == action;
        assert(all[2 + k] == action);
    }
}

/// Each operation that mirrors the tree is the operation on one of its
/// nodes.
proof fn lemma_mirror_arises(tree: Tree, from: Seq<char>, to: Seq<char>, k: int) -> (way: Seq<int>)
    requires
        0 <= k < mirror(tree, from, to).len(),
    ensures
        mirrors_node(tree, from, to, way, mirror(tree, from, to)[k]),
    decreases tree, 0nat,
{
    match tree {
        Tree::File => Seq::empty(),
        Tree::Dir(children) => {
            if k < 2 {
                Seq::empty()
            } else {
                let (i, rest) = lemma_children_arise(children, from, to, 0, k - 2);
                let action = mirror(tree, from, to)[k];
                lemma_way_through(children, from, to, i, rest, action);
                seq![i] + rest
            }
        },
    }
}

/// Each operation that mirrors the entries from `at` on is the operation on
/// a node below one of them.
proof fn lemma_children_arise(
    children: Seq<Child>,
    from: Seq<char>,
    to: Seq<char>,
    at: nat,
    k: int,
) -> (found: (int, Seq<int>))
    requires
        0 <= k < mirror_children(children, from, to, at).len(),
    ensures
        at <= found.0 < children.len(),
        mirrors_node(
            children[found.0].node,
            path_join(from, children[found.0].name),
            path_join(to, children[found.0].name),
            found.1,
            mirror_children(children, from, to, at)[k],
        ),
    decreases children, children.len() - at,
{
    let first = mirror(
        children[at as int].node,
        path_join(from, children[at as int].name),
        path_join(to, children[at as int].name),
    );
    if k < first.len() {
        let way = lemma_mirror_arises(
            children[at as int].node,
            path_join(from, children[at as int].name),
            path_join(to, children[at as int].name),
            k,
        );
        (at as int, way)
    } else {
        lemma_children_arise(children, from, to, at + 1, k - first.len())
    }
}

/// Mirroring keeps the relative paths: the operations that mirror a tree
/// are exactly the operations on its nodes. Each file is copied from its
/// path below the source to the same relative path below the destination,
/// each directory is created at its relative path below the destination and
/// listed at its path below the source, and there is no other operation.
pub proof fn lemma_mirror_keeps_relative_paths(
    tree: Tree,
    from: Seq<char>,
    to: Seq<char>,
    action: CopyActionView,
)
    ensures
        mirror(tree, from, to).contains(action) <==> exists|way: Seq<int>|
            mirrors_node(tree, from, to, way, action),
{
    let all = mirror(tree, from, to);
    if all.contains(action) {
        let k = choose|k: int| 0 <= k < all.len() && all[k] == action;
        let way = lemma_mirror_arises(tree, from, to, k);
        assert(mirrors_node(tree, from, to, way, action));
    }
    if exists|way: Seq<int>| mirrors_node(tree, from, to, way, action) {
        let way = choose|way: Seq<int>| mirrors_node(tree, from, to, way, action);
        lemma_mirror_reaches(tree, from, to, way, action);
    }
}

} // verus!

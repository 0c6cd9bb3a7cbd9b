//! What holds of the tables of a session whatever the targets and the
//! notifications are.

use vstd::prelude::*;
use crate::model::{PlanItem, SessionView};

verus! {

/// A directory has one watch: once a watch on it is recorded, the report
/// of a second one changes nothing, and the directory keeps the handle of
/// the first.
pub proof fn lemma_one_watch_per_directory(
    tables: SessionView,
    path: Seq<char>,
    first: u64,
    second: u64,
    owner: usize,
)
    ensures
        tables.with_watch(path, first).watched.contains_key(path),
        tables.with_watch(path, first).with_watch(path, second) == tables.with_watch(path, first),
        tables.with_watch(path, first).with_branch(path, second, owner) == tables.with_watch(
            path,
            first,
        ),
        !tables.watched.contains_key(path) ==> tables.with_watch(path, first).watched[path]
            == first,
{
}

/// A watched directory stays watched, under the same handle, whatever is
/// recorded or registered afterwards.
pub proof fn lemma_watch_is_kept(
    tables: SessionView,
    watched: Seq<char>,
    path: Seq<char>,
    handle: u64,
    owner: usize,
    item: PlanItem,
    position: usize,
)
    requires
        tables.watched.contains_key(watched),
    ensures
        tables.with_watch(path, handle).watched.contains_key(watched),
        tables.with_watch(path, handle).watched[watched] == tables.watched[watched],
        tables.with_branch(path, handle, owner).watched.contains_key(watched),
        tables.with_branch(path, handle, owner).watched[watched] == tables.watched[watched],
        tables.with_target(item, position).watched == tables.watched,
{
}

/// Registration enters targets and nothing else: the watch index is the
/// same before and after.
pub proof fn lemma_population_keeps_watches(
    tables: SessionView,
    plan: Seq<PlanItem>,
    from: int,
    to: int,
)
    ensures
        tables.populated(plan, from, to).watched == tables.watched,
        tables.populated(plan, from, to).paths == tables.paths,
    decreases to - from,
{
    if from < to {
        lemma_population_keeps_watches(tables, plan, from, to - 1);
    }
}

/// A directory target matches every change in its directory, whatever the
/// name of the entry that changed.
pub proof fn lemma_directory_matches_every_name(
    tables: SessionView,
    dir: Seq<char>,
    position: usize,
    name: Seq<char>,
)
    ensures
        tables.with_target(PlanItem { dir, name: None }, position).matched(
            tables.watched[dir],
            name,
        ) == Some(position),
{
}

/// A file target matches its own name in its directory, and nothing else:
/// for every other name the answer is what it was before the file was
/// registered. Names are compared character by character.
pub proof fn lemma_file_matches_its_name_only(
    tables: SessionView,
    dir: Seq<char>,
    file: Seq<char>,
    position: usize,
    handle: u64,
    name: Seq<char>,
)
    requires
        !tables.directories.contains_key(tables.watched[dir]),
    ensures
        tables.with_target(PlanItem { dir, name: Some(file) }, position).matched(
            tables.watched[dir],
            file,
        ) == Some(position),
        (handle != tables.watched[dir] || name != file) ==> tables.with_target(
            PlanItem { dir, name: Some(file) },
            position,
        ).matched(handle, name) == tables.matched(handle, name),
{
}

/// A change that no directory target and no file target of that name
/// stands for matches nothing.
pub proof fn lemma_unregistered_matches_nothing(tables: SessionView, handle: u64, name: Seq<char>)
    requires
        !tables.directories.contains_key(handle),
        !tables.files.contains_key((handle, name)),
    ensures
        tables.matched(handle, name).is_none(),
{
}

/// A directory that was adopted for a target belongs to it: the directory
/// is watched under the handle, the handle leads back to the directory,
/// and every change under the handle matches the target.
pub proof fn lemma_adopted_directory_matches(
    tables: SessionView,
    path: Seq<char>,
    handle: u64,
    owner: usize,
    name: Seq<char>,
)
    requires
        !tables.watched.contains_key(path),
    ensures
        tables.with_branch(path, handle, owner).watched[path] == handle,
        tables.with_branch(path, handle, owner).paths[handle] == path,
        tables.with_branch(path, handle, owner).matched(handle, name) == Some(owner),
{
}

/// Registration gives a handle a directory target only where the handle
/// had one before or a directory target of the plan is watched under it.
pub proof fn lemma_no_directory_without_target(
    tables: SessionView,
    plan: Seq<PlanItem>,
    from: int,
    to: int,
    handle: u64,
)
    requires
        0 <= from <= to <= plan.len(),
        !tables.directories.contains_key(handle),
        forall|k: int|
            from <= k < to && (#[trigger] plan[k]).name is None ==> tables.watched[plan[k].dir]
                != handle,
    ensures
        !tables.populated(plan, from, to).directories.contains_key(handle),
    decreases to - from,
{
    if from < to {
        lemma_no_directory_without_target(tables, plan, from, to - 1, handle);
        lemma_population_keeps_watches(tables, plan, from, to - 1);
    }
}

/// After registration, every change in the directory of a directory
/// target matches that target, whatever the name of the entry, unless a
/// later directory target is watched under the same handle.
pub proof fn lemma_registered_directory_matches(
    tables: SessionView,
    plan: Seq<PlanItem>,
    from: int,
    to: int,
    position: int,
    name: Seq<char>,
)
    requires
        0 <= from <= position < to <= plan.len() <= usize::MAX,
        plan[position].name is None,
        forall|k: int|
            position < k < to && (#[trigger] plan[k]).name is None ==> tables.watched[plan[k].dir]
                != tables.watched[plan[position].dir],
    ensures
        tables.populated(plan, from, to).directories.contains_key(
            tables.watched[plan[position].dir],
        ),
        tables.populated(plan, from, to).matched(tables.watched[plan[position].dir], name) == Some(
            position as usize,
        ),
    decreases to - position,
{
    lemma_population_keeps_watches(tables, plan, from, to - 1);
    if position < to - 1 {
        lemma_registered_directory_matches(tables, plan, from, to - 1, position, name);
    }
}

/// After registration, a change to a file target's own name in its
/// directory matches that target, unless the directory has a directory
/// target or the same file was registered again later.
pub proof fn lemma_registered_file_matches(
    tables: SessionView,
    plan: Seq<PlanItem>,
    from: int,
    to: int,
    position: int,
)
    requires
        0 <= from <= position < to <= plan.len() <= usize::MAX,
        plan[position].name is Some,
        !tables.directories.contains_key(tables.watched[plan[position].dir]),
        forall|k: int|
            from <= k < to && (#[trigger] plan[k]).name is None ==> tables.watched[plan[k].dir]
                != tables.watched[plan[position].dir],
        forall|k: int|
            position < k < to && (#[trigger] plan[k]).name == plan[position].name
                ==> tables.watched[plan[k].dir] != tables.watched[plan[position].dir],
    ensures
        tables.populated(plan, from, to).matched(
            tables.watched[plan[position].dir],
            plan[position].name.unwrap(),
        ) == Some(position as usize),
    decreases to - position,
{
    let handle = tables.watched[plan[position].dir];
    lemma_population_keeps_watches(tables, plan, from, to - 1);
    lemma_no_directory_without_target(tables, plan, from, to, handle);
    if position < to - 1 {
        lemma_registered_file_matches(tables, plan, from, to - 1, position);
        lemma_no_directory_without_target(tables, plan, from, to - 1, handle);
    }
}

/// After registration, a change matches nothing where it matched nothing
/// before and every target watched under its handle is a file of another
/// name. A name that differs in one character is another name.
pub proof fn lemma_other_names_match_nothing(
    tables: SessionView,
    plan: Seq<PlanItem>,
    from: int,
    to: int,
    handle: u64,
    name: Seq<char>,
)
    requires
        0 <= from <= to <= plan.len(),
        tables.matched(handle, name) is None,
        forall|k: int|
            from <= k < to && tables.watched[(#[trigger] plan[k]).dir] == handle ==> plan[k].name
                is Some && plan[k].name != Some(name),
    ensures
        tables.populated(plan, from, to).matched(handle, name) is None,
    decreases to - from,
{
    if from < to {
        lemma_other_names_match_nothing(tables, plan, from, to - 1, handle, name);
        lemma_population_keeps_watches(tables, plan, from, to - 1);
    }
}

} // verus!

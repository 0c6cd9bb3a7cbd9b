//! The mathematical model of a watch session: four maps, and what
//! registration, extension and correlation mean on them.

use vstd::prelude::*;

verus! {

/// What registration has to know of one target: the directory to watch for
/// it, and, for a file, the name by which notifications will call it.
pub struct PlanItem {
    pub dir: Seq<char>,
    pub name: Option<Seq<char>>,
}

/// The tables of a session.
pub struct SessionView {
    /// The watch index: watched directory to watch handle.
    pub watched: Map<Seq<char>, u64>,
    /// The watch index, read the other way: watch handle to directory.
    pub paths: Map<u64, Seq<char>>,
    /// Directory targets: watch handle to the target's position.
    pub directories: Map<u64, usize>,
    /// File targets: watch handle and file name to the target's position.
    pub files: Map<(u64, Seq<char>), usize>,
}

impl SessionView {
    /// The tables before anything is watched.
    pub open spec fn empty() -> SessionView {
        SessionView {
            watched: Map::empty(),
            paths: Map::empty(),
            directories: Map::empty(),
            files: Map::empty(),
        }
    }

    /// The target that a notification with this handle and name belongs
    /// to: the directory target of the handle if there is one, whatever the
    /// name; else the file target registered under the handle with exactly
    /// this name; else none.
    pub open spec fn matched(self, handle: u64, name: Seq<char>) -> Option<usize> {
        if self.directories.contains_key(handle) {
            Some(self.directories[handle])
        } else {
            self.files.get((handle, name))
        }
    }

    /// The tables after a watch on `path` was installed and answered with
    /// `handle`. A directory that is watched already keeps its handle.
    pub open spec fn with_watch(self, path: Seq<char>, handle: u64) -> SessionView {
        if self.watched.contains_key(path) {
            self
        } else {
            SessionView {
                watched: self.watched.insert(path, handle),
                paths: self.paths.insert(handle, path),
                ..self
            }
        }
    }

    /// The tables after a directory born under a watched directory was put
    /// under watch on behalf of the target `owner`. A directory that is
    /// watched already changes nothing.
    pub open spec fn with_branch(self, path: Seq<char>, handle: u64, owner: usize) -> SessionView {
        if self.watched.contains_key(path) {
            self
        } else {
            SessionView {
                watched: self.watched.insert(path, handle),
                paths: self.paths.insert(handle, path),
                directories: self.directories.insert(handle, owner),
                ..self
            }
        }
    }

    /// The tables after the target at `position` was entered under the
    /// handle of its directory: a file by its name, a directory for every
    /// name. A later entry replaces an earlier one with the same key. It is
    /// meant for a directory that is watched.
    pub open spec fn with_target(self, item: PlanItem, position: usize) -> SessionView
        recommends
            self.watched.contains_key(item.dir),
    {
        let handle = self.watched[item.dir];
        match item.name {
            Some(name) => SessionView {
                files: self.files.insert((handle, name), position),
                ..self
            },
            None => SessionView {
                directories: self.directories.insert(handle, position),
                ..self
            },
        }
    }

    /// The tables after the targets at the positions from `from` up to,
    /// not including, `to` were entered in turn.
    pub open spec fn populated(self, plan: Seq<PlanItem>, from: int, to: int) -> SessionView
        decreases to - from,
    {
        if to <= from {
            self
        } else {
            self.populated(plan, from, to - 1).with_target(plan[to - 1], (to - 1) as usize)
        }
    }
}

} // verus!

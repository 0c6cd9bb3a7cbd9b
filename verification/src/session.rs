//! A watch session as a state machine. The session says which directory to
//! watch next and what to do with each notification; the caller installs
//! the watches, reads the notifications and delivers the events.

use std::collections::HashMap;
use vstd::hash_map::StringHashMap;
use vstd::prelude::*;
use crate::errors::PatrolError;
use crate::masks::{dir_created_mask, spec_dir_created_mask};
use crate::model::{PlanItem, SessionView};
use crate::paths::{file_name_of, join, path_file_name, path_join, path_parent};
use crate::target::Target;

verus! {

broadcast use vstd::std_specs::hash::group_hash_axioms;

/// The options of a watch session.
#[derive(Clone, Debug, PartialEq, Eq)]
pub struct Config {
    /// Whether a directory created under a watched directory is put under
    /// watch too, on behalf of the same target.
    pub watch_new_directory: bool,
}

impl Default for Config {
    fn default() -> (config: Config)
        ensures
            !config.watch_new_directory,
    {
        Config { watch_new_directory: false }
    }
}

/// A change that belongs to a registered target.
#[derive(Debug)]
pub struct Event<T> {
    /// A clone of the target's payload.
    pub data: T,
    /// The path of what changed.
    pub path: String,
}

/// A notification as the source reports it.
#[derive(Debug, Clone)]
pub struct RawEvent {
    /// The handle of the watch that saw the change.
    pub handle: u64,
    /// The name of the entry that changed, where the notification has one.
    pub name: Option<String>,
    /// The bits that say what happened.
    pub mask: u32,
}

/// What a notification asks of the caller.
#[derive(Debug)]
pub enum Reaction<T> {
    /// The notification belongs to no target: nothing to do.
    Ignored,
    /// Deliver the event.
    Deliver(Event<T>),
    /// A directory was born under a watched directory. Install a watch on
    /// the event's path, report it with `Session::adopt` together with
    /// `owner`, and only then deliver the event.
    Extend { event: Event<T>, owner: usize },
}

/// The targets to watch and the options to watch them with.
pub struct Patrol<T> {
    config: Config,
    targets: Vec<Target<T>>,
}

/// Why a target cannot be registered, if it cannot: a file needs a final
/// component to be known by, and a parent to be watched in.
pub open spec fn target_fault(path: Seq<char>, is_file: bool) -> Option<PatrolError> {
    if !is_file {
        None
    } else if path_file_name(path).is_none() {
        Some(PatrolError::NoFilename)
    } else if path_parent(path).is_none() {
        Some(PatrolError::FilepathEncoding)
    } else {
        None
    }
}

/// What registration has to know of a target that can be registered.
pub open spec fn plan_item(path: Seq<char>, is_file: bool) -> PlanItem {
    if is_file {
        PlanItem { dir: path_parent(path).unwrap(), name: path_file_name(path) }
    } else {
        PlanItem { dir: path, name: None }
    }
}

struct Resolved {
    dir: String,
    name: Option<String>,
}

impl Resolved {
    spec fn item(self) -> PlanItem {
        PlanItem {
            dir: self.dir@,
            name: match self.name {
                Some(n) => Some(n@),
                None => None,
            },
        }
    }
}

struct FileEntry {
    handle: u64,
    name: String,
    target: usize,
}

spec fn file_map(entries: Seq<FileEntry>) -> Map<(u64, Seq<char>), usize>
    decreases entries.len(),
{
    if entries.len() == 0 {
        Map::empty()
    } else {
        let last = entries.last();
        file_map(entries.drop_last()).insert((last.handle, last.name@), last.target)
    }
}

/// A watch session: the targets, how far their registration has come, and
/// the tables built so far.
pub struct Session<T> {
    config: Config,
    targets: Vec<Target<T>>,
    plan: Vec<Resolved>,
    cursor: usize,
    watched: StringHashMap<u64>,
    paths: HashMap<u64, String>,
    directories: HashMap<u64, usize>,
    files: Vec<FileEntry>,
}

impl<T> Patrol<T> {
    /// The options.
    pub closed spec fn config(&self) -> Config {
        self.config
    }

    /// The targets, in the order in which they were given.
    pub closed spec fn targets(&self) -> Seq<Target<T>> {
        self.targets@
    }

    /// A patrol over `targets`.
    pub fn new(config: Config, targets: Vec<Target<T>>) -> (patrol: Patrol<T>)
        ensures
            patrol.config() == config,
            patrol.targets() == targets@,
    {
        Patrol { config, targets }
    }

    /// Checks every target and opens the session, with nothing watched yet.
    /// The first target that cannot be registered decides the error: a
    /// file target without a final component gives `NoFilename`, one with a
    /// final component but without a parent gives `FilepathEncoding`.
    pub fn start(self) -> (opened: Result<Session<T>, PatrolError>)
        ensures
            match opened {
                Ok(session) => {
                    &&& session.wf()
                    &&& session.config() == self.config()
                    &&& session.targets() == self.targets()
                    &&& session.cursor() == 0
                    &&& session@ == SessionView::empty()
                    &&& session.plan().len() == self.targets().len()
                    &&& forall|i: int|
                        0 <= i < self.targets().len() ==> {
                            let t = #[trigger] self.targets()[i];
                            &&& target_fault(t.path@, t.is_file).is_none()
                            &&& session.plan()[i] == plan_item(t.path@, t.is_file)
                        }
                },
                Err(e) => exists|i: int|
                    {
                        &&& 0 <= i < self.targets().len()
                        &&& target_fault(
                            (#[trigger] self.targets()[i]).path@,
                            self.targets()[i].is_file,
                        ) == Some(e)
                        &&& forall|j: int|
                            0 <= j < i ==> target_fault(
                                (#[trigger] self.targets()[j]).path@,
                                self.targets()[j].is_file,
                            ).is_none()
                    },
            },
    {
        let mut plan: Vec<Resolved> = Vec::new();
        let mut i: usize = 0;
        while i < self.targets.len()
            invariant
                i <= self.targets.len(),
                plan.len() == i,
                forall|j: int|
                    0 <= j < i ==> {
                        let t = #[trigger] self.targets@[j];
                        &&& target_fault(t.path@, t.is_file).is_none()
                        &&& plan@[j].item() == plan_item(t.path@, t.is_file)
                    },
            decreases self.targets.len() - i,
        {
            let target = &self.targets[i];
            let name: Option<String> = if target.is_file {
                match file_name_of(target.path.as_str()) {
                    Some(n) => Some(n),
                    None => {
                        return Err(PatrolError::NoFilename);
                    },
                }
            } else {
                None
            };
            match target.watching_path() {
                Ok(dir) => {
                    plan.push(Resolved { dir, name });
                },
                Err(e) => {
                    return Err(e);
                },
            }
            i = i + 1;
        }
        let session = Session {
            config: self.config,
            targets: self.targets,
            plan,
            cursor: 0,
            watched: StringHashMap::new(),
            paths: HashMap::new(),
            directories: HashMap::new(),
            files: Vec::new(),
        };
        proof {
            assert(session@.paths =~= Map::empty());
        }
        Ok(session)
    }
}

impl<T> View for Session<T> {
    type V = SessionView;

    closed spec fn view(&self) -> SessionView {
        SessionView {
            watched: self.watched@,
            paths: Map::new(|h: u64| self.paths@.contains_key(h), |h: u64| self.paths@[h]@),
            directories: self.directories@,
            files: file_map(self.files@),
        }
    }
}

impl<T> Session<T> {
    /// The options.
    pub closed spec fn config(&self) -> Config {
        self.config
    }

    /// The targets, in the order in which they were given.
    pub closed spec fn targets(&self) -> Seq<Target<T>> {
        self.targets@
    }

    /// For each target, the directory to watch and the name to match.
    pub closed spec fn plan(&self) -> Seq<PlanItem> {
        Seq::new(self.plan@.len(), |i: int| self.plan@[i].item())
    }

    /// The number of targets that are registered.
    pub closed spec fn cursor(&self) -> nat {
        self.cursor as nat
    }

    /// Whether every target is registered. Only then is the session
    /// running: notifications are read and new directories adopted.
    pub open spec fn registered(&self) -> bool {
        self.cursor() == self.plan().len()
    }

    /// The number of targets.
    pub fn target_count(&self) -> (count: usize)
        ensures
            count == self.targets().len(),
    {
        self.targets.len()
    }

    /// Whether directories born under a watched directory are watched too.
    pub fn watches_new_directories(&self) -> (enabled: bool)
        ensures
            enabled == self.config().watch_new_directory,
    {
        self.config.watch_new_directory
    }

    /// Whether every target is registered.
    pub fn is_registered(&self) -> (done: bool)
        requires
            self.wf(),
        ensures
            done == self.registered(),
    {
        self.cursor == self.plan.len()
    }

    /// Registers targets, in their order, for as long as their directory is
    /// watched, and stops at the first whose directory is not: that
    /// directory is the one to watch next. Returns nothing once every
    /// target is registered. A directory is asked for only while it is not
    /// watched, so no directory is ever asked for twice.
    pub fn next_request(&mut self) -> (request: Option<String>)
        requires
            old(self).wf(),
        ensures
            final(self).wf(),
            final(self).config() == old(self).config(),
            final(self).targets() == old(self).targets(),
            final(self).plan() == old(self).plan(),
            old(self).cursor() <= final(self).cursor() <= final(self).plan().len(),
            final(self)@ == old(self)@.populated(
                old(self).plan(),
                old(self).cursor() as int,
                final(self).cursor() as int,
            ),
            final(self)@.watched == old(self)@.watched,
            final(self)@.paths == old(self)@.paths,
            forall|i: int|
                old(self).cursor() <= i < final(self).cursor() ==> old(self)@.watched.contains_key(
                    (#[trigger] old(self).plan()[i]).dir,
                ),
            match request {
                Some(path) => {
                    &&& final(self).cursor() < final(self).plan().len()
                    &&& path@ == final(self).plan()[final(self).cursor() as int].dir
                    &&& !final(self)@.watched.contains_key(path@)
                },
                None => final(self).registered(),
            },
    {
        while self.cursor < self.plan.len()
            invariant
                self.wf(),
                self.config() == old(self).config(),
                self.targets() == old(self).targets(),
                self.plan() == old(self).plan(),
                old(self).cursor() <= self.cursor() <= self.plan().len(),
                self@ == old(self)@.populated(
                    old(self).plan(),
                    old(self).cursor() as int,
                    self.cursor() as int,
                ),
                self@.watched == old(self)@.watched,
                self@.paths == old(self)@.paths,
                forall|i: int|
                    old(self).cursor() <= i < self.cursor() ==> old(self)@.watched.contains_key(
                        (#[trigger] old(self).plan()[i]).dir,
                    ),
            decreases self.plan.len() - self.cursor,
        {
            let position: usize = self.cursor;
            let ghost before = self@;
            let ghost item = self.plan()[position as int];
            let found: Option<u64> = match self.watched.get(self.plan[position].dir.as_str()) {
                Some(h) => Some(*h),
                None => None,
            };
            match found {
                None => {
                    return Some(self.plan[position].dir.clone());
                },
                Some(handle) => {
                    let name: Option<String> = self.plan[position].name.clone();
                    match name {
                        Some(n) => {
                            proof {
                                let grown = self.files@.push(
                                    FileEntry { handle, name: n, target: position },
                                );
                                assert(grown.drop_last() =~= self.files@);
                            }
                            self.files.push(FileEntry { handle, name: n, target: position });
                        },
                        None => {
                            self.directories.insert(handle, position);
                        },
                    }
                    self.cursor = position + 1;
                    proof {
                        assert(self@.paths =~= before.paths);
                        assert(self@ == before.with_target(item, position));
                    }
                },
            }
        }
        None
    }

    /// Records that a watch on `path` was installed and answered with
    /// `handle`. A directory that is watched already keeps its handle.
    pub fn installed(&mut self, path: String, handle: u64)
        requires
            old(self).wf(),
        ensures
            final(self).wf(),
            final(self).config() == old(self).config(),
            final(self).targets() == old(self).targets(),
            final(self).plan() == old(self).plan(),
            final(self).cursor() == old(self).cursor(),
            final(self)@ == old(self)@.with_watch(path@, handle),
    {
        if !self.watched.contains_key(path.as_str()) {
            let ghost before = self@;
            self.paths.insert(handle, path.clone());
            self.watched.insert(path, handle);
            proof {
                assert(self@.paths =~= before.paths.insert(handle, path@));
            }
        }
    }

    /// Records, in a running session, that a watch on the new directory
    /// `path` was installed and answered with `handle`, and gives the
    /// directory to the target at `owner`: from now on every change in it
    /// belongs to that target. A directory that is watched already changes
    /// nothing.
    pub fn adopt(&mut self, path: String, handle: u64, owner: usize)
        requires
            old(self).wf(),
            old(self).registered(),
            owner < old(self).targets().len(),
        ensures
            final(self).wf(),
            final(self).config() == old(self).config(),
            final(self).targets() == old(self).targets(),
            final(self).plan() == old(self).plan(),
            final(self).cursor() == old(self).cursor(),
            final(self)@ == old(self)@.with_branch(path@, handle, owner),
    {
        if !self.watched.contains_key(path.as_str()) {
            let ghost before = self@;
            self.paths.insert(handle, path.clone());
            self.watched.insert(path, handle);
            self.directories.insert(handle, owner);
            proof {
                assert(self@.paths =~= before.paths.insert(handle, path@));
            }
        }
    }

    /// The file target registered under `handle` with exactly `name`.
    fn file_owner(&self, handle: u64, name: &String) -> (owner: Option<usize>)
        ensures
            owner == file_map(self.files@).get((handle, name@)),
    {
        let ghost key = (handle, name@);
        let ghost all = file_map(self.files@);
        let mut i: usize = self.files.len();
        proof {
            assert(self.files@.take(i as int) =~= self.files@);
        }
        while i > 0
            invariant
                i <= self.files.len(),
                key == (handle, name@),
                all == file_map(self.files@),
                all.get(key) == file_map(self.files@.take(i as int)).get(key),
            decreases i,
        {
            let entry = &self.files[i - 1];
            proof {
                let prefix = self.files@.take(i as int);
                assert(prefix.drop_last() =~= self.files@.take(i - 1));
            }
            if entry.handle == handle && entry.name == *name {
                return Some(entry.target);
            }
            i = i - 1;
        }
        None
    }

    /// The tables name only targets that exist, and every handle they name
    /// has a directory.
    pub closed spec fn wf(&self) -> bool {
        &&& self.plan@.len() == self.targets@.len()
        &&& self.cursor <= self.plan@.len()
        &&& forall|p: Seq<char>| #[trigger]
            self.watched@.contains_key(p) ==> self.paths@.contains_key(self.watched@[p])
        &&& forall|h: u64| #[trigger]
            self.directories@.contains_key(h) ==> self.paths@.contains_key(h)
                && self.directories@[h] < self.targets@.len()
        &&& forall|i: int|
            0 <= i < self.files@.len() ==> self.paths@.contains_key(
                (#[trigger] self.files@[i]).handle,
            ) && self.files@[i].target < self.targets@.len()
    }
}

impl<T: Clone> Session<T> {
    /// Says what a notification asks for, once every target is registered.
    ///
    /// A notification without a name, or one that belongs to no target, is
    /// ignored. Otherwise the event carries a clone of the target's payload
    /// and the path of the watched directory extended by the name. Where
    /// new directories are to be watched, the notification reports exactly
    /// the creation of a directory, and that directory is not watched yet,
    /// the reaction asks for the watch first.
    pub fn correlate(&self, raw: &RawEvent) -> (reaction: Reaction<T>)
        requires
            self.wf(),
            self.registered(),
        ensures
            !self.config().watch_new_directory ==> !(reaction is Extend),
            match raw.name {
                None => reaction is Ignored,
                Some(name) => match self@.matched(raw.handle, name@) {
                    None => reaction is Ignored,
                    Some(position) => {
                        let path = path_join(self@.paths[raw.handle], name@);
                        let extend = self.config().watch_new_directory && raw.mask
                            == spec_dir_created_mask() && !self@.watched.contains_key(path);
                        &&& position < self.targets().len()
                        &&& self@.paths.contains_key(raw.handle)
                        &&& match reaction {
                            Reaction::Ignored => false,
                            Reaction::Deliver(event) => {
                                &&& !extend
                                &&& event.path@ == path
                                &&& cloned(self.targets()[position as int].data, event.data)
                            },
                            Reaction::Extend { event, owner } => {
                                &&& extend
                                &&& owner == position
                                &&& event.path@ == path
                                &&& cloned(self.targets()[position as int].data, event.data)
                            },
                        }
                    },
                },
            },
    {
        let name: &String = match &raw.name {
            Some(n) => n,
            None => {
                return Reaction::Ignored;
            },
        };
        let found: Option<usize> = match self.directories.get(&raw.handle) {
            Some(position) => Some(*position),
            None => self.file_owner(raw.handle, name),
        };
        let position: usize = match found {
            Some(p) => p,
            None => {
                return Reaction::Ignored;
            },
        };
        proof {
            if !self.directories@.contains_key(raw.handle) {
                self.lemma_files_sound(raw.handle, name@);
            }
        }
        let dir: &String = match self.paths.get(&raw.handle) {
            Some(d) => d,
            None => {
                return Reaction::Ignored;
            },
        };
        let path: String = join(dir.as_str(), name.as_str());
        let data: T = self.targets[position].data.clone();
        let extend: bool = self.config.watch_new_directory && raw.mask == dir_created_mask()
            && !self.watched.contains_key(path.as_str());
        let event = Event { data, path };
        if extend {
            Reaction::Extend { event, owner: position }
        } else {
            Reaction::Deliver(event)
        }
    }
}

impl<T> Session<T> {
    /// Every file entry that the map holds names a known handle and an
    /// existing target.
    proof fn lemma_files_sound(&self, handle: u64, name: Seq<char>)
        requires
            self.wf(),
            file_map(self.files@).contains_key((handle, name)),
        ensures
            self.paths@.contains_key(handle),
            file_map(self.files@)[(handle, name)] < self.targets@.len(),
    {
        lemma_file_map_member(self.files@, (handle, name));
    }
}

/// A key of the map of some entries is the key of one of them, and is
/// mapped to that entry's target.
proof fn lemma_file_map_member(entries: Seq<FileEntry>, key: (u64, Seq<char>))
    requires
        file_map(entries).contains_key(key),
    ensures
        exists|i: int|
            0 <= i < entries.len() && (#[trigger] entries[i]).handle == key.0 && entries[i].name@
                == key.1 && entries[i].target == file_map(entries)[key],
    decreases entries.len(),
{
    if entries.len() > 0 {
        let last = entries.last();
        if (last.handle, last.name@) == key {
            assert(entries[entries.len() - 1] == last);
        } else {
            lemma_file_map_member(entries.drop_last(), key);
            let i = choose|i: int|
                0 <= i < entries.drop_last().len() && (#[trigger] entries.drop_last()[i]).handle
                    == key.0 && entries.drop_last()[i].name@ == key.1
                    && entries.drop_last()[i].target == file_map(entries.drop_last())[key];
            assert(entries[i] == entries.drop_last()[i]);
        }
    }
}

} // verus!

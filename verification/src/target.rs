use vstd::prelude::*;
use crate::errors::PatrolError;
use crate::paths::{parent_of, path_parent};

verus! {

/// One thing to watch: a path, whether it names a file, and the caller's
/// payload, which the library hands on and never reads.
#[derive(Debug, Clone)]
pub struct Target<T> {
    pub path: String,
    pub is_file: bool,
    pub data: T,
}

/// A target without payload.
pub type TargetU = Target<()>;

/// The directory to watch for a target with the given path: the path
/// itself for a directory, the path's parent for a file, and nothing for a
/// file whose path has no parent.
pub open spec fn watched_dir(path: Seq<char>, is_file: bool) -> Option<Seq<char>> {
    if is_file {
        path_parent(path)
    } else {
        Some(path)
    }
}

impl<T> Target<T> {
    /// A target for `path`. `is_file` says what the caller found at the
    /// path when it looked; the flag is kept as given and never looked up
    /// again.
    pub fn new(path: String, is_file: bool, data: T) -> (target: Target<T>)
        ensures
            target.path == path,
            target.is_file == is_file,
            target.data == data,
    {
        Target { path, is_file, data }
    }

    /// The directory that has to be watched for this target.
    pub open spec fn spec_watching_path(&self) -> Option<Seq<char>> {
        watched_dir(self.path@, self.is_file)
    }

    /// The directory that has to be watched for this target: its own path
    /// if it is a directory, the parent of its path if it is a file. A file
    /// whose path has no parent cannot be watched.
    pub fn watching_path(&self) -> (dir: Result<String, PatrolError>)
        ensures
            match dir {
                Ok(d) => self.spec_watching_path() == Some(d@),
                Err(e) => self.spec_watching_path().is_none() && e is FilepathEncoding,
            },
    {
        if self.is_file {
            match parent_of(self.path.as_str()) {
                Some(parent) => Ok(parent),
                None => Err(PatrolError::FilepathEncoding),
            }
        } else {
            Ok(self.path.clone())
        }
    }
}

/// Targets without payload, one for each path, in the same order. Each
/// path comes with what the caller found there: whether it names a file.
pub fn build_targets(probed: &Vec<(String, bool)>) -> (targets: Vec<TargetU>)
    ensures
        targets@.len() == probed@.len(),
        forall|i: int|
            0 <= i < probed@.len() ==> (#[trigger] targets@[i]).path@ == probed@[i].0@
                && targets@[i].is_file == probed@[i].1,
{
    let mut targets: Vec<TargetU> = Vec::new();
    let mut i: usize = 0;
    while i < probed.len()
        invariant
            i <= probed@.len(),
            targets@.len() == i,
            forall|j: int|
                0 <= j < i ==> (#[trigger] targets@[j]).path@ == probed@[j].0@
                    && targets@[j].is_file == probed@[j].1,
        decreases probed@.len() - i,
    {
        targets.push(Target::new(probed[i].0.clone(), probed[i].1, ()));
        i = i + 1;
    }
    targets
}

} // verus!

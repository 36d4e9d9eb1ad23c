//! Change events: the raw notification as the watcher reports it, and the
//! normalized event that the rest of the library works on.

use vstd::prelude::*;

verus! {

/// What kind of filesystem object a creation or removal concerns.
#[derive(Clone, Copy, Debug, PartialEq, Eq, Structural)]
pub enum ObjectKind {
    Any,
    File,
    Folder,
    Other,
}

/// The coarse kind tag of a raw notification.
#[derive(Clone, Copy, Debug, PartialEq, Eq, Structural)]
pub enum ChangeKind {
    Any,
    Access,
    Create(ObjectKind),
    Modify,
    Remove(ObjectKind),
    Other,
}

/// A notification as the event source hands it over: a kind tag and the
/// affected paths.
#[derive(Clone, Debug)]
pub struct RawEvent {
    pub kind: ChangeKind,
    pub paths: Vec<String>,
}

/// A normalized change event. `is_dir` says whether the object that
/// triggered the event is a directory; every path of one event is matched
/// with that same flag.
#[derive(Clone, Debug)]
pub struct FileChangeEvent {
    pub paths: Vec<String>,
    pub is_dir: bool,
}

/// A notification concerns a directory exactly when it reports the creation
/// or the removal of a folder.
pub open spec fn concerns_directory(kind: ChangeKind) -> bool {
    kind == ChangeKind::Create(ObjectKind::Folder) || kind == ChangeKind::Remove(
        ObjectKind::Folder,
    )
}

impl FileChangeEvent {
    /// Normalizes a raw notification, keeping its paths in order.
    pub fn new(event: RawEvent) -> (normalized: FileChangeEvent)
        ensures
            normalized.paths == event.paths,
            normalized.is_dir == concerns_directory(event.kind),
    {
        let is_directory = match event.kind {
            ChangeKind::Create(object) => match object {
                ObjectKind::Folder => true,
                _ => false,
            },
            ChangeKind::Modify => false,
            ChangeKind::Remove(object) => match object {
                ObjectKind::Folder => true,
                _ => false,
            },
            _ => false,
        };
        FileChangeEvent { paths: event.paths, is_dir: is_directory }
    }
}

} // verus!

use vstd::prelude::*;
use crate::error::{BackupError, BackupErrorKind};

verus! {

/// Attribute bit of an entry the operating system owns.
pub const FILE_ATTRIBUTE_SYSTEM: u32 = 0x4;

/// Attribute bit of a temporary entry.
pub const FILE_ATTRIBUTE_TEMPORARY: u32 = 0x100;

/// What an entry's own metadata (links not followed) says it is.
#[derive(Debug, Clone, Copy, PartialEq, Eq, Structural)]
pub enum EntryKind {
    Symlink,
    Directory,
    /// A regular file, or anything else that is neither a link nor a
    /// directory.
    File,
}

/// Entries marked as system or temporary are invisible to the walk.
pub open spec fn is_excluded_spec(attributes: u32) -> bool {
    attributes & FILE_ATTRIBUTE_SYSTEM != 0 || attributes & FILE_ATTRIBUTE_TEMPORARY != 0
}

/// Whether an entry's attributes hide it from the walk.
pub fn is_excluded(attributes: u32) -> (r: bool)
    ensures
        r == is_excluded_spec(attributes),
{
    let r = attributes & (FILE_ATTRIBUTE_SYSTEM | FILE_ATTRIBUTE_TEMPORARY) != 0;
    assert(r == (attributes & 0x4u32 != 0 || attributes & 0x100u32 != 0)) by (bit_vector)
        requires r == (attributes & (0x4u32 | 0x100u32) != 0);
    r
}

/// How the walk treats a listed entry.
pub enum Verdict {
    /// Invisible: neither counted nor reported.
    Skip,
    /// Yielded as an entry.
    Yield,
    /// Reported as a symbolic link, and not descended into.
    Link,
}

pub open spec fn verdict_for(kind: EntryKind, attributes: u32) -> Verdict {
    if is_excluded_spec(attributes) {
        Verdict::Skip
    } else if kind == EntryKind::Symlink {
        Verdict::Link
    } else {
        Verdict::Yield
    }
}

/// The walker's state in the abstract: the directories still to be listed,
/// most recently found last, and whether a listing is open.
pub struct WalkModel<D> {
    pub pending: Seq<D>,
    pub open: bool,
}

/// The state after asking for the next action: with no listing open, the
/// most recently found directory leaves the stack to be opened.
pub open spec fn after_action<D>(s: WalkModel<D>) -> WalkModel<D> {
    if !s.open && s.pending.len() > 0 {
        WalkModel { pending: s.pending.drop_last(), open: false }
    } else {
        s
    }
}

/// The state after a listed entry: a visible directory is scheduled.
pub open spec fn after_entry<D>(s: WalkModel<D>, d: D, kind: EntryKind, attributes: u32) -> WalkModel<
    D,
> {
    if !is_excluded_spec(attributes) && kind == EntryKind::Directory {
        WalkModel { pending: s.pending.push(d), open: s.open }
    } else {
        s
    }
}

pub open spec fn closed<D>(s: WalkModel<D>) -> WalkModel<D> {
    WalkModel { pending: s.pending, open: false }
}

pub open spec fn opened<D>(s: WalkModel<D>) -> WalkModel<D> {
    WalkModel { pending: s.pending, open: true }
}

/// What the caller is to do next.
#[derive(Debug)]
pub enum WalkAction {
    /// Read the next entry of the open listing.
    ReadNext,
    /// Open this directory's listing.
    Open(std::path::PathBuf),
    /// The walk is over.
    Finished,
}

/// The decision for one listed entry.
#[derive(Debug)]
pub enum EntryVerdict {
    Skip,
    Yield,
    Reject(BackupError),
}

/// A depth-first, error-tolerant walk over every entry below a directory,
/// kept as an explicit stack of directories still to be listed. The caller
/// does the listing: it asks for the next action, performs it, and reports
/// what happened.
#[derive(Debug)]
pub struct ReadSubDirMeta {
    pub dirs: Vec<std::path::PathBuf>,
    pub listing_open: bool,
}

impl ReadSubDirMeta {
    pub open spec fn model(&self) -> WalkModel<std::path::PathBuf> {
        WalkModel { pending: self.dirs@, open: self.listing_open }
    }

    /// A walk of everything below `path`.
    pub fn new(path: std::path::PathBuf) -> (r: Self)
        ensures
            r.model() == (WalkModel { pending: seq![path], open: false }),
    {
        let r = ReadSubDirMeta { dirs: vec![path], listing_open: false };
        assert(r.dirs@ =~= seq![path]);
        r
    }

    /// The next thing to do: read on in the open listing, open the most
    /// recently found pending directory, or stop when none is left.
    pub fn next_action(&mut self) -> (a: WalkAction)
        ensures
            final(self).model() == after_action(old(self).model()),
            old(self).listing_open ==> a is ReadNext,
            !old(self).listing_open && old(self).dirs@.len() > 0 ==> a == WalkAction::Open(
                old(self).dirs@.last(),
            ),
            !old(self).listing_open && old(self).dirs@.len() == 0 ==> a is Finished,
    {
        if self.listing_open {
            WalkAction::ReadNext
        } else {
            match self.dirs.pop() {
                Some(path) => WalkAction::Open(path),
                None => WalkAction::Finished,
            }
        }
    }

    /// The directory handed out by `Open` could be listed.
    pub fn listing_opened(&mut self)
        ensures
            final(self).model() == opened(old(self).model()),
    {
        self.listing_open = true;
    }

    /// The open listing has no more entries.
    pub fn listing_finished(&mut self)
        ensures
            final(self).model() == closed(old(self).model()),
    {
        self.listing_open = false;
    }

    /// Reading the open listing failed: the listing is closed and the
    /// failure reported; the walk goes on with the pending directories.
    pub fn listing_failed(&mut self, cause: std::io::Error) -> (r: BackupError)
        ensures
            final(self).model() == closed(old(self).model()),
            r == (BackupError { kind: BackupErrorKind::Io(cause), path: None }),
    {
        self.listing_open = false;
        BackupError::untagged(BackupErrorKind::Io(cause))
    }

    /// The directory handed out by `Open` could not be listed: the failure
    /// is reported with its path and the walk goes on with the others.
    pub fn open_failed(&self, cause: std::io::Error, path: std::path::PathBuf) -> (r: BackupError)
        ensures
            r == (BackupError { kind: BackupErrorKind::Io(cause), path: Some(path) }),
    {
        BackupError::new(BackupErrorKind::Io(cause), path)
    }

    /// A listed entry whose metadata could not be read.
    pub fn entry_unreadable(&self, cause: std::io::Error) -> (r: BackupError)
        ensures
            r == (BackupError { kind: BackupErrorKind::Io(cause), path: None }),
    {
        BackupError::untagged(BackupErrorKind::Io(cause))
    }

    /// Decides on a listed entry: system and temporary entries are skipped,
    /// a symbolic link is reported with its path and never descended into,
    /// and anything else is yielded, a directory being scheduled as well.
    pub fn on_entry(&mut self, path: std::path::PathBuf, kind: EntryKind, attributes: u32) -> (r:
        EntryVerdict)
        ensures
            final(self).model() == after_entry(old(self).model(), path, kind, attributes),
            match verdict_for(kind, attributes) {
                Verdict::Skip => r is Skip,
                Verdict::Yield => r is Yield,
                Verdict::Link => r == EntryVerdict::Reject(
                    BackupError { kind: BackupErrorKind::IsSymlink, path: Some(path) },
                ),
            },
    {
        if is_excluded(attributes) {
            EntryVerdict::Skip
        } else {
            match kind {
                EntryKind::Symlink => EntryVerdict::Reject(
                    BackupError::new(BackupErrorKind::IsSymlink, path),
                ),
                EntryKind::Directory => {
                    self.dirs.push(path);
                    EntryVerdict::Yield
                },
                EntryKind::File => EntryVerdict::Yield,
            }
        }
    }
}

} // verus!

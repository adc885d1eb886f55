use vstd::prelude::*;
use crate::error::{BackupError, BackupErrorKind};
use crate::walk::EntryKind;

verus! {

/// A source that passed validation, in the form the copy tool is given it.
#[derive(Debug)]
pub enum SourceForm {
    /// A directory, copied with everything below it.
    Directory(std::path::PathBuf),
    /// A single file: the copy tool is given its parent directory and, as a
    /// separate argument, its name.
    SingleFile(std::path::PathBuf),
}

/// Decides on a raw source path from its own metadata (links not
/// followed): unreadable metadata is an I/O error, a symbolic link is
/// refused, a file is copied on its own, and anything else as a directory.
pub fn validate_source(
    path: std::path::PathBuf,
    metadata: Result<EntryKind, std::io::Error>,
) -> (r: Result<SourceForm, BackupError>)
    ensures
        match metadata {
            Err(e) => r == Err::<SourceForm, BackupError>(
                BackupError { kind: BackupErrorKind::Io(e), path: Some(path) },
            ),
            Ok(EntryKind::Symlink) => r == Err::<SourceForm, BackupError>(
                BackupError { kind: BackupErrorKind::IsSymlink, path: Some(path) },
            ),
            Ok(EntryKind::File) => r == Ok::<SourceForm, BackupError>(SourceForm::SingleFile(path)),
            Ok(EntryKind::Directory) => r == Ok::<SourceForm, BackupError>(
                SourceForm::Directory(path),
            ),
        },
{
    match metadata {
        Err(e) => Err(BackupError::new(BackupErrorKind::Io(e), path)),
        Ok(EntryKind::Symlink) => Err(BackupError::new(BackupErrorKind::IsSymlink, path)),
        Ok(EntryKind::File) => Ok(SourceForm::SingleFile(path)),
        Ok(EntryKind::Directory) => Ok(SourceForm::Directory(path)),
    }
}

/// Running totals over every walked source: bytes, files, folders, and
/// errors reported. Each total stops at `u64::MAX` rather than wrapping.
#[derive(Debug, Clone, Copy, PartialEq, Eq, Structural)]
pub struct WalkStats {
    pub byte_count: u64,
    pub file_count: u64,
    pub folder_count: u64,
    pub error_count: u64,
}

pub open spec fn capped_add(a: u64, b: u64) -> u64 {
    if a + b > u64::MAX {
        u64::MAX
    } else {
        (a + b) as u64
    }
}

impl WalkStats {
    pub fn new() -> (r: Self)
        ensures
            r == (WalkStats { byte_count: 0, file_count: 0, folder_count: 0, error_count: 0 }),
    {
        WalkStats { byte_count: 0, file_count: 0, folder_count: 0, error_count: 0 }
    }

    /// Counts a yielded entry of `len` bytes as a file or a folder.
    pub fn record_entry(&mut self, len: u64, kind: EntryKind)
        ensures
            final(self).byte_count == capped_add(old(self).byte_count, len),
            final(self).file_count == if kind == EntryKind::File {
                capped_add(old(self).file_count, 1)
            } else {
                old(self).file_count
            },
            final(self).folder_count == if kind == EntryKind::Directory {
                capped_add(old(self).folder_count, 1)
            } else {
                old(self).folder_count
            },
            final(self).error_count == old(self).error_count,
    {
        self.byte_count = self.byte_count.saturating_add(len);
        match kind {
            EntryKind::File => {
                self.file_count = self.file_count.saturating_add(1);
            },
            EntryKind::Directory => {
                self.folder_count = self.folder_count.saturating_add(1);
            },
            EntryKind::Symlink => {},
        }
    }

    /// Counts one reported error.
    pub fn record_error(&mut self)
        ensures
            *final(self) == (WalkStats {
                error_count: capped_add(old(self).error_count, 1),
                ..*old(self)
            }),
    {
        self.error_count = self.error_count.saturating_add(1);
    }
}

/// Exit codes of the copy tool from this one up mean that the copy failed.
pub const COPY_FAILURE_THRESHOLD: i32 = 8;

/// What the copy tool's exit status means for the batch.
#[derive(Debug, Clone, Copy, PartialEq, Eq, Structural)]
pub enum CopyOutcome {
    /// Copied, possibly with warnings: go on with the next source.
    Completed(i32),
    /// The copy failed: the rest of the batch is abandoned.
    Failed(i32),
    /// The tool gave no exit code (it was killed): the batch is abandoned.
    NoExitCode,
}

/// Reads the copy tool's exit code.
pub fn copy_outcome(code: Option<i32>) -> (r: CopyOutcome)
    ensures
        r == match code {
            None => CopyOutcome::NoExitCode,
            Some(c) => if c >= COPY_FAILURE_THRESHOLD {
                CopyOutcome::Failed(c)
            } else {
                CopyOutcome::Completed(c)
            },
        },
{
    match code {
        None => CopyOutcome::NoExitCode,
        Some(c) => if c >= COPY_FAILURE_THRESHOLD {
            CopyOutcome::Failed(c)
        } else {
            CopyOutcome::Completed(c)
        },
    }
}

impl CopyOutcome {
    /// Whether the batch goes on after this copy.
    pub fn should_continue(&self) -> (r: bool)
        ensures
            r == (*self is Completed),
    {
        match self {
            CopyOutcome::Completed(_) => true,
            _ => false,
        }
    }
}

/// The flags handed to the copy tool after its paths: recursion for a
/// directory; then directory timestamps and attributes kept, junctions
/// excluded, progress shown, and ten retries five seconds apart.
pub open spec fn copy_flags_spec(single_file: bool) -> Seq<&'static str> {
    let common = seq!["/DCOPY:DAT", "/xj", "/eta", "/R:10", "/W:5"];
    if single_file {
        common
    } else {
        seq!["/S", "/E"] + common
    }
}

/// The copy tool's flags, for a single file or for a directory.
pub fn copy_flags(single_file: bool) -> (r: Vec<&'static str>)
    ensures
        r@ == copy_flags_spec(single_file),
{
    let mut r: Vec<&'static str> = Vec::new();
    if !single_file {
        r.push("/S");
        r.push("/E");
    }
    r.push("/DCOPY:DAT");
    r.push("/xj");
    r.push("/eta");
    r.push("/R:10");
    r.push("/W:5");
    assert(r@ =~= copy_flags_spec(single_file));
    r
}

/// The meaning of a reply to the confirmation prompt, once trailing
/// whitespace is gone: yes, no, or not understood (ask again).
pub open spec fn answer_of(t: Seq<char>) -> Option<bool> {
    if t == seq!['y'] || t == seq!['Y'] {
        Some(true)
    } else if t == seq!['n'] || t == seq!['N'] {
        Some(false)
    } else {
        None
    }
}

/// The reply without its trailing whitespace.
pub uninterp spec fn trimmed_end(s: Seq<char>) -> Seq<char>;

/// Relies on `str::trim_end`: the reply with trailing whitespace removed,
/// which is a prefix of it.
#[verifier::external_body]
fn trim_end(s: &str) -> (r: &str)
    ensures
        r@ == trimmed_end(s@),
        r@.len() <= s@.len(),
        r@ == s@.subrange(0, r@.len() as int),
{
    s.trim_end()
}

/// Reads a reply that has no trailing whitespace.
pub fn answer(reply: &str) -> (r: Option<bool>)
    ensures
        r == answer_of(reply@),
{
    if reply.unicode_len() != 1 {
        return None;
    }
    let c = reply.get_char(0);
    proof {
        if reply@ != seq![c] {
            assert(reply@ =~= seq![c]);
        }
    }
    if c == 'y' || c == 'Y' {
        Some(true)
    } else if c == 'n' || c == 'N' {
        Some(false)
    } else {
        None
    }
}

/// Reads a line typed at the confirmation prompt.
pub fn read_answer(line: &str) -> (r: Option<bool>)
    ensures
        r == answer_of(trimmed_end(line@)),
{
    answer(trim_end(line))
}

} // verus!

use vstd::prelude::*;

verus! {

/// A filesystem path, carried through the library without being inspected.
#[verifier::external_type_specification]
#[verifier::external_body]
pub struct ExPathBuf(std::path::PathBuf);

/// An I/O failure reported by the operating system, carried as the cause.
#[verifier::external_type_specification]
#[verifier::external_body]
pub struct ExIoError(std::io::Error);

/// What went wrong with one source path or one walked entry.
#[derive(Debug)]
pub enum BackupErrorKind {
    /// Reading metadata, listing a directory or canonicalizing failed.
    Io(std::io::Error),
    /// The entry is a symbolic link; links are reported and never followed.
    IsSymlink,
    /// The canonical path does not begin with a drive-letter volume prefix.
    NoDriveLetter,
}

/// An error together with the path it concerns, where one is known.
#[derive(Debug)]
pub struct BackupError {
    pub kind: BackupErrorKind,
    pub path: Option<std::path::PathBuf>,
}

impl BackupError {
    /// An error tagged with the offending path.
    pub fn new(kind: BackupErrorKind, path: std::path::PathBuf) -> (r: Self)
        ensures
            r == (BackupError { kind, path: Some(path) }),
    {
        BackupError { kind, path: Some(path) }
    }

    /// An error that concerns no particular path.
    pub fn untagged(kind: BackupErrorKind) -> (r: Self)
        ensures
            r == (BackupError { kind, path: None }),
    {
        BackupError { kind, path: None }
    }
}

impl From<BackupErrorKind> for BackupError {
    /// An error that concerns no particular path.
    fn from(kind: BackupErrorKind) -> (r: Self) {
        BackupError { kind, path: None }
    }
}

impl vstd::std_specs::convert::FromSpecImpl<BackupErrorKind> for BackupError {
    open spec fn obeys_from_spec() -> bool {
        true
    }

    open spec fn from_spec(kind: BackupErrorKind) -> BackupError {
        BackupError { kind, path: None }
    }
}

impl From<std::io::Error> for BackupErrorKind {
    /// An I/O failure with its cause.
    fn from(cause: std::io::Error) -> (r: Self) {
        BackupErrorKind::Io(cause)
    }
}

impl vstd::std_specs::convert::FromSpecImpl<std::io::Error> for BackupErrorKind {
    open spec fn obeys_from_spec() -> bool {
        true
    }

    open spec fn from_spec(cause: std::io::Error) -> BackupErrorKind {
        BackupErrorKind::Io(cause)
    }
}

} // verus!

use drive_backup::error::{BackupError, BackupErrorKind};
use drive_backup::input::source_lines;
use drive_backup::path::{map_destination, CalendarDate, PathComponent, backup_folder_name, backup_root};
use drive_backup::plan::{
    answer, copy_flags, copy_outcome, read_answer, validate_source, CopyOutcome, SourceForm,
    WalkStats,
};
use drive_backup::size::format_size;
use drive_backup::walk::EntryKind;
use std::path::PathBuf;

fn normal(s: &str) -> PathComponent {
    PathComponent::Normal(s.to_string())
}

fn disk(letter: char) -> PathComponent {
    PathComponent::Prefix { raw: format!("{}:", letter), drive: Some(letter) }
}

fn backups_root() -> Vec<PathComponent> {
    let output = vec![disk('D'), PathComponent::RootDir, normal("backups")];
    backup_root(&output, backup_folder_name(&CalendarDate { day: 5, month: 3, year: 2024 }))
}

#[test]
fn validation_decisions() {
    let missing = validate_source(
        PathBuf::from("C:\\missing"),
        Err(std::io::Error::from(std::io::ErrorKind::NotFound)),
    );
    match missing {
        Err(BackupError { kind: BackupErrorKind::Io(_), path }) => {
            assert_eq!(path, Some(PathBuf::from("C:\\missing")))
        }
        other => panic!("unexpected {:?}", other),
    }
    let link = validate_source(PathBuf::from("C:\\link"), Ok(EntryKind::Symlink));
    assert!(matches!(link, Err(BackupError { kind: BackupErrorKind::IsSymlink, .. })));
    let file = validate_source(PathBuf::from("C:\\file.txt"), Ok(EntryKind::File));
    assert!(matches!(file, Ok(SourceForm::SingleFile(p)) if p == PathBuf::from("C:\\file.txt")));
    let dir = validate_source(PathBuf::from("C:\\data"), Ok(EntryKind::Directory));
    assert!(matches!(dir, Ok(SourceForm::Directory(p)) if p == PathBuf::from("C:\\data")));
}

#[test]
fn error_conversions() {
    let e = BackupError::from(BackupErrorKind::NoDriveLetter);
    assert!(e.path.is_none());
    let k = BackupErrorKind::from(std::io::Error::from(std::io::ErrorKind::NotFound));
    assert!(matches!(k, BackupErrorKind::Io(_)));
    let e = BackupError::new(BackupErrorKind::IsSymlink, PathBuf::from("x"));
    assert_eq!(e.path, Some(PathBuf::from("x")));
    let e = BackupError::untagged(BackupErrorKind::IsSymlink);
    assert!(e.path.is_none());
}

#[test]
fn stats_accumulate_and_saturate() {
    let mut s = WalkStats::new();
    s.record_entry(100, EntryKind::File);
    s.record_entry(0, EntryKind::Directory);
    s.record_entry(50, EntryKind::File);
    s.record_error();
    assert_eq!(s, WalkStats { byte_count: 150, file_count: 2, folder_count: 1, error_count: 1 });
    s.record_entry(u64::MAX, EntryKind::File);
    assert_eq!(s.byte_count, u64::MAX);
    assert_eq!(s.file_count, 3);
}

#[test]
fn copy_exit_codes() {
    assert_eq!(copy_outcome(Some(0)), CopyOutcome::Completed(0));
    assert_eq!(copy_outcome(Some(7)), CopyOutcome::Completed(7));
    assert_eq!(copy_outcome(Some(8)), CopyOutcome::Failed(8));
    assert_eq!(copy_outcome(Some(16)), CopyOutcome::Failed(16));
    assert_eq!(copy_outcome(None), CopyOutcome::NoExitCode);
    assert!(copy_outcome(Some(1)).should_continue());
    assert!(!copy_outcome(Some(8)).should_continue());
    assert!(!copy_outcome(None).should_continue());
}

#[test]
fn copy_flags_for_directory_and_file() {
    assert_eq!(copy_flags(false), vec!["/S", "/E", "/DCOPY:DAT", "/xj", "/eta", "/R:10", "/W:5"]);
    assert_eq!(copy_flags(true), vec!["/DCOPY:DAT", "/xj", "/eta", "/R:10", "/W:5"]);
}

#[test]
fn confirmation_replies() {
    assert_eq!(read_answer("y\n"), Some(true));
    assert_eq!(read_answer("Y\r\n"), Some(true));
    assert_eq!(read_answer("n\n"), Some(false));
    assert_eq!(read_answer("N  \n"), Some(false));
    assert_eq!(read_answer(" y\n"), None);
    assert_eq!(read_answer("yes\n"), None);
    assert_eq!(read_answer(""), None);
    assert_eq!(answer("y"), Some(true));
    assert_eq!(answer("q"), None);
}

#[test]
fn input_lines_skip_blanks() {
    let text = "C:\\data\r\n\r\nC:\\missing\n\n";
    assert_eq!(source_lines(text), vec!["C:\\data".to_string(), "C:\\missing".to_string()]);
    assert_eq!(source_lines("C:\\one\nC:\\two"), vec!["C:\\one".to_string(), "C:\\two".to_string()]);
    assert!(source_lines("").is_empty());
    assert!(source_lines("\n\r\n\n").is_empty());
    assert_eq!(source_lines("C:\\é\n"), vec!["C:\\é".to_string()]);
}

#[test]
fn two_lines_one_missing() {
    let lines = source_lines("C:\\data\nC:\\missing\n");
    assert_eq!(lines.len(), 2);
    let mut stats = WalkStats::new();
    let mut copies = Vec::new();
    for (line, meta) in lines.iter().zip([
        Ok(EntryKind::Directory),
        Err(std::io::Error::from(std::io::ErrorKind::NotFound)),
    ]) {
        match validate_source(PathBuf::from(line), meta) {
            Ok(SourceForm::Directory(_)) => {
                let canonical = vec![disk('C'), PathComponent::RootDir, normal("data")];
                let dest = map_destination(&backups_root(), &canonical).unwrap();
                stats.record_entry(2_048, EntryKind::File);
                copies.push(dest);
            }
            Ok(SourceForm::SingleFile(_)) => panic!("not a file"),
            Err(e) => {
                assert!(matches!(e.kind, BackupErrorKind::Io(_)));
                stats.record_error();
            }
        }
    }
    assert_eq!(stats.error_count, 1);
    assert_eq!(copies.len(), 1);
    let mut expected = backups_root();
    expected.push(normal("C"));
    expected.push(normal("data"));
    assert_eq!(copies[0].components, expected);
    assert_eq!(expected[3], normal("Backup 05-03-2024"));
    assert_eq!(format_size(stats.byte_count), "2.05 KB");
}

#[test]
fn single_file_source() {
    let form = validate_source(PathBuf::from("C:\\file.txt"), Ok(EntryKind::File)).unwrap();
    assert!(matches!(form, SourceForm::SingleFile(_)));
    let parent = vec![disk('C'), PathComponent::RootDir];
    let dest = map_destination(&backups_root(), &parent).unwrap();
    let mut expected = backups_root();
    expected.push(normal("C"));
    assert_eq!(dest.components, expected);
    let flags = copy_flags(true);
    assert!(!flags.contains(&"/S"));
    assert!(!flags.iter().any(|f| f.contains("file.txt")));
}

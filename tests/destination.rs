use drive_backup::error::BackupErrorKind;
use drive_backup::path::{
    backup_folder_name, backup_root, map_destination, todays_backup_folder, volume_id,
    CalendarDate, PathComponent,
};

fn normal(s: &str) -> PathComponent {
    PathComponent::Normal(s.to_string())
}

fn disk(letter: char) -> PathComponent {
    PathComponent::Prefix { raw: format!("{}:", letter), drive: Some(letter) }
}

fn root() -> Vec<PathComponent> {
    vec![disk('D'), PathComponent::RootDir, normal("backups"), normal("Backup 05-03-2024")]
}

#[test]
fn directory_maps_under_its_drive_letter() {
    let source = vec![disk('C'), PathComponent::RootDir, normal("data"), normal("photos")];
    let dest = map_destination(&root(), &source).unwrap();
    let mut expected = root();
    expected.push(normal("C"));
    expected.push(normal("data"));
    expected.push(normal("photos"));
    assert_eq!(dest.components, expected);
}

#[test]
fn drive_root_maps_to_the_letter_folder() {
    let source = vec![disk('C'), PathComponent::RootDir];
    let dest = map_destination(&root(), &source).unwrap();
    let mut expected = root();
    expected.push(normal("C"));
    assert_eq!(dest.components, expected);
}

#[test]
fn verbatim_disk_prefix_is_recognised() {
    let source = vec![
        PathComponent::Prefix { raw: "\\\\?\\E:".to_string(), drive: Some('E') },
        PathComponent::RootDir,
        normal("music"),
    ];
    let dest = map_destination(&root(), &source).unwrap();
    assert_eq!(dest.components[4], normal("E"));
    assert_eq!(dest.components[5], normal("music"));
}

#[test]
fn path_without_drive_prefix_is_refused() {
    let relative = vec![normal("data")];
    assert!(matches!(map_destination(&root(), &relative), Err(BackupErrorKind::NoDriveLetter)));
    let rooted = vec![PathComponent::RootDir, normal("data")];
    assert!(matches!(map_destination(&root(), &rooted), Err(BackupErrorKind::NoDriveLetter)));
    let unc = vec![
        PathComponent::Prefix { raw: "\\\\server\\share".to_string(), drive: None },
        PathComponent::RootDir,
        normal("data"),
    ];
    assert!(matches!(map_destination(&root(), &unc), Err(BackupErrorKind::NoDriveLetter)));
    assert!(matches!(map_destination(&root(), &Vec::new()), Err(BackupErrorKind::NoDriveLetter)));
}

#[test]
fn different_drives_never_collide() {
    let c = vec![disk('C'), PathComponent::RootDir, normal("data")];
    let e = vec![disk('E'), PathComponent::RootDir, normal("data")];
    let dc = map_destination(&root(), &c).unwrap();
    let de = map_destination(&root(), &e).unwrap();
    assert_ne!(dc, de);
}

#[test]
fn volume_identifier_extraction() {
    assert_eq!(volume_id(&vec![disk('Z'), PathComponent::RootDir]), Some('Z'));
    assert_eq!(volume_id(&vec![normal("x")]), None);
    assert_eq!(volume_id(&Vec::new()), None);
}

#[test]
fn folder_name_pads_day_and_month() {
    let date = CalendarDate { day: 5, month: 3, year: 2024 };
    assert_eq!(backup_folder_name(&date), "Backup 05-03-2024");
    let date = CalendarDate { day: 31, month: 12, year: 999 };
    assert_eq!(backup_folder_name(&date), "Backup 31-12-999");
    let date = CalendarDate { day: 1, month: 1, year: -44 };
    assert_eq!(backup_folder_name(&date), "Backup 01-01--44");
}

#[test]
fn todays_folder_has_the_dated_shape() {
    let name = todays_backup_folder();
    assert!(name.starts_with("Backup "));
    let bytes = name.as_bytes();
    assert_eq!(bytes[9], b'-');
    assert_eq!(bytes[12], b'-');
    assert!(name.len() >= 17);
}

#[test]
fn backup_root_appends_the_folder() {
    let output = vec![disk('D'), PathComponent::RootDir, normal("backups")];
    let r = backup_root(&output, "Backup 05-03-2024".to_string());
    assert_eq!(r, root());
}

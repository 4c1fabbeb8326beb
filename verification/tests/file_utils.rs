use venv_cleaner::error::VenvCleanerError;
use venv_cleaner::file_utils::{DeletionProbe, FileUtils, IoFailure, PathStatus};
use venv_cleaner::timestamp::Timestamp;
use venv_cleaner::walk::{
    is_marker_directory, item_depth, measure_all, measure_subtree, EntryKind, EntryMetadata,
    WalkEntry, WalkItem,
};

fn meta(len: u64) -> Option<EntryMetadata> {
    let t = Timestamp::from_parts(1_700_000_000, 0);
    Some(EntryMetadata { len, created: Some(t), modified: Some(t) })
}

fn name_of(path: &str) -> String {
    path.rsplit('/').next().unwrap_or("").to_string()
}

fn dir(depth: usize, path: &str) -> WalkItem {
    WalkItem::Entry(WalkEntry {
        depth,
        path: path.to_string(),
        name: name_of(path),
        kind: EntryKind::Directory,
        metadata: meta(4096),
    })
}

fn file(depth: usize, path: &str, len: u64) -> WalkItem {
    WalkItem::Entry(WalkEntry {
        depth,
        path: path.to_string(),
        name: name_of(path),
        kind: EntryKind::File,
        metadata: meta(len),
    })
}

fn unreadable_file(depth: usize, path: &str) -> WalkItem {
    WalkItem::Entry(WalkEntry {
        depth,
        path: path.to_string(),
        name: name_of(path),
        kind: EntryKind::File,
        metadata: None,
    })
}

fn link(depth: usize, path: &str) -> WalkItem {
    WalkItem::Entry(WalkEntry {
        depth,
        path: path.to_string(),
        name: name_of(path),
        kind: EntryKind::Other,
        metadata: meta(99),
    })
}

fn denied(message: &str) -> IoFailure {
    IoFailure { permission_denied: true, message: message.to_string() }
}

fn broken(message: &str) -> IoFailure {
    IoFailure { permission_denied: false, message: message.to_string() }
}

#[test]
fn test_calculate_directory_size_empty() {
    let walk = vec![dir(0, "/tmp/empty")];
    let size =
        FileUtils::calculate_directory_size("/tmp/empty", PathStatus::Directory, &walk).unwrap();
    assert_eq!(size, 0);
}

#[test]
fn test_calculate_directory_size_with_files() {
    // one file holding "Hello, World!"
    let walk = vec![dir(0, "/tmp/d"), file(1, "/tmp/d/test.txt", 13)];
    let size = FileUtils::calculate_directory_size("/tmp/d", PathStatus::Directory, &walk).unwrap();
    assert!(size > 0);
    assert_eq!(size, 13); // "Hello, World!" is 13 bytes
}

#[test]
fn test_calculate_directory_size_nonexistent() {
    let result =
        FileUtils::calculate_directory_size("/nonexistent/path", PathStatus::Missing, &vec![]);
    assert!(result.is_err());
}

#[test]
fn test_can_delete_directory_exists() {
    let probe = DeletionProbe { exists: true, parent_mode: Some(Ok(0o755)), listing: Ok(()) };
    let result = FileUtils::can_delete_directory(&probe);
    assert!(result.is_ok());
}

#[test]
fn test_can_delete_directory_nonexistent() {
    let probe = DeletionProbe { exists: false, parent_mode: None, listing: Err(broken("gone")) };
    let result = FileUtils::can_delete_directory(&probe).unwrap();
    assert!(!result);
}

#[test]
fn test_count_items_empty() {
    let walk = vec![dir(0, "/tmp/empty")];
    let (files, dirs) = FileUtils::count_items(&walk).unwrap();
    assert_eq!(files, 0);
    assert_eq!(dirs, 0);
}

#[test]
fn test_count_items_with_content() {
    let walk = vec![dir(0, "/tmp/d"), file(1, "/tmp/d/file.txt", 7), dir(1, "/tmp/d/subdir")];
    let (files, dirs) = FileUtils::count_items(&walk).unwrap();
    assert_eq!(files, 1);
    assert_eq!(dirs, 1);
}

#[test]
fn test_is_valid_venv_directory_false() {
    assert!(!FileUtils::is_valid_venv_directory("/tmp/some-dir", true, &vec![]));
}

#[test]
fn test_is_valid_venv_directory_wrong_name() {
    assert!(!FileUtils::is_valid_venv_directory("/tmp/x/not_venv", true, &vec![]));
}

#[test]
fn test_is_valid_venv_directory_true() {
    let children = vec!["bin".to_string(), "lib".to_string(), "pyvenv.cfg".to_string()];
    assert!(FileUtils::is_valid_venv_directory("/tmp/x/.venv", true, &children));
}

#[test]
fn an_environment_needs_two_of_the_usual_contents() {
    let names = |list: &[&str]| list.iter().map(|s| s.to_string()).collect::<Vec<String>>();
    assert!(!FileUtils::is_valid_venv_directory("/x/.venv", true, &names(&["bin"])));
    assert!(!FileUtils::is_valid_venv_directory("/x/.venv", true, &names(&["bin", "src", "doc"])));
    assert!(FileUtils::is_valid_venv_directory("/x/.venv", true, &names(&["Scripts", "include"])));
    assert!(FileUtils::is_valid_venv_directory("/x/.venv", true, &names(&["a", "lib", "b", "bin"])));
    // the same name twice counts once
    assert!(!FileUtils::is_valid_venv_directory("/x/.venv", true, &names(&["bin", "bin"])));
    // something that is no directory is no environment
    assert!(!FileUtils::is_valid_venv_directory("/x/.venv", false, &names(&["bin", "lib"])));
    // the name has to be the marker exactly
    assert!(!FileUtils::is_valid_venv_directory("/x/venv", true, &names(&["bin", "lib"])));
    assert!(!FileUtils::is_valid_venv_directory("/", true, &names(&["bin", "lib"])));
}

#[test]
fn sizes_add_up_over_many_files() {
    let walk = vec![
        dir(0, "/d"),
        file(1, "/d/zero", 0),
        file(1, "/d/a", 1),
        dir(1, "/d/sub"),
        file(2, "/d/sub/b", 1000),
        link(2, "/d/sub/link"),
        unreadable_file(2, "/d/sub/secret"),
        WalkItem::Failure { depth: 2, message: "denied".to_string() },
        file(1, "/d/c", 1_000_000),
    ];
    let size = FileUtils::calculate_directory_size("/d", PathStatus::Directory, &walk).unwrap();
    assert_eq!(size, 1_001_001);
    let all = measure_all(&walk);
    assert_eq!(all.end, walk.len());
    assert_eq!(all.total_size, 1_001_001);
    assert_eq!(all.error_count, 2);
    let (files, dirs) = FileUtils::count_items(&walk).unwrap();
    assert_eq!(files, 5);
    assert_eq!(dirs, 1);
}

#[test]
fn sizes_stop_at_the_largest_number() {
    let walk = vec![dir(0, "/d"), file(1, "/d/a", u64::MAX - 5), file(1, "/d/b", 10)];
    let size = FileUtils::calculate_directory_size("/d", PathStatus::Directory, &walk).unwrap();
    assert_eq!(size, u64::MAX);
}

#[test]
fn a_subtree_ends_where_the_depth_falls_back() {
    let walk = vec![
        dir(0, "/r"),
        dir(1, "/r/a"),
        file(2, "/r/a/x", 5),
        dir(2, "/r/a/b"),
        file(3, "/r/a/b/y", 7),
        dir(1, "/r/c"),
        file(2, "/r/c/z", 11),
    ];
    let a = measure_subtree(&walk, 1);
    assert_eq!((a.end, a.total_size, a.error_count), (5, 12, 0));
    let b = measure_subtree(&walk, 3);
    assert_eq!((b.end, b.total_size), (5, 7));
    let c = measure_subtree(&walk, 5);
    assert_eq!((c.end, c.total_size), (7, 11));
    let root = measure_subtree(&walk, 0);
    assert_eq!((root.end, root.total_size), (7, 23));
    // a file is measured by itself
    let leaf = measure_subtree(&walk, 2);
    assert_eq!((leaf.end, leaf.total_size), (3, 5));
}

#[test]
fn markers_are_directories_named_dot_venv() {
    assert!(is_marker_directory(&dir(1, "/r/.venv")));
    assert!(!is_marker_directory(&dir(1, "/r/venv")));
    assert!(!is_marker_directory(&dir(1, "/r/.venv2")));
    assert!(!is_marker_directory(&file(1, "/r/.venv", 3)));
    assert!(!is_marker_directory(&link(1, "/r/.venv")));
    assert!(!is_marker_directory(&WalkItem::Failure { depth: 1, message: String::new() }));
    assert_eq!(item_depth(&dir(4, "/a/b/c/d")), 4);
    assert_eq!(item_depth(&WalkItem::Failure { depth: 9, message: String::new() }), 9);
}

#[test]
fn path_errors_name_the_path_and_the_reason() {
    match FileUtils::calculate_directory_size("/gone", PathStatus::Missing, &vec![]) {
        Err(VenvCleanerError::PathError { path, message }) => {
            assert_eq!(path, "/gone");
            assert_eq!(message, "Directory does not exist");
        }
        other => panic!("unexpected: {:?}", other),
    }
    match FileUtils::calculate_directory_size("/etc/hosts", PathStatus::NotDirectory, &vec![]) {
        Err(VenvCleanerError::PathError { path, message }) => {
            assert_eq!(path, "/etc/hosts");
            assert_eq!(message, "Path is not a directory");
        }
        other => panic!("unexpected: {:?}", other),
    }
}

#[test]
fn write_permission_is_the_owners_write_bit() {
    assert!(FileUtils::check_write_permission(&Ok(0o755)).unwrap());
    assert!(FileUtils::check_write_permission(&Ok(0o200)).unwrap());
    assert!(!FileUtils::check_write_permission(&Ok(0o555)).unwrap());
    assert!(!FileUtils::check_write_permission(&Ok(0o077)).unwrap());
    assert!(!FileUtils::check_write_permission(&Err(denied("no"))).unwrap());
    match FileUtils::check_write_permission(&Err(broken("disk on fire"))) {
        Err(VenvCleanerError::Io(text)) => assert_eq!(text, "disk on fire"),
        other => panic!("unexpected: {:?}", other),
    }
}

#[test]
fn deletability() {
    let can = |probe: DeletionProbe| FileUtils::can_delete_directory(&probe);
    // all is well
    assert!(can(DeletionProbe { exists: true, parent_mode: Some(Ok(0o755)), listing: Ok(()) })
        .unwrap());
    // no parent to ask
    assert!(can(DeletionProbe { exists: true, parent_mode: None, listing: Ok(()) }).unwrap());
    // the parent is read-only
    assert!(!can(DeletionProbe { exists: true, parent_mode: Some(Ok(0o555)), listing: Ok(()) })
        .unwrap());
    // the parent may not be examined
    assert!(!can(DeletionProbe {
        exists: true,
        parent_mode: Some(Err(denied("no"))),
        listing: Ok(())
    })
    .unwrap());
    // the parent cannot be examined for another reason: the failure is passed on
    match can(DeletionProbe {
        exists: true,
        parent_mode: Some(Err(broken("bad"))),
        listing: Err(broken("worse")),
    }) {
        Err(VenvCleanerError::Io(text)) => assert_eq!(text, "bad"),
        other => panic!("unexpected: {:?}", other),
    }
    // the directory cannot be listed for want of permission
    assert!(!can(DeletionProbe {
        exists: true,
        parent_mode: Some(Ok(0o755)),
        listing: Err(denied("no"))
    })
    .unwrap());
    // another failure to list it is passed on
    match can(DeletionProbe {
        exists: true,
        parent_mode: Some(Ok(0o755)),
        listing: Err(broken("input/output error")),
    }) {
        Err(VenvCleanerError::Io(text)) => assert_eq!(text, "input/output error"),
        other => panic!("unexpected: {:?}", other),
    }
    // what is gone cannot be deleted, whatever else was seen
    assert!(!can(DeletionProbe {
        exists: false,
        parent_mode: Some(Ok(0o755)),
        listing: Err(broken("x"))
    })
    .unwrap());
}

use save_mirror::event::{classify, Classification, FileSystemEvent, Rejection};
use save_mirror::paths::{file_name_bounds, file_name_ends_with, join_path};

fn accepted(c: Classification) -> Option<String> {
    match c {
        Classification::Accept(p) => Some(p),
        Classification::Reject(_) => None,
    }
}

fn rejection(c: Classification) -> Option<Rejection> {
    match c {
        Classification::Accept(_) => None,
        Classification::Reject(r) => Some(r),
    }
}

#[test]
fn sav_filter_accepts_sav_and_rejects_txt() {
    let ev = FileSystemEvent::Created("/games/saves/slot1.sav".to_string());
    assert_eq!(accepted(classify(&ev, ".sav")), Some("/games/saves/slot1.sav".to_string()));
    let ev = FileSystemEvent::Created("/games/saves/slot1.txt".to_string());
    assert_eq!(rejection(classify(&ev, ".sav")), Some(Rejection::ByExtension));
}

#[test]
fn empty_filter_accepts_any_created_or_modified() {
    for name in ["/a/slot1.sav", "/a/notes.txt", "/a/noext", "rel/x.SAV", ""] {
        let ev = FileSystemEvent::Created(name.to_string());
        assert_eq!(accepted(classify(&ev, "")), Some(name.to_string()));
        let ev = FileSystemEvent::Modified(name.to_string());
        assert_eq!(accepted(classify(&ev, "")), Some(name.to_string()));
    }
}

#[test]
fn other_kinds_are_rejected_by_kind() {
    let events = vec![
        FileSystemEvent::Removed("/a/slot1.sav".to_string()),
        FileSystemEvent::AttributesChanged("/a/slot1.sav".to_string()),
        FileSystemEvent::Renamed("/a/slot1.sav".to_string(), "/a/slot2.sav".to_string()),
        FileSystemEvent::Other,
    ];
    for ev in events.iter() {
        assert_eq!(rejection(classify(ev, ".sav")), Some(Rejection::ByKind));
        assert_eq!(rejection(classify(ev, "")), Some(Rejection::ByKind));
    }
}

#[test]
fn extension_is_case_sensitive() {
    let ev = FileSystemEvent::Modified("/a/slot1.SAV".to_string());
    assert_eq!(rejection(classify(&ev, ".sav")), Some(Rejection::ByExtension));
}

#[test]
fn extension_is_checked_on_final_component_only() {
    let ev = FileSystemEvent::Modified("/a/b.sav/notes".to_string());
    assert_eq!(rejection(classify(&ev, ".sav")), Some(Rejection::ByExtension));
}

#[test]
fn trailing_separators_and_dot_segments_are_ignored() {
    let ev = FileSystemEvent::Created("/a/b.sav/".to_string());
    assert_eq!(accepted(classify(&ev, ".sav")), Some("/a/b.sav/".to_string()));
    let ev = FileSystemEvent::Modified("foo.sav/.//".to_string());
    assert_eq!(accepted(classify(&ev, ".sav")), Some("foo.sav/.//".to_string()));
}

#[test]
fn path_without_file_name() {
    for name in ["/a/b.sav/..", "/", "", ".", "./", "a/../"] {
        let ev = FileSystemEvent::Created(name.to_string());
        assert_eq!(rejection(classify(&ev, ".sav")), Some(Rejection::ByExtension));
        assert_eq!(accepted(classify(&ev, "")), Some(name.to_string()));
    }
}

#[test]
fn filter_longer_than_name_rejects() {
    let ev = FileSystemEvent::Created("/dir.long/x".to_string());
    assert_eq!(rejection(classify(&ev, "g/x")), Some(Rejection::ByExtension));
}

#[test]
fn file_name_bounds_of_various_paths() {
    assert_eq!(file_name_bounds("/games/saves/slot1.sav"), Some((13, 22)));
    assert_eq!(file_name_bounds("slot1.sav"), Some((0, 9)));
    assert_eq!(file_name_bounds("/é/ü.sav"), Some((3, 8)));
    assert_eq!(file_name_bounds("/a/b/"), Some((3, 4)));
    assert_eq!(file_name_bounds("foo.txt/.//"), Some((0, 7)));
    assert_eq!(file_name_bounds("a/./"), Some((0, 1)));
    assert_eq!(file_name_bounds("/x/..."), Some((3, 6)));
    assert_eq!(file_name_bounds("/x/.a"), Some((3, 5)));
    assert_eq!(file_name_bounds("/x/a."), Some((3, 5)));
    assert_eq!(file_name_bounds("/x/.."), None);
    assert_eq!(file_name_bounds("/x/../."), None);
    assert_eq!(file_name_bounds("/"), None);
    assert_eq!(file_name_bounds("."), None);
    assert_eq!(file_name_bounds(""), None);
}

#[test]
fn suffix_test_on_file_name() {
    assert!(file_name_ends_with("/x/slot1.sav", ".sav"));
    assert!(file_name_ends_with("/x/slot1.sav", "slot1.sav"));
    assert!(!file_name_ends_with("/x/slot1.sav", "x/slot1.sav"));
    assert!(file_name_ends_with("/x/slot1.sav", ""));
    assert!(file_name_ends_with("/ü/früh.sav", "üh.sav"));
    assert!(file_name_ends_with("/x/slot1.sav//", ".sav"));
    assert!(!file_name_ends_with("/x/..", ""));
    assert!(!file_name_ends_with("/x/..", "."));
}

#[test]
fn join_inserts_one_separator() {
    assert_eq!(join_path("/dest", "save.dat"), "/dest/save.dat");
    assert_eq!(join_path("", "a"), "/a");
    assert_eq!(join_path("d", ""), "d/");
}

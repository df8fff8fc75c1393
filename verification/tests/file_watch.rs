use folium::toolbar::{display_name, name_or_default, restore_page_index, FileStatus, FileWatch};

fn watching(path: &str, mtime: Option<i128>) -> FileWatch<u8> {
    let mut w: FileWatch<u8> = FileWatch::new();
    w.start_file_watch(Some((path.to_string(), mtime, 1)));
    w
}

#[test]
fn generations_count_up() {
    let mut w: FileWatch<u8> = FileWatch::new();
    assert_eq!(w.next_reload_generation(), 1);
    assert!(w.is_reload_generation_current(1));
    assert!(!w.is_reload_generation_current(0));
}

#[test]
fn nothing_is_scheduled_without_a_watch() {
    let mut w: FileWatch<u8> = FileWatch::new();
    assert_eq!(w.schedule_debounced_reload(), None);
    assert!(w.is_reload_generation_current(0));
}

#[test]
fn latest_scheduled_reload_wins() {
    let mut w = watching("/tmp/a.pdf", Some(5));
    let first = w.schedule_debounced_reload().unwrap();
    let second = w.schedule_debounced_reload().unwrap();
    assert_ne!(first, second);
    assert!(!w.is_reload_generation_current(first));
    assert!(w.is_reload_generation_current(second));
}

#[test]
fn stopping_makes_pending_reload_stale() {
    let mut w = watching("/tmp/a.pdf", Some(5));
    let g = w.schedule_debounced_reload().unwrap();
    w.stop_file_watch();
    assert!(!w.is_reload_generation_current(g));
    assert_eq!(w.watched_path(), None);
    assert_eq!(w.schedule_debounced_reload(), None);
}

#[test]
fn failed_start_leaves_nothing_watched() {
    let mut w = watching("/tmp/a.pdf", Some(5));
    w.start_file_watch(None);
    assert_eq!(w.watched_path(), None);
}

#[test]
fn reload_only_when_mtime_changes() {
    let mut w = watching("/tmp/a.pdf", Some(5));
    assert!(!w.reload_document_if_needed(FileStatus::Modified(5)));
    assert!(w.reload_document_if_needed(FileStatus::Modified(6)));
    assert!(!w.reload_document_if_needed(FileStatus::Modified(6)));
    assert!(!w.reload_document_if_needed(FileStatus::NoModificationTime));
    assert_eq!(w.watched_path(), Some(&"/tmp/a.pdf".to_string()));
}

#[test]
fn unknown_mtime_reloads_on_first_change() {
    let mut w = watching("/tmp/a.pdf", None);
    assert!(w.reload_document_if_needed(FileStatus::Modified(-3)));
}

#[test]
fn missing_file_stops_the_watch() {
    let mut w = watching("/tmp/a.pdf", Some(5));
    assert!(!w.reload_document_if_needed(FileStatus::Missing));
    assert_eq!(w.watched_path(), None);
    assert!(!w.reload_document_if_needed(FileStatus::Modified(9)));
}

#[test]
fn unwatched_never_reloads() {
    let mut w: FileWatch<u8> = FileWatch::new();
    assert!(!w.reload_document_if_needed(FileStatus::Modified(9)));
}

#[test]
fn display_names() {
    assert_eq!(display_name(&"/Users/me/paper.pdf".to_string()), "paper.pdf");
    assert_eq!(display_name(&"notes.pdf".to_string()), "notes.pdf");
    assert_eq!(display_name(&"/Users/me/dir/".to_string()), "dir");
    assert_eq!(display_name(&"/".to_string()), "Document");
    assert_eq!(display_name(&"/tmp/..".to_string()), "Document");
    assert_eq!(display_name(&"a/.".to_string()), "a");
    assert_eq!(display_name(&"./x.pdf".to_string()), "x.pdf");
    assert_eq!(display_name(&".".to_string()), "Document");
    assert_eq!(display_name(&"".to_string()), "Document");
    assert_eq!(display_name(&"a//b.pdf/./".to_string()), "b.pdf");
    assert_eq!(name_or_default(None), "Document");
    assert_eq!(name_or_default(Some("x.pdf".to_string())), "x.pdf");
}

#[test]
fn restored_page_stays_in_the_document() {
    assert_eq!(restore_page_index(3, 10), 3);
    assert_eq!(restore_page_index(9, 10), 9);
    assert_eq!(restore_page_index(12, 10), 9);
    assert_eq!(restore_page_index(0, 0), 0);
    assert_eq!(restore_page_index(5, 0), 0);
}

/// The rule that the library states for a path's final component: skip
/// trailing separators and `.` components; the last component left is the
/// name unless it is `..`.
fn stated_file_name(path: &str) -> Option<&str> {
    let mut p = path;
    loop {
        if p.is_empty() {
            return None;
        }
        let (rest, seg) = match p.rfind('/') {
            Some(k) => (&p[..k], &p[k + 1..]),
            None => ("", p),
        };
        if seg.is_empty() || seg == "." {
            p = rest;
        } else if seg == ".." {
            return None;
        } else {
            return Some(seg);
        }
    }
}

#[test]
fn file_name_agrees_with_the_stated_rule() {
    let paths = [
        "", "/", "//", ".", "..", "./", "../", "a", "a/", "a/.", "a/..", "a/./", "/a", "/a/b",
        "/a/b/", "/a/b/.", "/a/b/..", "a//b", "./a", "../a", "...", "a/...", ".hidden", "/x/.y",
        "/Users/me/My Paper.pdf", "a/./b/./", "/./", "/..",
    ];
    for p in paths {
        let expected = stated_file_name(p).unwrap_or("Document");
        assert_eq!(display_name(&p.to_string()), expected, "path {:?}", p);
    }
}

use spatial_browser::entries::{build_entry, EntryKind, FsEntry};
use spatial_browser::sort::{sort_entries, SortKey, SortState};

fn entry(id: u64, name: &str, size: u64, modified: Option<i128>, ext: Option<&str>) -> FsEntry {
    FsEntry {
        id,
        path: format!("/tmp/{name}"),
        name: name.to_string(),
        kind: EntryKind::File,
        size,
        modified,
        extension: ext.map(|e| e.to_string()),
        hidden: false,
    }
}

fn ids(entries: &[FsEntry]) -> Vec<u64> {
    entries.iter().map(|e| e.id).collect()
}

#[test]
fn sort_by_name_ignores_case() {
    let mut v = vec![
        entry(1, "banana", 0, None, None),
        entry(2, "Apple", 0, None, None),
        entry(3, "cherry", 0, None, None),
    ];
    sort_entries(&mut v, &SortState { key: SortKey::Name, ascending: true });
    assert_eq!(ids(&v), vec![2, 1, 3]);
}

#[test]
fn sort_by_name_lowercases_before_comparing() {
    let mut v = vec![entry(1, "apple", 0, None, None), entry(2, "Banana", 0, None, None)];
    sort_entries(&mut v, &SortState { key: SortKey::Name, ascending: true });
    assert_eq!(ids(&v), vec![1, 2]);
}

#[test]
fn sort_descending_reverses_but_keeps_ties_in_order() {
    let mut v = vec![
        entry(1, "a", 10, None, None),
        entry(2, "b", 30, None, None),
        entry(3, "c", 10, None, None),
        entry(4, "d", 20, None, None),
    ];
    sort_entries(&mut v, &SortState { key: SortKey::Size, ascending: false });
    assert_eq!(ids(&v), vec![2, 4, 1, 3]);
    sort_entries(&mut v, &SortState { key: SortKey::Size, ascending: true });
    assert_eq!(ids(&v), vec![1, 3, 4, 2]);
}

#[test]
fn sort_by_modified_puts_unknown_first() {
    let mut v = vec![
        entry(1, "a", 0, Some(5_000), None),
        entry(2, "b", 0, None, None),
        entry(3, "c", 0, Some(-7), None),
    ];
    sort_entries(&mut v, &SortState { key: SortKey::Modified, ascending: true });
    assert_eq!(ids(&v), vec![2, 3, 1]);
}

#[test]
fn sort_by_type_compares_extensions_as_written() {
    let mut v = vec![
        entry(1, "a", 0, None, Some("txt")),
        entry(2, "b", 0, None, None),
        entry(3, "c", 0, None, Some("TXT")),
        entry(4, "d", 0, None, Some("md")),
    ];
    sort_entries(&mut v, &SortState { key: SortKey::Type, ascending: true });
    // "" < "TXT" < "md" < "txt" by code point
    assert_eq!(ids(&v), vec![2, 3, 4, 1]);
}

#[test]
fn sort_stable_for_equal_names() {
    let mut v = vec![
        entry(1, "Same", 0, None, None),
        entry(2, "same", 0, None, None),
        entry(3, "SAME", 0, None, None),
    ];
    sort_entries(&mut v, &SortState { key: SortKey::Name, ascending: true });
    assert_eq!(ids(&v), vec![1, 2, 3]);
    sort_entries(&mut v, &SortState { key: SortKey::Name, ascending: false });
    assert_eq!(ids(&v), vec![1, 2, 3]);
}

#[test]
fn sort_empty_and_single() {
    let mut v: Vec<FsEntry> = Vec::new();
    sort_entries(&mut v, &SortState::default());
    assert!(v.is_empty());
    let mut w = vec![entry(9, "x", 1, None, None)];
    sort_entries(&mut w, &SortState::default());
    assert_eq!(ids(&w), vec![9]);
}

#[test]
fn sort_non_ascii_lowercase() {
    let mut v = vec![
        entry(1, "Ωmega", 0, None, None),
        entry(2, "ωa", 0, None, None),
    ];
    sort_entries(&mut v, &SortState { key: SortKey::Name, ascending: true });
    // both lowercase to "ω…": "ωa" < "ωmega"
    assert_eq!(ids(&v), vec![2, 1]);
}

#[test]
fn toggle_direction_flips() {
    let mut s = SortState::default();
    assert!(s.ascending);
    assert_eq!(s.key, SortKey::Name);
    s.toggle_direction();
    assert!(!s.ascending);
    s.toggle_direction();
    assert!(s.ascending);
}

#[test]
fn built_entries_keep_their_data() {
    let e = build_entry("/tmp/report.PDF".to_string(), "report.PDF".to_string(), false, true, false, 42, Some(1), true);
    assert_eq!(e.kind, EntryKind::File);
    assert_eq!(e.extension.as_deref(), Some("PDF"));
    assert_eq!(e.size, 42);
    assert!(e.hidden);
    let same = build_entry("/tmp/report.PDF".to_string(), "other".to_string(), true, false, false, 0, None, false);
    assert_eq!(e.id, same.id);
    assert_eq!(same.kind, EntryKind::Directory);
    let other = build_entry("/tmp/report.pdf".to_string(), "x".to_string(), false, false, true, 0, None, false);
    assert_ne!(e.id, other.id);
    assert_eq!(other.kind, EntryKind::Symlink);
    let none = build_entry("/tmp/.bashrc".to_string(), ".bashrc".to_string(), false, false, false, 0, None, false);
    assert_eq!(none.extension, None);
    assert_eq!(none.kind, EntryKind::Other);
    assert!(EntryKind::Directory.is_dir());
    assert!(!EntryKind::File.is_dir());
}

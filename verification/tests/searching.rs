use spatial_browser::entries::{EntryKind, FsEntry};
use spatial_browser::search::filter_entries;

fn entry(id: u64, name: &str, ext: Option<&str>) -> FsEntry {
    FsEntry {
        id,
        path: format!("/d/{name}"),
        name: name.to_string(),
        kind: EntryKind::File,
        size: 0,
        modified: None,
        extension: ext.map(|e| e.to_string()),
        hidden: false,
    }
}

fn ids(entries: &[FsEntry]) -> Vec<u64> {
    entries.iter().map(|e| e.id).collect()
}

fn sample() -> Vec<FsEntry> {
    vec![
        entry(1, "Report.docx", Some("DOCX")),
        entry(2, "notes", None),
        entry(3, "photo.png", Some("png")),
        entry(4, "Reporter", None),
    ]
}

#[test]
fn empty_query_keeps_everything() {
    assert_eq!(ids(&filter_entries(sample(), "")), vec![1, 2, 3, 4]);
    assert_eq!(ids(&filter_entries(sample(), "   \t")), vec![1, 2, 3, 4]);
}

#[test]
fn query_is_trimmed_and_case_insensitive() {
    assert_eq!(ids(&filter_entries(sample(), "  REPORT ")), vec![1, 4]);
}

#[test]
fn extension_matches_too() {
    assert_eq!(ids(&filter_entries(sample(), "docx")), vec![1]);
    assert_eq!(ids(&filter_entries(sample(), "PNG")), vec![3]);
}

#[test]
fn no_match_gives_nothing() {
    assert!(filter_entries(sample(), "zzz").is_empty());
}

#[test]
fn inner_space_is_kept() {
    let v = vec![entry(1, "my file", None), entry(2, "myfile", None)];
    assert_eq!(ids(&filter_entries(v, " my f ")), vec![1]);
}

#[test]
fn unicode_white_space_is_trimmed() {
    assert_eq!(ids(&filter_entries(sample(), "\u{3000}notes\u{a0}\n")), vec![2]);
    assert_eq!(ids(&filter_entries(sample(), "\u{2003}\u{85}")), vec![1, 2, 3, 4]);
}

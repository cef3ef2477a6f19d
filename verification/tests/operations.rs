use spatial_browser::entries::{hidden_name, EntryKind, FsEntry};
use spatial_browser::ops::{created_message, deleted_message, folder_path, rename_target, renamed_message};
use spatial_browser::theme::VisualTheme;
use spatial_browser::ui::{overlay_mode_line, selected_label, UiMode};

#[test]
fn folder_and_rename_targets() {
    assert_eq!(folder_path("/home/u", "New Folder"), "/home/u/New Folder");
    assert_eq!(rename_target("/home/u/a.txt", "b.txt"), Ok("/home/u/b.txt".to_string()));
    assert_eq!(rename_target("/", "x"), Err("cannot rename root path".to_string()));
    assert_eq!(rename_target("", "x"), Err("cannot rename root path".to_string()));
}

#[test]
fn operation_messages() {
    assert_eq!(created_message("/a/New Folder"), "Created folder /a/New Folder");
    assert_eq!(renamed_message("/a/b"), "Renamed to /a/b");
    assert_eq!(deleted_message("/a/c"), "Deleted /a/c");
}

#[test]
fn hidden_names() {
    assert!(hidden_name(Some(".bashrc")));
    assert!(!hidden_name(Some("notes.txt")));
    assert!(!hidden_name(Some("")));
    assert!(!hidden_name(None));
}

#[test]
fn overlay_labels() {
    assert_eq!(overlay_mode_line(UiMode::Normal), "MODE NORMAL");
    assert_eq!(overlay_mode_line(UiMode::Search), "MODE SEARCH CTRL+F TO ENTER ESC TO EXIT");
    assert_eq!(overlay_mode_line(UiMode::Rename), "MODE RENAME CTRL+R CONFIRM ESC CANCEL");
    assert_eq!(overlay_mode_line(UiMode::DeleteConfirm), "MODE DELETE CTRL+D CONFIRM ESC CANCEL");
    let e = FsEntry {
        id: 1,
        path: "/x/my photo #1.jpg".to_string(),
        name: "my photo #1.jpg".to_string(),
        kind: EntryKind::File,
        size: 0,
        modified: None,
        extension: Some("jpg".to_string()),
        hidden: false,
    };
    assert_eq!(selected_label(Some(&e)), "SELECTED > MY PHOTO  1.JPG");
    assert_eq!(selected_label(None), "SELECTED > NONE");
}

#[test]
fn outline_cycle_returns_after_nine_with_distinct_names() {
    let start = VisualTheme { style_panel_open: true, text_palette: 3, outline_palette: 4, background_box_palette: 2 };
    let mut t = start;
    let mut names = Vec::new();
    for k in 1..=9 {
        names.push(t.outline_palette_name());
        t.cycle_outline_palette();
        assert_eq!(t.outline_palette, (4 + k) % 9);
        assert_eq!(t.text_palette, 3);
        assert_eq!(t.background_box_palette, 2);
        assert!(t.style_panel_open);
        if k < 9 {
            assert_ne!(t.outline_palette, start.outline_palette);
        }
    }
    assert_eq!(t.outline_palette, start.outline_palette);
    let mut sorted = names.clone();
    sorted.sort();
    sorted.dedup();
    assert_eq!(sorted.len(), 9);
}

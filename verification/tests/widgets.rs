use spatial_browser::actions::{map_key, Action, KeyCode};
use spatial_browser::entries::{EntryKind, FsEntry};
use spatial_browser::selection::SelectionState;
use spatial_browser::sort::SortKey;
use spatial_browser::theme::VisualTheme;
use spatial_browser::ui::{
    card_dimmed, classify_entry, glyph_3x5, mode_hint, sanitize, selected_entry_summary, visible_window,
    CardCategory, UiMode,
};

fn file(name: &str, kind: EntryKind, ext: Option<&str>) -> FsEntry {
    FsEntry {
        id: 7,
        path: format!("/x/{name}"),
        name: name.to_string(),
        kind,
        size: 1234,
        modified: Some(1_700_000_000_999_999_999),
        extension: ext.map(|e| e.to_string()),
        hidden: false,
    }
}

#[test]
fn selection_moves_and_clamps() {
    let mut s = SelectionState::default();
    s.move_left();
    assert_eq!(s.selected_index, 0);
    s.move_right(3);
    s.move_right(3);
    s.move_right(3);
    assert_eq!(s.selected_index, 2);
    s.move_right(0);
    assert_eq!(s.selected_index, 0);
    s.selected_index = 10;
    s.hovered = Some(4);
    s.clamp(4);
    assert_eq!(s.selected_index, 3);
    assert_eq!(s.hovered, Some(4));
    s.clamp(0);
    assert_eq!(s.selected_index, 0);
    s.selected_index = usize::MAX;
    s.move_right(5);
    assert_eq!(s.selected_index, 4);
    s.reset();
    assert_eq!(s.selected_index, 0);
    assert_eq!(s.hovered, None);
}

#[test]
fn palettes_cycle_and_wrap() {
    let mut t = VisualTheme::default();
    assert_eq!(t.text_palette_name(), "MINT");
    assert_eq!(t.outline_palette_name(), "NEON MINT");
    assert_eq!(t.background_box_palette_name(), "GREEN");
    for _ in 0..5 {
        t.cycle_text_palette();
    }
    assert_eq!(t.text_palette, 0);
    t.cycle_text_palette();
    assert_eq!(t.text_palette_name(), "ICE");
    for _ in 0..8 {
        t.cycle_outline_palette();
    }
    assert_eq!(t.outline_palette_name(), "BLUE");
    t.cycle_outline_palette();
    assert_eq!(t.outline_palette, 0);
    t.cycle_background_box_palette();
    assert_eq!(t.background_box_palette_name(), "TEAL");
    t.text_palette = 99;
    assert_eq!(t.text_palette_name(), "WARM");
    t.background_box_palette = 4;
    assert_eq!(t.background_box_palette_name(), "COPPER");
}

#[test]
fn summary_of_entry() {
    let e = file("song.mp3", EntryKind::File, Some("mp3"));
    assert_eq!(
        selected_entry_summary(Some(&e)),
        "song.mp3 | kind=file | ext=mp3 | size=1234 bytes | modified=1700000000 | hidden=false"
    );
    let mut d = file("dir", EntryKind::Directory, None);
    d.modified = None;
    d.hidden = true;
    d.size = 0;
    assert_eq!(
        selected_entry_summary(Some(&d)),
        "dir | kind=directory | ext=- | size=0 bytes | modified=unknown | hidden=true"
    );
    d.modified = Some(-1);
    assert!(selected_entry_summary(Some(&d)).contains("modified=unknown"));
    assert_eq!(selected_entry_summary(None), "No selection");
}

#[test]
fn mode_hints() {
    assert_eq!(mode_hint(UiMode::Search), "Search mode | Esc cancel | Left/Right move | Enter open");
    assert_eq!(mode_hint(UiMode::Rename), "Rename mode | Ctrl+R confirm rename | Esc cancel");
    assert_eq!(mode_hint(UiMode::DeleteConfirm), "Delete mode | Ctrl+D confirm delete | Esc cancel");
    assert!(mode_hint(UiMode::Normal).starts_with("Left/Right move | Enter open"));
}

#[test]
fn labels_are_sanitized() {
    assert_eq!(sanitize("hello wörld!", 28), "HELLO W RLD ");
    assert_eq!(sanitize("abcdef", 3), "ABC");
    assert_eq!(sanitize("a/b\\c[d](e)+f=g:h.i_j-k>", 64), "A/B\\C[D](E)+F=G:H.I_J-K>");
    assert_eq!(sanitize("", 5), "");
}

#[test]
fn glyphs() {
    assert_eq!(glyph_3x5('A'), 0b010101111101101);
    assert_eq!(glyph_3x5('0'), 0b111101101101111);
    assert_eq!(glyph_3x5(' '), 0);
    assert_eq!(glyph_3x5('a'), 0);
    assert_eq!(glyph_3x5('?'), 0);
}

#[test]
fn categories() {
    assert_eq!(classify_entry(&file("d", EntryKind::Directory, None)), CardCategory::Folder);
    assert_eq!(classify_entry(&file("s", EntryKind::Symlink, None)), CardCategory::Symlink);
    assert_eq!(classify_entry(&file("o", EntryKind::Other, None)), CardCategory::Other);
    assert_eq!(classify_entry(&file("x.EXE", EntryKind::File, Some("EXE"))), CardCategory::Executable);
    assert_eq!(classify_entry(&file("x.Lnk", EntryKind::File, Some("Lnk"))), CardCategory::Executable);
    assert_eq!(classify_entry(&file("x.txt", EntryKind::File, Some("txt"))), CardCategory::File);
    assert_eq!(classify_entry(&file("x", EntryKind::File, None)), CardCategory::File);
}

#[test]
fn dimming_and_window() {
    assert!(!card_dimmed("Photo", ""));
    assert!(!card_dimmed("Photo", "  PHO "));
    assert!(card_dimmed("Photo", "xyz"));
    assert_eq!(visible_window(10, 5, 4), (5, 3, 8));
    assert_eq!(visible_window(10, 0, 25), (0, 0, 10));
    assert_eq!(visible_window(3, 99, 2), (2, 1, 3));
}

#[test]
fn keys_map_to_actions() {
    assert!(matches!(map_key(Some(KeyCode::ArrowLeft), true, false)[..], [Action::NavigateBack]));
    assert!(matches!(map_key(Some(KeyCode::ArrowLeft), false, false)[..], [Action::MoveSelectionLeft]));
    assert!(matches!(map_key(Some(KeyCode::ArrowRight), true, false)[..], [Action::NavigateForward]));
    assert!(matches!(map_key(Some(KeyCode::KeyN), false, true)[..], [Action::CreateFolder]));
    assert!(matches!(map_key(Some(KeyCode::KeyN), false, false)[..], [Action::Noop]));
    assert!(matches!(map_key(Some(KeyCode::Digit3), false, false)[..], [Action::SetSort(SortKey::Size)]));
    assert!(matches!(map_key(Some(KeyCode::F11), false, false)[..], [Action::CycleBackgroundBoxColor]));
    assert!(matches!(map_key(None, true, true)[..], [Action::Noop]));
}

#[test]
fn key_hints_match_key_map() {
    let one = |k: KeyCode, alt: bool, ctrl: bool| {
        let v = map_key(Some(k), alt, ctrl);
        assert_eq!(v.len(), 1);
        v.into_iter().next().unwrap()
    };
    assert!(matches!(one(KeyCode::Enter, false, false), Action::OpenSelected));
    assert!(matches!(one(KeyCode::Backspace, false, false), Action::GoUp));
    assert!(matches!(one(KeyCode::Escape, false, false), Action::ClearMode));
    assert!(matches!(one(KeyCode::KeyF, false, true), Action::StartSearch));
    assert!(matches!(one(KeyCode::F2, false, false), Action::BeginRename));
    assert!(matches!(one(KeyCode::Delete, false, false), Action::RequestDelete));
    assert!(matches!(one(KeyCode::KeyR, false, true), Action::ConfirmRename));
    assert!(matches!(one(KeyCode::KeyD, false, true), Action::ConfirmDelete));
    assert!(matches!(one(KeyCode::Digit1, false, false), Action::SetSort(SortKey::Name)));
    assert!(matches!(one(KeyCode::Digit2, false, false), Action::SetSort(SortKey::Modified)));
    assert!(matches!(one(KeyCode::Digit4, false, false), Action::SetSort(SortKey::Type)));
    assert!(matches!(one(KeyCode::F8, false, false), Action::ToggleStylePanel));
    assert!(matches!(one(KeyCode::F9, false, false), Action::CycleTextColor));
    assert!(matches!(one(KeyCode::F10, false, false), Action::CycleOutlineColor));
    assert!(matches!(one(KeyCode::KeyR, false, false), Action::Noop));
    assert!(matches!(one(KeyCode::Other, true, true), Action::Noop));
}

use spatial_browser::actions::{Action, AppCommand, Effect, FsRequest, FsResponse, ScrollDelta, StylePanelHit};
use spatial_browser::entries::{DirectorySnapshot, EntryKind, FsEntry};
use spatial_browser::sort::SortKey;
use spatial_browser::state::{overlay_lines, AppState, NotificationLevel};
use spatial_browser::ui::UiMode;

fn entry(id: u64, name: &str, kind: EntryKind, size: u64) -> FsEntry {
    FsEntry {
        id,
        path: format!("/root/{name}"),
        name: name.to_string(),
        kind,
        size,
        modified: None,
        extension: None,
        hidden: false,
    }
}

fn loaded() -> AppState {
    let mut s = AppState::new("/root".to_string(), Vec::new());
    let snap = DirectorySnapshot {
        path: "/root".to_string(),
        entries: vec![
            entry(1, "beta", EntryKind::File, 20),
            entry(2, "Alpha", EntryKind::Directory, 10),
            entry(3, "gamma", EntryKind::File, 5),
        ],
        generated_at: 0,
    };
    assert!(s.handle_fs_response(FsResponse::DirectoryLoaded(Ok(snap))).is_none());
    s
}

fn names(s: &AppState) -> Vec<String> {
    s.filtered_entries().into_iter().map(|e| e.name).collect()
}

#[test]
fn new_state_defaults() {
    let s = AppState::new("/start".to_string(), Vec::new());
    assert_eq!(s.navigation.current_path, "/start");
    assert!(s.directory.snapshot.is_none());
    assert!(!s.directory.loading);
    assert_eq!(s.ui.viewport_size, (1280, 720));
    assert_eq!(s.ui.mode, UiMode::Normal);
    assert_eq!(s.filtered_len(), 0);
    assert!(s.selected_entry().is_none());
}

#[test]
fn loading_sorts_by_name_and_selects_first() {
    let s = loaded();
    assert_eq!(names(&s), vec!["Alpha", "beta", "gamma"]);
    assert_eq!(s.selected_entry().map(|e| e.id), Some(2));
    assert!(!s.directory.loading);
}

#[test]
fn moving_and_scrolling() {
    let mut s = loaded();
    assert!(s.apply_action(Action::MoveSelectionRight).is_none());
    assert_eq!(s.selected_entry().map(|e| e.id), Some(1));
    s.apply_action(Action::Scroll(ScrollDelta::Negative));
    s.apply_action(Action::Scroll(ScrollDelta::Negative));
    assert_eq!(s.selection.selected_index, 2);
    s.apply_action(Action::Scroll(ScrollDelta::Zero));
    assert_eq!(s.selection.selected_index, 2);
    s.apply_action(Action::Scroll(ScrollDelta::Positive));
    assert_eq!(s.selection.selected_index, 1);
    s.apply_action(Action::MoveSelectionLeft);
    s.apply_action(Action::MoveSelectionLeft);
    assert_eq!(s.selection.selected_index, 0);
}

#[test]
fn search_clamps_selection() {
    let mut s = loaded();
    s.apply_action(Action::SelectIndex(2));
    s.apply_action(Action::StartSearch);
    assert_eq!(s.ui.mode, UiMode::Search);
    s.apply_action(Action::UpdateSearch("A".to_string()));
    assert_eq!(names(&s), vec!["Alpha", "beta", "gamma"]);
    s.apply_action(Action::UpdateSearch("et".to_string()));
    assert_eq!(names(&s), vec!["beta"]);
    assert_eq!(s.selection.selected_index, 0);
    assert_eq!(s.selected_entry().map(|e| e.id), Some(1));
    s.apply_action(Action::UpdateSearch("zz".to_string()));
    assert_eq!(s.filtered_len(), 0);
    assert!(s.selected_entry().is_none());
    s.apply_action(Action::ClearMode);
    assert_eq!(s.ui.mode, UiMode::Normal);
}

#[test]
fn sorting_actions() {
    let mut s = loaded();
    s.apply_action(Action::SetSort(SortKey::Size));
    assert_eq!(s.sort.key, SortKey::Size);
    assert!(!s.sort.ascending);
    assert_eq!(names(&s), vec!["beta", "Alpha", "gamma"]);
    s.apply_action(Action::CycleSort);
    assert_eq!(s.sort.key, SortKey::Type);
    s.apply_action(Action::CycleSort);
    assert_eq!(s.sort.key, SortKey::Name);
    assert_eq!(names(&s), vec!["gamma", "beta", "Alpha"]);
}

#[test]
fn open_selected_directory_and_file() {
    let mut s = loaded();
    match s.apply_action(Action::OpenSelected) {
        Some(Effect::Navigate(p)) => assert_eq!(p, "/root/Alpha"),
        other => panic!("unexpected {other:?}"),
    }
    s.apply_action(Action::MoveSelectionRight);
    match s.apply_action(Action::OpenSelected) {
        Some(Effect::OpenFile { path, name }) => {
            assert_eq!(path, "/root/beta");
            assert_eq!(name, "beta");
        }
        other => panic!("unexpected {other:?}"),
    }
    s.file_opened("beta", Ok(()));
    assert_eq!(s.notifications.back().map(|n| n.message.as_str()), Some("Opened beta"));
    s.file_opened("beta", Err("no handler".to_string()));
    let last = s.notifications.back().unwrap();
    assert_eq!(last.message, "no handler");
    assert_eq!(last.level, NotificationLevel::Error);
}

#[test]
fn navigate_then_back_and_forward() {
    let mut s = loaded();
    match s.navigate_to("/root/Alpha".to_string()) {
        Some(FsRequest::LoadDirectory(p)) => assert_eq!(p, "/root/Alpha"),
        other => panic!("unexpected {other:?}"),
    }
    assert!(s.directory.loading);
    assert_eq!(s.navigation.current_path, "/root/Alpha");
    assert!(s.navigate_to("/root/Alpha".to_string()).is_none());
    assert!(s.navigate_to("/root/Alpha/".to_string()).is_none());
    assert!(s.navigate_to("/root//Alpha".to_string()).is_none());
    let copy = s.clone();
    assert_eq!(copy.navigation.current_path, "/root/Alpha");
    match s.apply_action(Action::NavigateBack) {
        Some(Effect::Request(FsRequest::LoadDirectory(p))) => assert_eq!(p, "/root"),
        other => panic!("unexpected {other:?}"),
    }
    assert_eq!(s.navigation.forward_stack, vec!["/root/Alpha".to_string()]);
    match s.apply_action(Action::NavigateForward) {
        Some(Effect::Request(FsRequest::LoadDirectory(p))) => assert_eq!(p, "/root/Alpha"),
        other => panic!("unexpected {other:?}"),
    }
    assert!(s.apply_action(Action::NavigateForward).is_none());
}

#[test]
fn go_up_and_favorites_ask_for_navigation() {
    let mut s = loaded();
    match s.apply_action(Action::GoUp) {
        Some(Effect::Navigate(p)) => assert_eq!(p, "/"),
        other => panic!("unexpected {other:?}"),
    }
    match s.apply_action(Action::ActivateFavorite("/fav".to_string())) {
        Some(Effect::Navigate(p)) => assert_eq!(p, "/fav"),
        other => panic!("unexpected {other:?}"),
    }
    match s.apply_action(Action::NavigateToPath("/t".to_string())) {
        Some(Effect::Navigate(p)) => assert_eq!(p, "/t"),
        other => panic!("unexpected {other:?}"),
    }
    let mut root = AppState::new("/".to_string(), Vec::new());
    assert!(root.apply_action(Action::GoUp).is_none());
}

#[test]
fn create_rename_delete_flow() {
    let mut s = loaded();
    match s.apply_action(Action::CreateFolder) {
        Some(Effect::Request(FsRequest::CreateFolder { parent, name })) => {
            assert_eq!(parent, "/root");
            assert_eq!(name, "New Folder");
        }
        other => panic!("unexpected {other:?}"),
    }
    assert_eq!(s.pending_ops, vec!["Create folder".to_string()]);
    s.apply_action(Action::BeginRename);
    assert_eq!(s.ui.mode, UiMode::Rename);
    match s.apply_action(Action::ConfirmRename) {
        Some(Effect::Request(FsRequest::Rename { from, to_name })) => {
            assert_eq!(from, "/root/Alpha");
            assert_eq!(to_name, "Alpha_renamed");
        }
        other => panic!("unexpected {other:?}"),
    }
    assert_eq!(s.ui.mode, UiMode::Normal);
    assert!(s.apply_action(Action::ConfirmDelete).is_none());
    s.apply_action(Action::RequestDelete);
    assert_eq!(s.ui.mode, UiMode::DeleteConfirm);
    assert_eq!(s.ui.pending_delete.as_deref(), Some("/root/Alpha"));
    match s.apply_action(Action::ConfirmDelete) {
        Some(Effect::Request(FsRequest::Delete { path })) => assert_eq!(path, "/root/Alpha"),
        other => panic!("unexpected {other:?}"),
    }
    assert!(s.ui.pending_delete.is_none());
    assert_eq!(s.pending_ops.len(), 3);
}

#[test]
fn clear_mode_cancels_delete() {
    let mut s = loaded();
    s.apply_action(Action::RequestDelete);
    s.apply_action(Action::ClearMode);
    assert!(s.apply_action(Action::ConfirmDelete).is_none());
    assert!(s.pending_ops.is_empty());
}

#[test]
fn finished_operations_reload_and_notify() {
    let mut s = loaded();
    s.dispatch(AppCommand::Delete { path: "/root/beta".to_string() });
    s.dispatch(AppCommand::Rename { from: "/root/gamma".to_string(), to_name: "g".to_string() });
    assert_eq!(s.pending_ops, vec!["Delete".to_string(), "Rename".to_string()]);
    match s.handle_fs_response(FsResponse::OperationFinished(Ok("Deleted".to_string()))) {
        Some(FsRequest::LoadDirectory(p)) => assert_eq!(p, "/root"),
        other => panic!("unexpected {other:?}"),
    }
    assert!(s.directory.loading);
    assert_eq!(s.pending_ops, vec!["Rename".to_string()]);
    assert!(s.handle_fs_response(FsResponse::OperationFinished(Err("denied".to_string()))).is_none());
    assert!(s.pending_ops.is_empty());
    assert!(s.handle_fs_response(FsResponse::OperationFinished(Err("again".to_string()))).is_none());
    let msgs: Vec<&str> = s.notifications.iter().map(|n| n.message.as_str()).collect();
    assert_eq!(msgs, vec!["Deleted", "denied", "again"]);
}

#[test]
fn failed_load_keeps_listing() {
    let mut s = loaded();
    s.dispatch(AppCommand::LoadDirectory("/nope".to_string()));
    assert!(s.directory.loading);
    s.handle_fs_response(FsResponse::DirectoryLoaded(Err("failed to read".to_string())));
    assert!(!s.directory.loading);
    assert_eq!(s.directory.error.as_deref(), Some("failed to read"));
    assert_eq!(s.filtered_len(), 3);
    assert_eq!(s.notifications.back().unwrap().level, NotificationLevel::Error);
}

#[test]
fn notifications_keep_newest_five() {
    let mut s = loaded();
    for i in 0..8 {
        s.push_notification(NotificationLevel::Info, format!("n{i}"));
    }
    let msgs: Vec<&str> = s.notifications.iter().map(|n| n.message.as_str()).collect();
    assert_eq!(msgs, vec!["n3", "n4", "n5", "n6", "n7"]);
}

#[test]
fn style_and_viewport_actions() {
    let mut s = loaded();
    s.apply_action(Action::ClickAt(StylePanelHit::Nothing));
    assert!(!s.theme.style_panel_open);
    s.apply_action(Action::ClickAt(StylePanelHit::TogglePanel));
    assert!(s.theme.style_panel_open);
    s.apply_action(Action::ToggleStylePanel);
    assert!(!s.theme.style_panel_open);
    s.apply_action(Action::ClickAt(StylePanelHit::CycleText));
    s.apply_action(Action::CycleTextColor);
    assert_eq!(s.theme.text_palette, 2);
    s.apply_action(Action::ClickAt(StylePanelHit::CycleOutline));
    s.apply_action(Action::CycleOutlineColor);
    assert_eq!(s.theme.outline_palette, 2);
    s.apply_action(Action::ClickAt(StylePanelHit::CycleBackgroundBoxes));
    s.apply_action(Action::CycleBackgroundBoxColor);
    assert_eq!(s.theme.background_box_palette, 2);
    s.apply_action(Action::ViewportResized { width: 0, height: 900 });
    assert_eq!(s.ui.viewport_size, (1, 900));
    s.apply_action(Action::HoverIndex(2));
    assert_eq!(s.selection.hovered, Some(2));
    assert!(s.apply_action(Action::Noop).is_none());
}

#[test]
fn ui_text_and_overlay() {
    let mut s = loaded();
    s.refresh_ui_text();
    assert_eq!(s.ui.breadcrumbs, vec!["> /".to_string(), "> root".to_string()]);
    assert_eq!(s.ui.inspector_text, "Alpha | kind=directory | ext=- | size=10 bytes | modified=unknown | hidden=false");
    let lines = overlay_lines(&s, 3, 25);
    assert_eq!(
        lines,
        vec![
            "Path Spine: /root".to_string(),
            "Mode: Normal".to_string(),
            "Filter Beam: (none)".to_string(),
            "Deck: 3 visible / cap 25".to_string(),
        ]
    );
    s.apply_action(Action::UpdateSearch("be".to_string()));
    s.push_notification(NotificationLevel::Info, "hello".to_string());
    let lines = overlay_lines(&s, 1, 25);
    assert_eq!(lines[2], "Filter Beam: be");
    assert_eq!(lines[4], "Notification: hello");
}

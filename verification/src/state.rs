//! The browser's state and how each request of the user, and each answer of
//! the filesystem worker, changes it.

use std::collections::VecDeque;

use vstd::prelude::*;

use crate::actions::{Action, AppCommand, Effect, FsRequest, FsResponse, ScrollDelta, StylePanelHit};
use crate::entries::{DirectorySnapshot, EntryKind, FsEntry};
use crate::navigation::{went_back, went_forward, visited, FavoriteLocation, NavigationState};
use crate::paths::{crumb, go_up_path, path_components, path_eq, path_parent, path_to_breadcrumbs, paths_equal};
use crate::search::{filter_entries, filtered};
use crate::selection::{clamped_index, SelectionState};
use crate::sort::{lemma_sorted_by_is_stable_sort, sort_entries, sorted_by, SortKey, SortState};
use crate::strings::{chars_of, decimal, push_decimal, push_str, string_from_chars};
use crate::theme::VisualTheme;
use crate::ui::{selected_entry_summary, summary_text, UiMode};

verus! {

/// How serious a notification is.
#[derive(Debug, Clone, Copy, PartialEq, Eq, Structural)]
pub enum NotificationLevel {
    Info,
    Error,
}

/// A message shown to the user.
#[derive(Debug, Clone)]
pub struct Notification {
    pub level: NotificationLevel,
    pub message: String,
}

/// The search query typed by the user.
#[derive(Debug, Clone)]
pub struct FilterState {
    pub query: String,
}

impl Default for FilterState {
    fn default() -> (r: Self)
        ensures
            r.query@ == Seq::<char>::empty(),
    {
        FilterState { query: String::new() }
    }
}

/// The listing of the current directory, whether one is being read, and
/// the last error reading one.
#[derive(Debug, Clone)]
pub struct DirectoryState {
    pub snapshot: Option<DirectorySnapshot>,
    pub loading: bool,
    pub error: Option<String>,
}

/// The mode, the entry waiting for a delete confirmation, the texts shown
/// around the deck, and the size of the window in pixels.
#[derive(Debug)]
pub struct UiState {
    pub mode: UiMode,
    pub pending_delete: Option<String>,
    pub breadcrumbs: Vec<String>,
    pub inspector_text: String,
    pub viewport_size: (u32, u32),
}

impl Clone for UiState {
    fn clone(&self) -> (r: Self)
        ensures
            r.mode == self.mode,
            r.pending_delete == self.pending_delete,
            r.breadcrumbs@ == self.breadcrumbs@,
            r.inspector_text == self.inspector_text,
            r.viewport_size == self.viewport_size,
    {
        let pending_delete = match &self.pending_delete {
            Some(p) => Some(p.clone()),
            None => None,
        };
        let breadcrumbs = self.breadcrumbs.clone();
        assert(breadcrumbs@ =~= self.breadcrumbs@);
        UiState {
            mode: self.mode,
            pending_delete,
            breadcrumbs,
            inspector_text: self.inspector_text.clone(),
            viewport_size: (self.viewport_size.0, self.viewport_size.1),
        }
    }
}

/// Everything the browser knows, but the 3D scene.
#[derive(Debug, Clone)]
pub struct AppState {
    pub navigation: NavigationState,
    pub directory: DirectoryState,
    pub selection: SelectionState,
    pub sort: SortState,
    pub filter: FilterState,
    pub ui: UiState,
    pub theme: VisualTheme,
    pub pending_ops: Vec<String>,
    pub notifications: VecDeque<Notification>,
}

/// How many notifications are kept.
pub const MAX_NOTIFICATIONS: usize = 5;

/// The newest `MAX_NOTIFICATIONS` of a sequence of notifications.
pub open spec fn kept<A>(q: Seq<A>) -> Seq<A> {
    if q.len() > MAX_NOTIFICATIONS {
        q.subrange(q.len() - MAX_NOTIFICATIONS, q.len() as int)
    } else {
        q
    }
}

/// The level and text of each notification.
pub open spec fn notification_texts(q: Seq<Notification>) -> Seq<(NotificationLevel, Seq<char>)> {
    q.map_values(|n: Notification| (n.level, n.message@))
}

/// The entries of the listing, or none when no directory was read.
pub open spec fn snapshot_entries(s: AppState) -> Seq<FsEntry> {
    match s.directory.snapshot {
        Some(snap) => snap.entries@,
        None => Seq::empty(),
    }
}

/// The entries shown in the deck: the listing narrowed by the query, then sorted.
pub open spec fn displayed(s: AppState) -> Seq<FsEntry> {
    sorted_by(s.sort, filtered(snapshot_entries(s), s.filter.query@))
}

/// The first entry of `es` with the id `id`.
pub open spec fn first_with_id(es: Seq<FsEntry>, id: u64) -> Option<FsEntry>
    decreases es.len(),
{
    if es.len() == 0 {
        None
    } else if es[0].id == id {
        Some(es[0])
    } else {
        first_with_id(es.drop_first(), id)
    }
}

/// The selected entry: the listing entry with the id of the shown entry at
/// the selection, pulled inside the deck; nothing when the deck is empty.
pub open spec fn selected_of(s: AppState) -> Option<FsEntry> {
    let d = displayed(s);
    if d.len() == 0 {
        None
    } else {
        first_with_id(snapshot_entries(s), d[clamped_index(s.selection.selected_index as int, d.len() as int)].id)
    }
}

/// `new` is `old` after `command` was handed to the filesystem worker as `req`.
pub open spec fn dispatched(old: AppState, new: AppState, command: AppCommand, req: FsRequest) -> bool {
    match command {
        AppCommand::LoadDirectory(path) => {
            &&& req == FsRequest::LoadDirectory(path)
            &&& new == (AppState { directory: DirectoryState { loading: true, ..old.directory }, ..old })
        },
        AppCommand::CreateFolder { parent, name } => {
            &&& req == (FsRequest::CreateFolder { parent, name })
            &&& new.pending_ops.deep_view() == old.pending_ops.deep_view().push("Create folder"@)
            &&& new == (AppState { pending_ops: new.pending_ops, ..old })
        },
        AppCommand::Rename { from, to_name } => {
            &&& req == (FsRequest::Rename { from, to_name })
            &&& new.pending_ops.deep_view() == old.pending_ops.deep_view().push("Rename"@)
            &&& new == (AppState { pending_ops: new.pending_ops, ..old })
        },
        AppCommand::Delete { path } => {
            &&& req == (FsRequest::Delete { path })
            &&& new.pending_ops.deep_view() == old.pending_ops.deep_view().push("Delete"@)
            &&& new == (AppState { pending_ops: new.pending_ops, ..old })
        },
    }
}

/// The sort key after `key` in the cycle name, modified, size, type.
pub open spec fn next_sort_key(key: SortKey) -> SortKey {
    match key {
        SortKey::Name => SortKey::Modified,
        SortKey::Modified => SortKey::Size,
        SortKey::Size => SortKey::Type,
        SortKey::Type => SortKey::Name,
    }
}

/// `s` with the style panel opened or closed.
pub open spec fn with_panel_toggled(s: AppState) -> AppState {
    AppState { theme: VisualTheme { style_panel_open: !s.theme.style_panel_open, ..s.theme }, ..s }
}

/// `s` with the next text palette.
pub open spec fn with_next_text_palette(s: AppState) -> AppState {
    AppState { theme: VisualTheme { text_palette: ((s.theme.text_palette + 1) % 5) as usize, ..s.theme }, ..s }
}

/// `s` with the next outline palette.
pub open spec fn with_next_outline_palette(s: AppState) -> AppState {
    AppState { theme: VisualTheme { outline_palette: ((s.theme.outline_palette + 1) % 9) as usize, ..s.theme }, ..s }
}

/// `s` with the next background box palette.
pub open spec fn with_next_background_box_palette(s: AppState) -> AppState {
    AppState {
        theme: VisualTheme { background_box_palette: ((s.theme.background_box_palette + 1) % 5) as usize, ..s.theme },
        ..s
    }
}

/// `s` with the selection at `index`.
pub open spec fn with_selected(s: AppState, index: int) -> AppState {
    AppState { selection: SelectionState { selected_index: index as usize, ..s.selection }, ..s }
}

/// `s` with the selection one card to the left.
pub open spec fn moved_left(s: AppState) -> AppState {
    with_selected(s, if s.selection.selected_index == 0 { 0 } else { s.selection.selected_index - 1 })
}

/// `s` with the selection one card to the right, inside the deck.
pub open spec fn moved_right(s: AppState) -> AppState {
    with_selected(s, clamped_index(s.selection.selected_index + 1, displayed(s).len() as int))
}

/// `s` in mode `mode`.
pub open spec fn with_mode(s: AppState, mode: UiMode) -> AppState {
    AppState { ui: UiState { mode, ..s.ui }, ..s }
}

/// `new` is `old` with `label` added to the pending operations, and nothing else changed.
pub open spec fn op_recorded(old: AppState, new: AppState, label: Seq<char>) -> bool {
    &&& new.pending_ops.deep_view() == old.pending_ops.deep_view().push(label)
    &&& new == (AppState { pending_ops: new.pending_ops, ..old })
}

/// `new` is `old` after the user's `action`, and `effect` is what remains to be done.
pub open spec fn action_applied(old: AppState, new: AppState, action: Action, effect: Option<Effect>) -> bool {
    match action {
        Action::MoveSelectionLeft => new == moved_left(old) && effect is None,
        Action::MoveSelectionRight => new == moved_right(old) && effect is None,
        Action::Scroll(delta) => effect is None && match delta {
            ScrollDelta::Negative => new == moved_right(old),
            ScrollDelta::Positive => new == moved_left(old),
            ScrollDelta::Zero => new == old,
        },
        Action::OpenSelected => new == old && match selected_of(old) {
            None => effect is None,
            Some(e) => if e.kind is Directory {
                effect == Some(Effect::Navigate(e.path))
            } else {
                effect == Some(Effect::OpenFile { path: e.path, name: e.name })
            },
        },
        Action::GoUp => new == old && match path_parent(old.navigation.current_path@) {
            None => effect is None,
            Some(up) => effect matches Some(Effect::Navigate(p)) && p@ == up,
        },
        Action::NavigateBack => match went_back(old.navigation@).1 {
            None => new == old && effect is None,
            Some(prev) => {
                &&& new.navigation@ == went_back(old.navigation@).0
                &&& new.navigation.favorites == old.navigation.favorites
                &&& new == (AppState {
                    navigation: new.navigation,
                    directory: DirectoryState { loading: true, ..old.directory },
                    ..old
                })
                &&& effect matches Some(Effect::Request(FsRequest::LoadDirectory(p))) && p@ == prev
            },
        },
        Action::NavigateForward => match went_forward(old.navigation@).1 {
            None => new == old && effect is None,
            Some(next) => {
                &&& new.navigation@ == went_forward(old.navigation@).0
                &&& new.navigation.favorites == old.navigation.favorites
                &&& new == (AppState {
                    navigation: new.navigation,
                    directory: DirectoryState { loading: true, ..old.directory },
                    ..old
                })
                &&& effect matches Some(Effect::Request(FsRequest::LoadDirectory(p))) && p@ == next
            },
        },
        Action::StartSearch => new == with_mode(old, UiMode::Search) && effect is None,
        Action::UpdateSearch(query) => {
            let searched = AppState { filter: FilterState { query }, ..old };
            &&& new == with_selected(
                searched,
                clamped_index(old.selection.selected_index as int, displayed(searched).len() as int),
            )
            &&& effect is None
        },
        Action::ClearMode => {
            &&& new == (AppState { ui: UiState { mode: UiMode::Normal, pending_delete: None, ..old.ui }, ..old })
            &&& effect is None
        },
        Action::SetSort(key) => {
            &&& new == (AppState { sort: SortState { key, ascending: !old.sort.ascending }, ..old })
            &&& effect is None
        },
        Action::CycleSort => {
            &&& new == (AppState { sort: SortState { key: next_sort_key(old.sort.key), ..old.sort }, ..old })
            &&& effect is None
        },
        Action::CreateFolder => {
            &&& op_recorded(old, new, "Create folder"@)
            &&& effect matches Some(Effect::Request(FsRequest::CreateFolder { parent, name }))
            &&& parent == old.navigation.current_path
            &&& name@ == "New Folder"@
        },
        Action::BeginRename => new == with_mode(old, UiMode::Rename) && effect is None,
        Action::ConfirmRename => match selected_of(old) {
            None => new == old && effect is None,
            Some(e) => {
                &&& op_recorded(with_mode(old, UiMode::Normal), new, "Rename"@)
                &&& effect matches Some(Effect::Request(FsRequest::Rename { from, to_name }))
                &&& from == e.path
                &&& to_name@ == e.name@ + "_renamed"@
            },
        },
        Action::RequestDelete => effect is None && match selected_of(old) {
            None => new == old,
            Some(e) => new == (AppState {
                ui: UiState { pending_delete: Some(e.path), mode: UiMode::DeleteConfirm, ..old.ui },
                ..old
            }),
        },
        Action::ConfirmDelete => match old.ui.pending_delete {
            None => new == old && effect is None,
            Some(path) => {
                let cleared = AppState {
                    ui: UiState { pending_delete: None, mode: UiMode::Normal, ..old.ui },
                    ..old
                };
                &&& op_recorded(cleared, new, "Delete"@)
                &&& effect == Some(Effect::Request(FsRequest::Delete { path }))
            },
        },
        Action::ClickAt(hit) => effect is None && match hit {
            StylePanelHit::Nothing => new == old,
            StylePanelHit::TogglePanel => new == with_panel_toggled(old),
            StylePanelHit::CycleText => new == with_next_text_palette(old),
            StylePanelHit::CycleOutline => new == with_next_outline_palette(old),
            StylePanelHit::CycleBackgroundBoxes => new == with_next_background_box_palette(old),
        },
        Action::ViewportResized { width, height } => {
            let size = (if width < 1 { 1u32 } else { width }, if height < 1 { 1u32 } else { height });
            &&& new == (AppState { ui: UiState { viewport_size: size, ..old.ui }, ..old })
            &&& effect is None
        },
        Action::ToggleStylePanel => new == with_panel_toggled(old) && effect is None,
        Action::CycleTextColor => new == with_next_text_palette(old) && effect is None,
        Action::CycleOutlineColor => new == with_next_outline_palette(old) && effect is None,
        Action::CycleBackgroundBoxColor => new == with_next_background_box_palette(old) && effect is None,
        Action::HoverIndex(i) => {
            &&& new == (AppState { selection: SelectionState { hovered: Some(i), ..old.selection }, ..old })
            &&& effect is None
        },
        Action::SelectIndex(i) => new == with_selected(old, i as int) && effect is None,
        Action::ActivateFavorite(path) => new == old && effect == Some(Effect::Navigate(path)),
        Action::NavigateToPath(path) => new == old && effect == Some(Effect::Navigate(path)),
        Action::Noop => new == old && effect is None,
    }
}

/// `new` is `old` after navigating to the normalized `path`, and `req` is
/// the request to read it: nothing happens when it names the current
/// directory, component by component.
pub open spec fn navigated(old: AppState, new: AppState, path: String, req: Option<FsRequest>) -> bool {
    if path_eq(path@, old.navigation.current_path@) {
        new == old && req is None
    } else {
        &&& new.navigation@ == visited(old.navigation@, path@, old.navigation.current_path@)
        &&& new.navigation.favorites == old.navigation.favorites
        &&& new == (AppState {
            navigation: new.navigation,
            directory: DirectoryState { loading: true, ..old.directory },
            ..old
        })
        &&& req == Some(FsRequest::LoadDirectory(path))
    }
}

/// `new` has the notifications of `old` and one more, of `level` with `text`,
/// the oldest dropped beyond five.
pub open spec fn notified(old: AppState, new: AppState, level: NotificationLevel, text: Seq<char>) -> bool {
    notification_texts(new.notifications@) == kept(notification_texts(old.notifications@).push((level, text)))
}

/// The pending operations once the oldest one finished.
pub open spec fn ops_after_finish(ops: Seq<String>) -> Seq<String> {
    if ops.len() > 0 {
        ops.drop_first()
    } else {
        ops
    }
}

/// `new` is `old` after the worker's `response`, and `req` is the request it calls for.
pub open spec fn response_handled(old: AppState, new: AppState, response: FsResponse, req: Option<FsRequest>) -> bool {
    match response {
        FsResponse::DirectoryLoaded(Ok(snap)) => {
            &&& new == (AppState {
                navigation: NavigationState { current_path: snap.path, ..old.navigation },
                directory: DirectoryState { snapshot: Some(snap), loading: false, error: None },
                selection: SelectionState { selected_index: 0, hovered: None },
                ..old
            })
            &&& req is None
        },
        FsResponse::DirectoryLoaded(Err(message)) => {
            &&& notified(old, new, NotificationLevel::Error, message@)
            &&& new == (AppState {
                directory: DirectoryState { loading: false, error: Some(message), ..old.directory },
                notifications: new.notifications,
                ..old
            })
            &&& req is None
        },
        FsResponse::OperationFinished(result) => {
            &&& new.pending_ops@ == ops_after_finish(old.pending_ops@)
            &&& match result {
                Ok(message) => {
                    &&& notified(old, new, NotificationLevel::Info, message@)
                    &&& new == (AppState {
                        directory: DirectoryState { loading: true, ..old.directory },
                        pending_ops: new.pending_ops,
                        notifications: new.notifications,
                        ..old
                    })
                    &&& req == Some(FsRequest::LoadDirectory(old.navigation.current_path))
                },
                Err(message) => {
                    &&& notified(old, new, NotificationLevel::Error, message@)
                    &&& new == (AppState {
                        pending_ops: new.pending_ops,
                        notifications: new.notifications,
                        ..old
                    })
                    &&& req is None
                },
            }
        },
    }
}

/// Keeping the newest notifications and reading their texts can be done in
/// either order.
proof fn lemma_texts_kept(q: Seq<Notification>, n: Notification)
    ensures
        notification_texts(kept(q.push(n))) == kept(notification_texts(q).push((n.level, n.message@))),
{
    let all = q.push(n);
    assert(notification_texts(all) =~= notification_texts(q).push((n.level, n.message@)));
    if all.len() > MAX_NOTIFICATIONS {
        assert(notification_texts(kept(all)) =~= kept(notification_texts(all)));
    }
}

impl AppState {
    /// A browser at `start_path`, with nothing read yet.
    pub fn new(start_path: String, favorites: Vec<FavoriteLocation>) -> (r: Self)
        ensures
            r.navigation@.current == start_path@,
            r.navigation@.back.len() == 0,
            r.navigation@.forward.len() == 0,
            r.navigation.favorites@ == favorites@,
            r.directory.snapshot is None,
            !r.directory.loading,
            r.directory.error is None,
            r.selection.selected_index == 0,
            r.selection.hovered is None,
            r.sort.key == SortKey::Name,
            r.sort.ascending,
            r.filter.query@.len() == 0,
            r.ui.mode == UiMode::Normal,
            r.ui.pending_delete is None,
            r.ui.breadcrumbs@.len() == 0,
            r.ui.inspector_text@.len() == 0,
            r.ui.viewport_size == (1280u32, 720u32),
            !r.theme.style_panel_open,
            r.theme.text_palette == 0,
            r.theme.outline_palette == 0,
            r.theme.background_box_palette == 0,
            r.pending_ops@.len() == 0,
            r.notifications@.len() == 0,
    {
        AppState {
            navigation: NavigationState::new(start_path, favorites),
            directory: DirectoryState { snapshot: None, loading: false, error: None },
            selection: SelectionState { selected_index: 0, hovered: None },
            sort: SortState::default(),
            filter: FilterState::default(),
            ui: UiState {
                mode: UiMode::Normal,
                pending_delete: None,
                breadcrumbs: Vec::new(),
                inspector_text: String::new(),
                viewport_size: (1280, 720),
            },
            theme: VisualTheme::default(),
            pending_ops: Vec::new(),
            notifications: VecDeque::new(),
        }
    }

    /// Adds a notification, keeping only the newest five.
    pub fn push_notification(&mut self, level: NotificationLevel, message: String)
        ensures
            final(self).notifications@ == kept(old(self).notifications@.push(Notification { level, message })),
            *final(self) == (AppState { notifications: final(self).notifications, ..*old(self) }),
    {
        self.notifications.push_back(Notification { level, message });
        let ghost all = self.notifications@;
        while self.notifications.len() > MAX_NOTIFICATIONS
            invariant
                *self == (AppState { notifications: self.notifications, ..*old(self) }),
                self.notifications@.len() >= MAX_NOTIFICATIONS ==> self.notifications@ == all.subrange(
                    all.len() - self.notifications@.len(),
                    all.len() as int,
                ),
                all.len() > MAX_NOTIFICATIONS ==> self.notifications@.len() >= MAX_NOTIFICATIONS,
                all.len() <= MAX_NOTIFICATIONS ==> self.notifications@ == all,
                self.notifications@.len() <= all.len(),
            decreases self.notifications@.len(),
        {
            self.notifications.pop_front();
        }
    }

    /// The entries shown in the deck: the listing narrowed by the query, then sorted.
    pub fn filtered_entries(&self) -> (r: Vec<FsEntry>)
        ensures
            r@ == displayed(*self),
    {
        let mut entries = match &self.directory.snapshot {
            Some(s) => s.entries.clone(),
            None => Vec::new(),
        };
        assert(entries@ == snapshot_entries(*self));
        entries = filter_entries(entries, self.filter.query.as_str());
        sort_entries(&mut entries, &self.sort);
        entries
    }

    /// How many entries the deck shows.
    pub fn filtered_len(&self) -> (r: usize)
        ensures
            r == displayed(*self).len(),
    {
        self.filtered_entries().len()
    }

    /// The selected entry of the listing, if the deck is not empty.
    pub fn selected_entry(&self) -> (r: Option<&FsEntry>)
        ensures
            match r {
                Some(e) => selected_of(*self) == Some(*e),
                None => selected_of(*self) is None,
            },
    {
        let sorted = self.filtered_entries();
        if sorted.len() == 0 {
            return None;
        }
        let last = sorted.len() - 1;
        let idx = if self.selection.selected_index < last { self.selection.selected_index } else { last };
        let id = sorted[idx].id;
        assert(idx == clamped_index(self.selection.selected_index as int, sorted@.len() as int));
        assert(selected_of(*self) == first_with_id(snapshot_entries(*self), id));
        match &self.directory.snapshot {
            None => None,
            Some(snap) => {
                let es = &snap.entries;
                let mut k: usize = 0;
                assert(es@.skip(0) =~= es@);
                while k < es.len()
                    invariant
                        k <= es.len(),
                        first_with_id(es@, id) == first_with_id(es@.skip(k as int), id),
                        selected_of(*self) == first_with_id(es@, id),
                    decreases es.len() - k,
                {
                    assert(es@.skip(k as int).drop_first() =~= es@.skip(k + 1));
                    assert(es@.skip(k as int)[0] == es@[k as int]);
                    if es[k].id == id {
                        return Some(&es[k]);
                    }
                    k = k + 1;
                }
                None
            },
        }
    }

    /// Hands `command` to the filesystem worker: marks a directory as being
    /// read, or records the pending operation, and gives the request to send.
    pub fn dispatch(&mut self, command: AppCommand) -> (r: FsRequest)
        ensures
            dispatched(*old(self), *final(self), command, r),
    {
        match command {
            AppCommand::LoadDirectory(path) => {
                self.directory.loading = true;
                FsRequest::LoadDirectory(path)
            },
            AppCommand::CreateFolder { parent, name } => {
                self.pending_ops.push("Create folder".to_string());
                assert(self.pending_ops.deep_view() =~= old(self).pending_ops.deep_view().push("Create folder"@));
                FsRequest::CreateFolder { parent, name }
            },
            AppCommand::Rename { from, to_name } => {
                self.pending_ops.push("Rename".to_string());
                assert(self.pending_ops.deep_view() =~= old(self).pending_ops.deep_view().push("Rename"@));
                FsRequest::Rename { from, to_name }
            },
            AppCommand::Delete { path } => {
                self.pending_ops.push("Delete".to_string());
                assert(self.pending_ops.deep_view() =~= old(self).pending_ops.deep_view().push("Delete"@));
                FsRequest::Delete { path }
            },
        }
    }

    /// Notes the outcome of opening `name` with its associated application.
    pub fn file_opened(&mut self, name: &str, result: Result<(), String>)
        ensures
            match result {
                Ok(()) => notified(*old(self), *final(self), NotificationLevel::Info, "Opened "@ + name@),
                Err(message) => notified(*old(self), *final(self), NotificationLevel::Error, message@),
            },
            *final(self) == (AppState { notifications: final(self).notifications, ..*old(self) }),
    {
        match result {
            Ok(()) => {
                let mut text = chars_of("Opened ");
                push_str(&mut text, name);
                let message = string_from_chars(&text);
                proof { lemma_texts_kept(self.notifications@, Notification { level: NotificationLevel::Info, message }); }
                self.push_notification(NotificationLevel::Info, message);
            },
            Err(message) => {
                proof { lemma_texts_kept(self.notifications@, Notification { level: NotificationLevel::Error, message }); }
                self.push_notification(NotificationLevel::Error, message);
            },
        }
    }

    /// Navigates to the normalized `path`, unless it is the current directory,
    /// and gives the request to read it.
    pub fn navigate_to(&mut self, path: String) -> (r: Option<FsRequest>)
        ensures
            navigated(*old(self), *final(self), path, r),
    {
        if paths_equal(path.as_str(), self.navigation.current_path.as_str()) {
            return None;
        }
        let current = self.navigation.current_path.clone();
        self.navigation.visit(path.clone(), current);
        Some(self.dispatch(AppCommand::LoadDirectory(path)))
    }

    /// Takes in an answer of the filesystem worker, and gives the request it
    /// calls for: a finished operation reloads the current directory.
    pub fn handle_fs_response(&mut self, response: FsResponse) -> (r: Option<FsRequest>)
        ensures
            response_handled(*old(self), *final(self), response, r),
    {
        match response {
            FsResponse::DirectoryLoaded(result) => {
                self.directory.loading = false;
                match result {
                    Ok(snapshot) => {
                        self.navigation.current_path = snapshot.path.clone();
                        self.directory.snapshot = Some(snapshot);
                        self.selection.reset();
                        self.directory.error = None;
                    },
                    Err(message) => {
                        self.directory.error = Some(message.clone());
                        proof { lemma_texts_kept(self.notifications@, Notification { level: NotificationLevel::Error, message }); }
                        self.push_notification(NotificationLevel::Error, message);
                    },
                }
                None
            },
            FsResponse::OperationFinished(result) => {
                if self.pending_ops.len() > 0 {
                    self.pending_ops.remove(0);
                }
                assert(self.pending_ops@ == ops_after_finish(old(self).pending_ops@));
                match result {
                    Ok(message) => {
                        proof { lemma_texts_kept(self.notifications@, Notification { level: NotificationLevel::Info, message }); }
                        self.push_notification(NotificationLevel::Info, message);
                        let current = self.navigation.current_path.clone();
                        Some(self.dispatch(AppCommand::LoadDirectory(current)))
                    },
                    Err(message) => {
                        proof { lemma_texts_kept(self.notifications@, Notification { level: NotificationLevel::Error, message }); }
                        self.push_notification(NotificationLevel::Error, message);
                        None
                    },
                }
            },
        }
    }

    /// Recomputes the breadcrumbs of the current directory and the
    /// inspector line of the selected entry.
    pub fn refresh_ui_text(&mut self)
        ensures
            final(self).ui.breadcrumbs.deep_view() == path_components(old(self).navigation.current_path@).map_values(
                |c: Seq<char>| crumb(c),
            ),
            final(self).ui.inspector_text@ == summary_text(selected_of(*old(self))),
            *final(self) == (AppState {
                ui: UiState {
                    breadcrumbs: final(self).ui.breadcrumbs,
                    inspector_text: final(self).ui.inspector_text,
                    ..old(self).ui
                },
                ..*old(self)
            }),
    {
        let crumbs = path_to_breadcrumbs(self.navigation.current_path.as_str());
        let text = selected_entry_summary(self.selected_entry());
        self.ui.breadcrumbs = crumbs;
        self.ui.inspector_text = text;
    }

    /// Applies one request of the user, and gives what remains to be done
    /// outside: a request for the filesystem worker, a path to normalize and
    /// navigate to, or a file to open.
    #[verifier::rlimit(40)]
    pub fn apply_action(&mut self, action: Action) -> (r: Option<Effect>)
        requires
            (action is CycleTextColor || action == Action::ClickAt(StylePanelHit::CycleText))
                ==> old(self).theme.text_palette < usize::MAX,
            (action is CycleOutlineColor || action == Action::ClickAt(StylePanelHit::CycleOutline))
                ==> old(self).theme.outline_palette < usize::MAX,
            (action is CycleBackgroundBoxColor || action == Action::ClickAt(
                StylePanelHit::CycleBackgroundBoxes,
            )) ==> old(self).theme.background_box_palette < usize::MAX,
        ensures
            action_applied(*old(self), *final(self), action, r),
    {
        match action {
            Action::MoveSelectionLeft => {
                self.selection.move_left();
                None
            },
            Action::MoveSelectionRight => {
                let len = self.filtered_len();
                self.selection.move_right(len);
                None
            },
            Action::Scroll(delta) => {
                match delta {
                    ScrollDelta::Negative => {
                        let len = self.filtered_len();
                        self.selection.move_right(len);
                    },
                    ScrollDelta::Positive => self.selection.move_left(),
                    ScrollDelta::Zero => {},
                }
                None
            },
            Action::OpenSelected => {
                match self.selected_entry() {
                    None => None,
                    Some(e) => {
                        if e.kind.is_dir() {
                            Some(Effect::Navigate(e.path.clone()))
                        } else {
                            Some(Effect::OpenFile { path: e.path.clone(), name: e.name.clone() })
                        }
                    },
                }
            },
            Action::GoUp => {
                match go_up_path(self.navigation.current_path.as_str()) {
                    Some(up) => Some(Effect::Navigate(up)),
                    None => None,
                }
            },
            Action::NavigateBack => {
                match self.navigation.back() {
                    Some(path) => Some(Effect::Request(self.dispatch(AppCommand::LoadDirectory(path)))),
                    None => None,
                }
            },
            Action::NavigateForward => {
                match self.navigation.forward() {
                    Some(path) => Some(Effect::Request(self.dispatch(AppCommand::LoadDirectory(path)))),
                    None => None,
                }
            },
            Action::StartSearch => {
                self.ui.mode = UiMode::Search;
                None
            },
            Action::UpdateSearch(query) => {
                self.filter.query = query;
                let len = self.filtered_len();
                self.selection.clamp(len);
                None
            },
            Action::ClearMode => {
                self.ui.mode = UiMode::Normal;
                self.ui.pending_delete = None;
                None
            },
            Action::SetSort(key) => {
                self.sort.key = key;
                self.sort.toggle_direction();
                None
            },
            Action::CycleSort => {
                self.sort.key = match self.sort.key {
                    SortKey::Name => SortKey::Modified,
                    SortKey::Modified => SortKey::Size,
                    SortKey::Size => SortKey::Type,
                    SortKey::Type => SortKey::Name,
                };
                None
            },
            Action::CreateFolder => {
                let parent = self.navigation.current_path.clone();
                let name = "New Folder".to_string();
                Some(Effect::Request(self.dispatch(AppCommand::CreateFolder { parent, name })))
            },
            Action::BeginRename => {
                self.ui.mode = UiMode::Rename;
                None
            },
            Action::ConfirmRename => {
                let target = match self.selected_entry() {
                    None => None,
                    Some(e) => {
                        let mut text = chars_of(e.name.as_str());
                        push_str(&mut text, "_renamed");
                        Some((e.path.clone(), string_from_chars(&text)))
                    },
                };
                match target {
                    None => None,
                    Some((from, to_name)) => {
                        self.ui.mode = UiMode::Normal;
                        Some(Effect::Request(self.dispatch(AppCommand::Rename { from, to_name })))
                    },
                }
            },
            Action::RequestDelete => {
                let target = match self.selected_entry() {
                    None => None,
                    Some(e) => Some(e.path.clone()),
                };
                match target {
                    None => {},
                    Some(path) => {
                        self.ui.pending_delete = Some(path);
                        self.ui.mode = UiMode::DeleteConfirm;
                    },
                }
                None
            },
            Action::ConfirmDelete => {
                match self.ui.pending_delete.take() {
                    None => None,
                    Some(path) => {
                        self.ui.mode = UiMode::Normal;
                        Some(Effect::Request(self.dispatch(AppCommand::Delete { path })))
                    },
                }
            },
            Action::ClickAt(hit) => {
                match hit {
                    StylePanelHit::Nothing => {},
                    StylePanelHit::TogglePanel => {
                        self.theme.style_panel_open = !self.theme.style_panel_open;
                    },
                    StylePanelHit::CycleText => self.theme.cycle_text_palette(),
                    StylePanelHit::CycleOutline => self.theme.cycle_outline_palette(),
                    StylePanelHit::CycleBackgroundBoxes => self.theme.cycle_background_box_palette(),
                }
                None
            },
            Action::ViewportResized { width, height } => {
                let w = if width < 1 { 1 } else { width };
                let h = if height < 1 { 1 } else { height };
                self.ui.viewport_size = (w, h);
                None
            },
            Action::ToggleStylePanel => {
                self.theme.style_panel_open = !self.theme.style_panel_open;
                None
            },
            Action::CycleTextColor => {
                self.theme.cycle_text_palette();
                None
            },
            Action::CycleOutlineColor => {
                self.theme.cycle_outline_palette();
                None
            },
            Action::CycleBackgroundBoxColor => {
                self.theme.cycle_background_box_palette();
                None
            },
            Action::HoverIndex(idx) => {
                self.selection.hovered = Some(idx);
                None
            },
            Action::SelectIndex(idx) => {
                self.selection.selected_index = idx;
                None
            },
            Action::ActivateFavorite(path) => Some(Effect::Navigate(path)),
            Action::NavigateToPath(path) => Some(Effect::Navigate(path)),
            Action::Noop => None,
        }
    }
}


/// Every entry the deck shows is an entry of the listing.
pub proof fn lemma_displayed_from_listing(s: AppState)
    ensures
        forall|k: int| 0 <= k < displayed(s).len() ==> snapshot_entries(s).contains(#[trigger] displayed(s)[k]),
{
    let es = snapshot_entries(s);
    let f = filtered(es, s.filter.query@);
    lemma_sorted_by_is_stable_sort(s.sort, f);
    let d = displayed(s);
    assert forall|k: int| 0 <= k < d.len() implies es.contains(#[trigger] d[k]) by {
        let perm = crate::sort::sorted_origins(s.sort, f);
        assert(d[k] == f[perm[k]]);
        assert(f.contains(f[perm[k]]));
        if crate::search::search_text(s.filter.query@).len() != 0 {
            let q = crate::search::search_text(s.filter.query@);
            es.lemma_filter_contains_rev(|e: FsEntry| crate::search::entry_matches(e, q), d[k]);
        }
    }
}

/// An entry with `id` at `k` makes the search by id succeed, on an entry of
/// the sequence with that id.
proof fn lemma_first_with_id(es: Seq<FsEntry>, id: u64, k: int)
    requires
        0 <= k < es.len(),
        es[k].id == id,
    ensures
        first_with_id(es, id) matches Some(e) && e.id == id && es.contains(e),
    decreases es.len(),
{
    if es[0].id != id {
        assert(es.drop_first()[k - 1] == es[k]);
        lemma_first_with_id(es.drop_first(), id, k - 1);
        let e = first_with_id(es, id)->0;
        assert(es.drop_first().contains(e));
        let j = choose|j: int| 0 <= j < es.drop_first().len() && es.drop_first()[j] == e;
        assert(es[j + 1] == e);
    } else {
        assert(es[0] == es[0]);
    }
}

/// There is a selected entry exactly when the deck is not empty; it is an
/// entry of the listing, with the id of the shown entry at the selection.
pub proof fn lemma_selection_present(s: AppState)
    ensures
        selected_of(s) is Some <==> displayed(s).len() > 0,
        selected_of(s) matches Some(e) ==> snapshot_entries(s).contains(e) && e.id == displayed(s)[clamped_index(
            s.selection.selected_index as int,
            displayed(s).len() as int,
        )].id,
{
    let d = displayed(s);
    if d.len() > 0 {
        let i = clamped_index(s.selection.selected_index as int, d.len() as int);
        lemma_displayed_from_listing(s);
        assert(snapshot_entries(s).contains(d[i]));
        let es = snapshot_entries(s);
        let k = choose|k: int| 0 <= k < es.len() && es[k] == d[i];
        lemma_first_with_id(es, d[i].id, k);
    }
}

/// The newest notification is always kept, and never more than five are:
/// those kept are the newest ones, oldest first; below five nothing is
/// dropped, and a full queue loses exactly its oldest notification.
pub proof fn lemma_notifications_bounded<A>(q: Seq<A>, n: A)
    ensures
        kept(q.push(n)).len() <= MAX_NOTIFICATIONS,
        kept(q.push(n)).last() == n,
        kept(q.push(n)).len() == (if q.len() + 1 < MAX_NOTIFICATIONS { (q.len() + 1) as int } else {
            MAX_NOTIFICATIONS as int
        }),
        forall|i: int|
            0 <= i < kept(q.push(n)).len() ==> #[trigger] kept(q.push(n))[kept(q.push(n)).len() - 1 - i]
                == q.push(n)[q.len() - i],
        q.len() < MAX_NOTIFICATIONS ==> kept(q.push(n)) == q.push(n),
        q.len() == MAX_NOTIFICATIONS ==> kept(q.push(n)) == q.drop_first().push(n),
{
    if q.len() == MAX_NOTIFICATIONS {
        assert(kept(q.push(n)) =~= q.drop_first().push(n));
    }
}

/// Typing a query, or moving right, leaves the selection on a card of the
/// deck whenever the deck has cards.
pub proof fn lemma_selection_stays_in_deck(s0: AppState, s1: AppState, action: Action, effect: Option<Effect>)
    requires
        action is UpdateSearch || action is MoveSelectionRight,
        action_applied(s0, s1, action, effect),
        displayed(s1).len() > 0,
    ensures
        s1.selection.selected_index < displayed(s1).len(),
{
    match action {
        Action::UpdateSearch(query) => {
            let searched = AppState { filter: FilterState { query }, ..s0 };
            assert(displayed(s1) == displayed(searched));
            crate::selection::lemma_clamped_in_deck(s0.selection.selected_index as int, displayed(searched).len() as int);
        },
        _ => {
            assert(displayed(s1) == displayed(s0));
            crate::selection::lemma_clamped_in_deck(s0.selection.selected_index + 1, displayed(s0).len() as int);
        },
    }
}

/// The selection moves exactly one card per step: left stops at the first
/// card, right stops at the last card of the deck shown; a wheel movement
/// towards the user moves right, away from the user moves left, and nothing
/// else of the state changes.
pub proof fn lemma_selection_steps(old: AppState, new: AppState, action: Action, effect: Option<Effect>)
    requires
        action is MoveSelectionLeft || action is MoveSelectionRight || action is Scroll,
        action_applied(old, new, action, effect),
        displayed(old).len() <= usize::MAX,
    ensures
        effect is None,
        new.selection.hovered == old.selection.hovered,
        new.navigation == old.navigation,
        new.directory == old.directory,
        new.filter == old.filter,
        new.sort == old.sort,
        new.ui == old.ui,
        new.theme == old.theme,
        new.pending_ops == old.pending_ops,
        new.notifications == old.notifications,
        action is MoveSelectionLeft || (action is Scroll && action->Scroll_0 == ScrollDelta::Positive)
            ==> new.selection.selected_index == (if old.selection.selected_index > 0 {
            old.selection.selected_index - 1
        } else {
            0
        }),
        action is MoveSelectionRight || (action is Scroll && action->Scroll_0 == ScrollDelta::Negative)
            ==> new.selection.selected_index == (if displayed(old).len() == 0 {
            0
        } else if old.selection.selected_index + 1 < displayed(old).len() - 1 {
            old.selection.selected_index + 1
        } else {
            displayed(old).len() - 1
        }),
        (action is Scroll && action->Scroll_0 == ScrollDelta::Zero) ==> new.selection.selected_index
            == old.selection.selected_index,
{
    let i = old.selection.selected_index as int;
    let n = displayed(old).len() as int;
    assert(displayed(moved_right(old)) == displayed(old));
    match action {
        Action::MoveSelectionLeft => {
            assert(new == moved_left(old));
            assert(new.selection.selected_index == (if i > 0 { i - 1 } else { 0 }) as usize);
            assert(new.selection.selected_index == (if i > 0 { i - 1 } else { 0 }));
        },
        Action::MoveSelectionRight => {
            assert(new == moved_right(old));
            assert(new.selection.selected_index == clamped_index(i + 1, n) as usize);
        },
        Action::Scroll(ScrollDelta::Negative) => {
            assert(new == moved_right(old));
            assert(new.selection.selected_index == clamped_index(i + 1, n) as usize);
        },
        Action::Scroll(ScrollDelta::Positive) => {
            assert(new == moved_left(old));
            assert(new.selection.selected_index == (if i > 0 { i - 1 } else { 0 }) as usize);
        },
        _ => {},
    }
}

/// A directory that finished loading becomes the current one, its listing
/// replaces the old, no error remains, and the selection starts over at the
/// first card with nothing hovered, whatever was selected before; so the
/// selected entry is then the listing's first entry with the id of the first
/// shown entry.
pub proof fn lemma_load_resets_selection(
    old: AppState,
    new: AppState,
    snap: DirectorySnapshot,
    req: Option<FsRequest>,
)
    requires
        response_handled(old, new, FsResponse::DirectoryLoaded(Ok(snap)), req),
    ensures
        new.selection.selected_index == 0,
        new.selection.hovered is None,
        new.navigation.current_path == snap.path,
        new.directory.snapshot == Some(snap),
        !new.directory.loading,
        new.directory.error is None,
        req is None,
        displayed(new).len() > 0 ==> selected_of(new) == first_with_id(snap.entries@, displayed(new)[0].id),
{
}

/// Mode keys change the mode only: search and rename enter their modes,
/// leaving a mode returns to normal and drops a deletion waiting for
/// confirmation; nothing is asked of the outside.
pub proof fn lemma_mode_actions(old: AppState, new: AppState, action: Action, effect: Option<Effect>)
    requires
        action is StartSearch || action is BeginRename || action is ClearMode,
        action_applied(old, new, action, effect),
    ensures
        effect is None,
        action is StartSearch ==> new.ui.mode == UiMode::Search,
        action is BeginRename ==> new.ui.mode == UiMode::Rename,
        action is ClearMode ==> new.ui.mode == UiMode::Normal && new.ui.pending_delete is None,
        !(action is ClearMode) ==> new.ui.pending_delete == old.ui.pending_delete,
        new.ui.breadcrumbs == old.ui.breadcrumbs,
        new.ui.inspector_text == old.ui.inspector_text,
        new.ui.viewport_size == old.ui.viewport_size,
        new.navigation == old.navigation,
        new.directory == old.directory,
        new.selection == old.selection,
        new.sort == old.sort,
        new.filter == old.filter,
        new.theme == old.theme,
        new.pending_ops == old.pending_ops,
        new.notifications == old.notifications,
{
}

/// Choosing a sort key sets it and flips the direction; cycling the key goes
/// name, modified, size, type and back to name, keeping the direction.
/// Nothing else changes.
pub proof fn lemma_sort_actions(old: AppState, new: AppState, action: Action, effect: Option<Effect>)
    requires
        action is SetSort || action is CycleSort,
        action_applied(old, new, action, effect),
    ensures
        effect is None,
        action is SetSort ==> new.sort.key == action->SetSort_0 && new.sort.ascending == !old.sort.ascending,
        action is CycleSort ==> new.sort.ascending == old.sort.ascending && new.sort.key == (match old.sort.key {
            SortKey::Name => SortKey::Modified,
            SortKey::Modified => SortKey::Size,
            SortKey::Size => SortKey::Type,
            SortKey::Type => SortKey::Name,
        }),
        new.navigation == old.navigation,
        new.directory == old.directory,
        new.selection == old.selection,
        new.filter == old.filter,
        new.ui == old.ui,
        new.theme == old.theme,
        new.pending_ops == old.pending_ops,
        new.notifications == old.notifications,
{
}

/// Typing a query stores it, and pulls the selection inside the deck the new
/// query shows (the first card when that deck is empty); nothing else changes.
pub proof fn lemma_search_action(old: AppState, new: AppState, query: String, effect: Option<Effect>)
    requires
        action_applied(old, new, Action::UpdateSearch(query), effect),
        displayed(new).len() <= usize::MAX,
    ensures
        effect is None,
        new.filter.query == query,
        displayed(new) == sorted_by(old.sort, filtered(snapshot_entries(old), query@)),
        new.selection.selected_index == (if displayed(new).len() == 0 {
            0
        } else if old.selection.selected_index < displayed(new).len() - 1 {
            old.selection.selected_index as int
        } else {
            displayed(new).len() - 1
        }),
        new.selection.hovered == old.selection.hovered,
        new.navigation == old.navigation,
        new.directory == old.directory,
        new.sort == old.sort,
        new.ui == old.ui,
        new.theme == old.theme,
        new.pending_ops == old.pending_ops,
        new.notifications == old.notifications,
{
    let searched = AppState { filter: FilterState { query }, ..old };
    assert(displayed(new) == displayed(searched));
}

/// Style keys and clicks on the style panel open or close it and move a
/// palette to the next of its 5, 9 or 5 palettes; resizing records the
/// window size, each side at least one pixel; hovering and selecting a card
/// record its index. Nothing else changes and nothing is asked outside.
pub proof fn lemma_view_actions(old: AppState, new: AppState, action: Action, effect: Option<Effect>)
    requires
        action_applied(old, new, action, effect),
    ensures
        (action is ToggleStylePanel || action == Action::ClickAt(StylePanelHit::TogglePanel)) ==> new.theme
            == (VisualTheme { style_panel_open: !old.theme.style_panel_open, ..old.theme }) && new.ui == old.ui
            && new.selection == old.selection && effect is None,
        (action is CycleTextColor || action == Action::ClickAt(StylePanelHit::CycleText)) ==> new.theme.text_palette
            == (old.theme.text_palette + 1) % 5 && new.theme.outline_palette == old.theme.outline_palette
            && new.theme.background_box_palette == old.theme.background_box_palette
            && new.theme.style_panel_open == old.theme.style_panel_open && effect is None,
        (action is CycleOutlineColor || action == Action::ClickAt(StylePanelHit::CycleOutline))
            ==> new.theme.outline_palette == (old.theme.outline_palette + 1) % 9 && new.theme.text_palette
            == old.theme.text_palette && new.theme.background_box_palette == old.theme.background_box_palette
            && new.theme.style_panel_open == old.theme.style_panel_open && effect is None,
        (action is CycleBackgroundBoxColor || action == Action::ClickAt(StylePanelHit::CycleBackgroundBoxes))
            ==> new.theme.background_box_palette == (old.theme.background_box_palette + 1) % 5
            && new.theme.text_palette == old.theme.text_palette && new.theme.outline_palette
            == old.theme.outline_palette && new.theme.style_panel_open == old.theme.style_panel_open
            && effect is None,
        action == Action::ClickAt(StylePanelHit::Nothing) ==> new == old && effect is None,
        action is ViewportResized ==> new.ui.viewport_size == (
            if action->width == 0 { 1u32 } else { action->width },
            if action->height == 0 { 1u32 } else { action->height },
        ) && new.ui.mode == old.ui.mode && new.theme == old.theme && effect is None,
        action is HoverIndex ==> new.selection.hovered == Some(action->HoverIndex_0)
            && new.selection.selected_index == old.selection.selected_index && effect is None,
        action is SelectIndex ==> new.selection.selected_index == action->SelectIndex_0
            && new.selection.hovered == old.selection.hovered && effect is None,
        action is Noop ==> new == old && effect is None,
        (action is ToggleStylePanel || action is CycleTextColor || action is CycleOutlineColor
            || action is CycleBackgroundBoxColor || action is ClickAt || action is ViewportResized
            || action is HoverIndex || action is SelectIndex) ==> new.navigation == old.navigation
            && new.directory == old.directory && new.sort == old.sort && new.filter == old.filter
            && new.pending_ops == old.pending_ops && new.notifications == old.notifications,
{
}

/// Opening the selected entry asks to navigate into it when it is a
/// directory and to open it otherwise; going up asks to navigate to the
/// parent of the current directory; choosing a favorite or a path asks to
/// navigate there. None of these changes the state itself.
pub proof fn lemma_open_actions(old: AppState, new: AppState, action: Action, effect: Option<Effect>)
    requires
        action is OpenSelected || action is GoUp || action is ActivateFavorite || action is NavigateToPath,
        action_applied(old, new, action, effect),
    ensures
        new == old,
        action is OpenSelected ==> match selected_of(old) {
            None => effect is None,
            Some(e) => if e.kind == EntryKind::Directory {
                effect == Some(Effect::Navigate(e.path))
            } else {
                effect == Some(Effect::OpenFile { path: e.path, name: e.name })
            },
        },
        action is GoUp ==> match path_parent(old.navigation.current_path@) {
            None => effect is None,
            Some(up) => effect matches Some(Effect::Navigate(p)) && p@ == up,
        },
        action is ActivateFavorite ==> effect == Some(Effect::Navigate(action->ActivateFavorite_0)),
        action is NavigateToPath ==> effect == Some(Effect::Navigate(action->NavigateToPath_0)),
{
}

/// Creating a folder asks for "New Folder" inside the current directory;
/// confirming a rename asks to rename the selected entry to its name
/// followed by "_renamed" and returns to normal mode. Each request is
/// recorded as one more pending operation, and nothing else changes.
pub proof fn lemma_request_actions(old: AppState, new: AppState, action: Action, effect: Option<Effect>)
    requires
        action is CreateFolder || action is ConfirmRename,
        action_applied(old, new, action, effect),
    ensures
        action is CreateFolder ==> {
            &&& effect matches Some(Effect::Request(FsRequest::CreateFolder { parent, name }))
                && parent == old.navigation.current_path && name@ == "New Folder"@
            &&& new.pending_ops.deep_view() == old.pending_ops.deep_view().push("Create folder"@)
            &&& new.ui == old.ui
        },
        action is ConfirmRename ==> match selected_of(old) {
            None => new == old && effect is None,
            Some(e) => {
                &&& effect matches Some(Effect::Request(FsRequest::Rename { from, to_name })) && from == e.path
                    && to_name@ == e.name@ + "_renamed"@
                &&& new.pending_ops.deep_view() == old.pending_ops.deep_view().push("Rename"@)
                &&& new.ui.mode == UiMode::Normal
                &&& new.ui.pending_delete == old.ui.pending_delete
            },
        },
        new.navigation == old.navigation,
        new.directory == old.directory,
        new.selection == old.selection,
        new.sort == old.sort,
        new.filter == old.filter,
        new.theme == old.theme,
        new.notifications == old.notifications,
{
}

/// Going back (forward) makes the top of the back (forward) stack the
/// current directory and asks to read it; with that stack empty nothing
/// happens.
pub proof fn lemma_history_actions(old: AppState, new: AppState, action: Action, effect: Option<Effect>)
    requires
        action is NavigateBack || action is NavigateForward,
        action_applied(old, new, action, effect),
    ensures
        action is NavigateBack && old.navigation@.back.len() == 0 ==> new == old && effect is None,
        action is NavigateForward && old.navigation@.forward.len() == 0 ==> new == old && effect is None,
        action is NavigateBack && old.navigation@.back.len() > 0 ==> {
            &&& new.navigation@.current == old.navigation@.back.last()
            &&& new.navigation@.back == old.navigation@.back.drop_last()
            &&& new.navigation@.forward == old.navigation@.forward.push(old.navigation@.current)
            &&& new.directory.loading
            &&& effect matches Some(Effect::Request(FsRequest::LoadDirectory(p))) && p@ == old.navigation@.back.last()
        },
        action is NavigateForward && old.navigation@.forward.len() > 0 ==> {
            &&& new.navigation@.current == old.navigation@.forward.last()
            &&& new.navigation@.forward == old.navigation@.forward.drop_last()
            &&& new.navigation@.back == old.navigation@.back.push(old.navigation@.current)
            &&& new.directory.loading
            &&& effect matches Some(Effect::Request(FsRequest::LoadDirectory(p))) && p@ == old.navigation@.forward.last()
        },
        new.selection == old.selection,
        new.directory.snapshot == old.directory.snapshot,
        new.filter == old.filter,
        new.sort == old.sort,
        new.ui == old.ui,
        new.theme == old.theme,
        new.pending_ops == old.pending_ops,
        new.notifications == old.notifications,
{
}

/// A failed load stops loading, keeps the listing and the selection, records
/// the error and reports it as the newest notification; a finished operation
/// drops the oldest pending one and reports its message, and on success asks
/// to read the current directory again.
pub proof fn lemma_failures_and_finishes(old: AppState, new: AppState, response: FsResponse, req: Option<FsRequest>)
    requires
        response_handled(old, new, response, req),
    ensures
        response matches FsResponse::DirectoryLoaded(Err(m)) ==> {
            &&& !new.directory.loading
            &&& new.directory.error == Some(m)
            &&& new.directory.snapshot == old.directory.snapshot
            &&& new.selection == old.selection
            &&& new.navigation == old.navigation
            &&& notification_texts(new.notifications@).last() == (NotificationLevel::Error, m@)
            &&& req is None
        },
        response is OperationFinished ==> {
            &&& new.pending_ops@ == (if old.pending_ops@.len() > 0 {
                old.pending_ops@.subrange(1, old.pending_ops@.len() as int)
            } else {
                old.pending_ops@
            })
            &&& new.selection == old.selection
            &&& new.navigation == old.navigation
            &&& new.directory.snapshot == old.directory.snapshot
        },
        response matches FsResponse::OperationFinished(Ok(m)) ==> {
            &&& notification_texts(new.notifications@).last() == (NotificationLevel::Info, m@)
            &&& new.directory.loading
            &&& req == Some(FsRequest::LoadDirectory(old.navigation.current_path))
        },
        response matches FsResponse::OperationFinished(Err(m)) ==> {
            &&& notification_texts(new.notifications@).last() == (NotificationLevel::Error, m@)
            &&& req is None
        },
{
    match response {
        FsResponse::DirectoryLoaded(Err(m)) => {
            lemma_notifications_bounded(notification_texts(old.notifications@), (NotificationLevel::Error, m@));
        },
        FsResponse::OperationFinished(Ok(m)) => {
            lemma_notifications_bounded(notification_texts(old.notifications@), (NotificationLevel::Info, m@));
        },
        FsResponse::OperationFinished(Err(m)) => {
            lemma_notifications_bounded(notification_texts(old.notifications@), (NotificationLevel::Error, m@));
        },
        _ => {},
    }
}

/// Navigating to a directory and then going back returns to the directory
/// one came from, reads it again, and offers the visited one to go forward to.
pub proof fn lemma_navigate_then_back(
    s0: AppState,
    s1: AppState,
    s2: AppState,
    path: String,
    req: Option<FsRequest>,
    effect: Option<Effect>,
)
    requires
        navigated(s0, s1, path, req),
        !path_eq(path@, s0.navigation.current_path@),
        action_applied(s1, s2, Action::NavigateBack, effect),
    ensures
        s2.navigation@.current == s0.navigation@.current,
        s2.navigation@.back == s0.navigation@.back,
        s2.navigation@.forward == seq![path@],
        effect matches Some(Effect::Request(FsRequest::LoadDirectory(p))) && p@ == s0.navigation@.current,
{
    crate::navigation::lemma_visit_then_back(s0.navigation@, path@);
}

/// Asking to delete the selected entry and confirming deletes that entry,
/// and leaves nothing waiting for confirmation.
pub proof fn lemma_request_then_confirm_delete(
    s0: AppState,
    s1: AppState,
    s2: AppState,
    e1: Option<Effect>,
    e2: Option<Effect>,
)
    requires
        selected_of(s0) is Some,
        action_applied(s0, s1, Action::RequestDelete, e1),
        action_applied(s1, s2, Action::ConfirmDelete, e2),
    ensures
        e2 == Some(Effect::Request(FsRequest::Delete { path: selected_of(s0)->0.path })),
        s2.ui.pending_delete is None,
        s2.ui.mode == UiMode::Normal,
        s2.pending_ops.deep_view() == s0.pending_ops.deep_view().push("Delete"@),
{
}

/// Leaving a mode cancels a deletion waiting for confirmation: confirming
/// afterwards deletes nothing.
pub proof fn lemma_clear_cancels_delete(
    s0: AppState,
    s1: AppState,
    s2: AppState,
    e1: Option<Effect>,
    e2: Option<Effect>,
)
    requires
        action_applied(s0, s1, Action::ClearMode, e1),
        action_applied(s1, s2, Action::ConfirmDelete, e2),
    ensures
        e2 is None,
        s2 == s1,
{
}

/// How a mode is named in the overlay.
pub open spec fn mode_name(mode: UiMode) -> Seq<char> {
    match mode {
        UiMode::Normal => "Normal"@,
        UiMode::Search => "Search"@,
        UiMode::Rename => "Rename"@,
        UiMode::DeleteConfirm => "DeleteConfirm"@,
    }
}

/// The overlay lines for `s` with `visible` cards shown out of at most `cap`:
/// the current path, the mode, the query, the card count and the newest
/// notification, if any.
pub open spec fn overlay_text(s: AppState, visible: nat, cap: nat) -> Seq<Seq<char>> {
    let q = s.filter.query@;
    let base = seq![
        "Path Spine: "@ + s.navigation.current_path@,
        "Mode: "@ + mode_name(s.ui.mode),
        "Filter Beam: "@ + (if q.len() == 0 { "(none)"@ } else { q }),
        "Deck: "@ + decimal(visible) + " visible / cap "@ + decimal(cap),
    ];
    if s.notifications@.len() > 0 {
        base.push("Notification: "@ + s.notifications@.last().message@)
    } else {
        base
    }
}

/// `prefix` followed by `rest`.
fn line(prefix: &str, rest: &str) -> (r: String)
    ensures
        r@ == prefix@ + rest@,
{
    let mut text = chars_of(prefix);
    push_str(&mut text, rest);
    string_from_chars(&text)
}

/// The status lines drawn over the deck, with `visible_cards` of at most
/// `max_visible_cards` cards shown.
pub fn overlay_lines(state: &AppState, visible_cards: usize, max_visible_cards: usize) -> (r: Vec<String>)
    ensures
        r.deep_view() == overlay_text(*state, visible_cards as nat, max_visible_cards as nat),
{
    let mut out: Vec<String> = Vec::new();
    out.push(line("Path Spine: ", state.navigation.current_path.as_str()));
    let mode = match state.ui.mode {
        UiMode::Normal => "Normal",
        UiMode::Search => "Search",
        UiMode::Rename => "Rename",
        UiMode::DeleteConfirm => "DeleteConfirm",
    };
    out.push(line("Mode: ", mode));
    let query = state.filter.query.as_str();
    let shown = if query.is_empty() { "(none)" } else { query };
    out.push(line("Filter Beam: ", shown));
    let mut deck = chars_of("Deck: ");
    push_decimal(&mut deck, visible_cards as u128);
    push_str(&mut deck, " visible / cap ");
    push_decimal(&mut deck, max_visible_cards as u128);
    out.push(string_from_chars(&deck));
    let n = state.notifications.len();
    if n > 0 {
        out.push(line("Notification: ", state.notifications[n - 1].message.as_str()));
    }
    assert(out.deep_view() =~= overlay_text(*state, visible_cards as nat, max_visible_cards as nat));
    out
}

} // verus!

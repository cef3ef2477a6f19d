//! What the user asks for, and what the browser asks of the filesystem.

use vstd::prelude::*;

use crate::entries::DirectorySnapshot;
use crate::sort::SortKey;

verus! {

/// The sign of a mouse wheel movement.
#[derive(Debug, Clone, Copy, PartialEq, Eq, Structural)]
pub enum ScrollDelta {
    /// Moved towards the user: the selection moves right.
    Negative,
    /// Moved away from the user: the selection moves left.
    Positive,
    /// No movement (or no number).
    Zero,
}

/// What a click on the style panel hit.
#[derive(Debug, Clone, Copy, PartialEq, Eq, Structural)]
pub enum StylePanelHit {
    /// The click missed the panel and its button.
    Nothing,
    TogglePanel,
    CycleText,
    CycleOutline,
    CycleBackgroundBoxes,
}

/// One request of the user.
#[derive(Debug, Clone)]
pub enum Action {
    MoveSelectionLeft,
    MoveSelectionRight,
    Scroll(ScrollDelta),
    OpenSelected,
    GoUp,
    NavigateBack,
    NavigateForward,
    StartSearch,
    UpdateSearch(String),
    ClearMode,
    SetSort(SortKey),
    CycleSort,
    CreateFolder,
    BeginRename,
    ConfirmRename,
    RequestDelete,
    ConfirmDelete,
    ClickAt(StylePanelHit),
    ViewportResized { width: u32, height: u32 },
    ToggleStylePanel,
    CycleTextColor,
    CycleOutlineColor,
    CycleBackgroundBoxColor,
    HoverIndex(usize),
    SelectIndex(usize),
    ActivateFavorite(String),
    NavigateToPath(String),
    Noop,
}

/// A filesystem operation the browser starts.
#[derive(Debug, Clone)]
pub enum AppCommand {
    LoadDirectory(String),
    CreateFolder { parent: String, name: String },
    Rename { from: String, to_name: String },
    Delete { path: String },
}

/// A request sent to the filesystem worker.
#[derive(Debug, Clone)]
pub enum FsRequest {
    LoadDirectory(String),
    CreateFolder { parent: String, name: String },
    Rename { from: String, to_name: String },
    Delete { path: String },
}

/// The filesystem worker's answer, with errors as their messages.
#[derive(Debug)]
pub enum FsResponse {
    DirectoryLoaded(Result<DirectorySnapshot, String>),
    OperationFinished(Result<String, String>),
}

/// What the browser asks its surroundings to do after handling an action.
#[derive(Debug)]
pub enum Effect {
    /// Send this request to the filesystem worker.
    Request(FsRequest),
    /// Normalize this path and navigate to it.
    Navigate(String),
    /// Open this file with the application the system associates with it.
    OpenFile { path: String, name: String },
}

/// The keys the browser responds to; any other key is `Other`.
#[derive(Debug, Clone, Copy, PartialEq, Eq, Structural)]
pub enum KeyCode {
    ArrowLeft,
    ArrowRight,
    Enter,
    Backspace,
    Escape,
    Delete,
    F2,
    KeyN,
    KeyF,
    KeyR,
    KeyD,
    Digit1,
    Digit2,
    Digit3,
    Digit4,
    F8,
    F9,
    F10,
    F11,
    Other,
}

/// The action a key press stands for, given whether Alt and Control are
/// held; `None` stands for a key the system could not identify.
pub open spec fn key_action(key: Option<KeyCode>, alt: bool, control: bool) -> Action {
    match key {
        None => Action::Noop,
        Some(code) => match code {
            KeyCode::ArrowLeft => if alt { Action::NavigateBack } else { Action::MoveSelectionLeft },
            KeyCode::ArrowRight => if alt { Action::NavigateForward } else { Action::MoveSelectionRight },
            KeyCode::Enter => Action::OpenSelected,
            KeyCode::Backspace => Action::GoUp,
            KeyCode::Escape => Action::ClearMode,
            KeyCode::Delete => Action::RequestDelete,
            KeyCode::F2 => Action::BeginRename,
            KeyCode::KeyN => if control { Action::CreateFolder } else { Action::Noop },
            KeyCode::KeyF => if control { Action::StartSearch } else { Action::Noop },
            KeyCode::KeyR => if control { Action::ConfirmRename } else { Action::Noop },
            KeyCode::KeyD => if control { Action::ConfirmDelete } else { Action::Noop },
            KeyCode::Digit1 => Action::SetSort(SortKey::Name),
            KeyCode::Digit2 => Action::SetSort(SortKey::Modified),
            KeyCode::Digit3 => Action::SetSort(SortKey::Size),
            KeyCode::Digit4 => Action::SetSort(SortKey::Type),
            KeyCode::F8 => Action::ToggleStylePanel,
            KeyCode::F9 => Action::CycleTextColor,
            KeyCode::F10 => Action::CycleOutlineColor,
            KeyCode::F11 => Action::CycleBackgroundBoxColor,
            KeyCode::Other => Action::Noop,
        },
    }
}

/// Without Alt the arrow keys move the selection; with Alt they go back and
/// forward in the history; Control plays no part for them.
pub proof fn lemma_arrow_keys(alt: bool, control: bool)
    ensures
        !alt ==> key_action(Some(KeyCode::ArrowLeft), alt, control) == Action::MoveSelectionLeft,
        !alt ==> key_action(Some(KeyCode::ArrowRight), alt, control) == Action::MoveSelectionRight,
        alt ==> key_action(Some(KeyCode::ArrowLeft), alt, control) == Action::NavigateBack,
        alt ==> key_action(Some(KeyCode::ArrowRight), alt, control) == Action::NavigateForward,
{
}

/// Alt changes only what the arrow keys do, and Control only what N, F, R
/// and D do (which need it to do anything).
pub proof fn lemma_modifiers(key: Option<KeyCode>, alt: bool, control: bool)
    ensures
        key != Some(KeyCode::ArrowLeft) && key != Some(KeyCode::ArrowRight) ==> key_action(key, alt, control)
            == key_action(key, !alt, control),
        key != Some(KeyCode::KeyN) && key != Some(KeyCode::KeyF) && key != Some(KeyCode::KeyR) && key != Some(
            KeyCode::KeyD,
        ) ==> key_action(key, alt, control) == key_action(key, alt, !control),
        (key == Some(KeyCode::KeyN) || key == Some(KeyCode::KeyF) || key == Some(KeyCode::KeyR) || key == Some(
            KeyCode::KeyD,
        )) ==> (key_action(key, alt, false) == Action::Noop && key_action(key, alt, true) != Action::Noop),
{
}

/// The keys and what they ask for, whatever the modifiers: Enter opens the
/// selection, Backspace goes up, Escape leaves the current mode, Delete asks
/// to delete and F2 starts a rename; the digits one to four sort by name,
/// time, size and type; F8 to F11 work the style panel; with Control, N, F,
/// R and D create a folder, search, confirm a rename and confirm a deletion;
/// any other key, or none, does nothing.
pub proof fn lemma_key_table(alt: bool, control: bool)
    ensures
        key_action(Some(KeyCode::Enter), alt, control) == Action::OpenSelected,
        key_action(Some(KeyCode::Backspace), alt, control) == Action::GoUp,
        key_action(Some(KeyCode::Escape), alt, control) == Action::ClearMode,
        key_action(Some(KeyCode::Delete), alt, control) == Action::RequestDelete,
        key_action(Some(KeyCode::F2), alt, control) == Action::BeginRename,
        key_action(Some(KeyCode::Digit1), alt, control) == Action::SetSort(SortKey::Name),
        key_action(Some(KeyCode::Digit2), alt, control) == Action::SetSort(SortKey::Modified),
        key_action(Some(KeyCode::Digit3), alt, control) == Action::SetSort(SortKey::Size),
        key_action(Some(KeyCode::Digit4), alt, control) == Action::SetSort(SortKey::Type),
        key_action(Some(KeyCode::F8), alt, control) == Action::ToggleStylePanel,
        key_action(Some(KeyCode::F9), alt, control) == Action::CycleTextColor,
        key_action(Some(KeyCode::F10), alt, control) == Action::CycleOutlineColor,
        key_action(Some(KeyCode::F11), alt, control) == Action::CycleBackgroundBoxColor,
        key_action(Some(KeyCode::KeyN), alt, true) == Action::CreateFolder,
        key_action(Some(KeyCode::KeyF), alt, true) == Action::StartSearch,
        key_action(Some(KeyCode::KeyR), alt, true) == Action::ConfirmRename,
        key_action(Some(KeyCode::KeyD), alt, true) == Action::ConfirmDelete,
        key_action(Some(KeyCode::Other), alt, control) == Action::Noop,
        key_action(None, alt, control) == Action::Noop,
{
}

/// The actions a key press stands for: always exactly one.
pub fn map_key(key: Option<KeyCode>, alt: bool, control: bool) -> (r: Vec<Action>)
    ensures
        r@ == seq![key_action(key, alt, control)],
{
    let action = match key {
        None => Action::Noop,
        Some(code) => match code {
            KeyCode::ArrowLeft => if alt { Action::NavigateBack } else { Action::MoveSelectionLeft },
            KeyCode::ArrowRight => if alt { Action::NavigateForward } else { Action::MoveSelectionRight },
            KeyCode::Enter => Action::OpenSelected,
            KeyCode::Backspace => Action::GoUp,
            KeyCode::Escape => Action::ClearMode,
            KeyCode::Delete => Action::RequestDelete,
            KeyCode::F2 => Action::BeginRename,
            KeyCode::KeyN => if control { Action::CreateFolder } else { Action::Noop },
            KeyCode::KeyF => if control { Action::StartSearch } else { Action::Noop },
            KeyCode::KeyR => if control { Action::ConfirmRename } else { Action::Noop },
            KeyCode::KeyD => if control { Action::ConfirmDelete } else { Action::Noop },
            KeyCode::Digit1 => Action::SetSort(SortKey::Name),
            KeyCode::Digit2 => Action::SetSort(SortKey::Modified),
            KeyCode::Digit3 => Action::SetSort(SortKey::Size),
            KeyCode::Digit4 => Action::SetSort(SortKey::Type),
            KeyCode::F8 => Action::ToggleStylePanel,
            KeyCode::F9 => Action::CycleTextColor,
            KeyCode::F10 => Action::CycleOutlineColor,
            KeyCode::F11 => Action::CycleBackgroundBoxColor,
            KeyCode::Other => Action::Noop,
        },
    };
    let mut out: Vec<Action> = Vec::new();
    out.push(action);
    assert(out@ =~= seq![key_action(key, alt, control)]);
    out
}

} // verus!

//! Navigation history: the current directory with back and forward stacks.

use vstd::prelude::*;

use crate::paths::{join_path, path_join};

verus! {

/// A named shortcut to a directory.
#[derive(Debug, Clone)]
pub struct FavoriteLocation {
    pub label: String,
    pub path: String,
}

/// The current directory, the directories to go back to (most recent last)
/// and those to go forward to (most recent last), and the favorites.
#[derive(Debug, Clone)]
pub struct NavigationState {
    pub current_path: String,
    pub back_stack: Vec<String>,
    pub forward_stack: Vec<String>,
    pub favorites: Vec<FavoriteLocation>,
}

/// The history part of a navigation state, as texts.
pub struct HistoryView {
    pub current: Seq<char>,
    pub back: Seq<Seq<char>>,
    pub forward: Seq<Seq<char>>,
}

impl View for NavigationState {
    type V = HistoryView;

    open spec fn view(&self) -> HistoryView {
        HistoryView {
            current: self.current_path@,
            back: self.back_stack.deep_view(),
            forward: self.forward_stack.deep_view(),
        }
    }
}

/// The history after visiting `next` from `current`: `current` is pushed on
/// the back stack and the forward stack is emptied.
pub open spec fn visited(h: HistoryView, next: Seq<char>, current: Seq<char>) -> HistoryView {
    HistoryView { current: next, back: h.back.push(current), forward: Seq::empty() }
}

/// The history after going back, and the directory gone back to: the top of
/// the back stack becomes current and the current one moves to the forward
/// stack. With an empty back stack nothing changes.
pub open spec fn went_back(h: HistoryView) -> (HistoryView, Option<Seq<char>>) {
    if h.back.len() == 0 {
        (h, None)
    } else {
        (
            HistoryView { current: h.back.last(), back: h.back.drop_last(), forward: h.forward.push(h.current) },
            Some(h.back.last()),
        )
    }
}

/// The history after going forward, and the directory gone to: the mirror
/// image of going back.
pub open spec fn went_forward(h: HistoryView) -> (HistoryView, Option<Seq<char>>) {
    if h.forward.len() == 0 {
        (h, None)
    } else {
        (
            HistoryView { current: h.forward.last(), back: h.back.push(h.current), forward: h.forward.drop_last() },
            Some(h.forward.last()),
        )
    }
}

impl NavigationState {
    /// A history that starts at `start`, with nothing to go back or forward to.
    pub fn new(start: String, favorites: Vec<FavoriteLocation>) -> (r: Self)
        ensures
            r@.current == start@,
            r@.back.len() == 0,
            r@.forward.len() == 0,
            r.favorites@ == favorites@,
    {
        NavigationState {
            current_path: start,
            back_stack: Vec::new(),
            forward_stack: Vec::new(),
            favorites,
        }
    }

    /// Goes to `next`, remembering `current` to come back to.
    pub fn visit(&mut self, next: String, current: String)
        ensures
            final(self)@ == visited(old(self)@, next@, current@),
            final(self).favorites == old(self).favorites,
    {
        self.back_stack.push(current);
        self.current_path = next;
        self.forward_stack.clear();
        assert(self.back_stack.deep_view() =~= old(self).back_stack.deep_view().push(current@));
        assert(self.forward_stack.deep_view() =~= Seq::<Seq<char>>::empty());
    }

    /// Goes back one step, giving the directory now current.
    pub fn back(&mut self) -> (r: Option<String>)
        ensures
            (final(self)@, r.deep_view()) == went_back(old(self)@),
            final(self).favorites == old(self).favorites,
            r is None ==> *final(self) == *old(self),
    {
        if self.back_stack.len() == 0 {
            return None;
        }
        let prev = self.back_stack.pop().unwrap();
        let here = self.current_path.clone();
        self.forward_stack.push(here);
        self.current_path = prev.clone();
        assert(self.back_stack.deep_view() =~= old(self).back_stack.deep_view().drop_last());
        assert(self.forward_stack.deep_view() =~= old(self).forward_stack.deep_view().push(old(self).current_path@));
        Some(prev)
    }

    /// Goes forward one step, giving the directory now current.
    pub fn forward(&mut self) -> (r: Option<String>)
        ensures
            (final(self)@, r.deep_view()) == went_forward(old(self)@),
            final(self).favorites == old(self).favorites,
            r is None ==> *final(self) == *old(self),
    {
        if self.forward_stack.len() == 0 {
            return None;
        }
        let next = self.forward_stack.pop().unwrap();
        let here = self.current_path.clone();
        self.back_stack.push(here);
        self.current_path = next.clone();
        assert(self.forward_stack.deep_view() =~= old(self).forward_stack.deep_view().drop_last());
        assert(self.back_stack.deep_view() =~= old(self).back_stack.deep_view().push(old(self).current_path@));
        Some(next)
    }
}

/// Going back and then forward returns to where one was.
pub proof fn lemma_back_then_forward(h: HistoryView)
    requires
        h.back.len() > 0,
    ensures
        went_forward(went_back(h).0) == (h, Some(h.current)),
{
    let b = went_back(h).0;
    assert(b.back.push(b.current) =~= h.back);
    assert(b.forward.drop_last() =~= h.forward);
}

/// Going forward and then back returns to where one was.
pub proof fn lemma_forward_then_back(h: HistoryView)
    requires
        h.forward.len() > 0,
    ensures
        went_back(went_forward(h).0) == (h, Some(h.current)),
{
    let f = went_forward(h).0;
    assert(f.forward.push(f.current) =~= h.forward);
    assert(f.back.drop_last() =~= h.back);
}

/// After visiting a directory, going back returns to the one visited from,
/// and the visited one is the only place to go forward to.
pub proof fn lemma_visit_then_back(h: HistoryView, next: Seq<char>)
    ensures
        went_back(visited(h, next, h.current)) == (
            HistoryView { current: h.current, back: h.back, forward: seq![next] },
            Some(h.current),
        ),
{
    let v = visited(h, next, h.current);
    assert(v.back.drop_last() =~= h.back);
    assert(v.forward.push(next) =~= seq![next]);
}

/// Going back or forward never loses a directory of the history: the
/// stacks together keep their size, and a step that finds its stack empty
/// changes nothing.
pub proof fn lemma_history_size_kept(h: HistoryView)
    ensures
        went_back(h).0.back.len() + went_back(h).0.forward.len() == h.back.len() + h.forward.len(),
        went_forward(h).0.back.len() + went_forward(h).0.forward.len() == h.back.len() + h.forward.len(),
        h.back.len() == 0 ==> went_back(h) == (h, None::<Seq<char>>),
        h.forward.len() == 0 ==> went_forward(h) == (h, None::<Seq<char>>),
{
}

/// The favorites offered for a user whose home directory is `home`, if known.
pub open spec fn favorites_for(home: Option<Seq<char>>) -> Seq<(Seq<char>, Seq<char>)> {
    let this_pc = seq![("This PC"@, "C:\\"@)];
    match home {
        Some(h) => seq![
            ("Desktop"@, path_join(h, "Desktop"@)),
            ("Documents"@, path_join(h, "Documents"@)),
            ("Downloads"@, path_join(h, "Downloads"@)),
            ("Pictures"@, path_join(h, "Pictures"@)),
        ] + this_pc,
        None => this_pc,
    }
}

/// The label and path of each favorite, as texts.
pub open spec fn favorite_texts(f: Seq<FavoriteLocation>) -> Seq<(Seq<char>, Seq<char>)> {
    f.map_values(|x: FavoriteLocation| (x.label@, x.path@))
}

/// The favorite `label` at `path`.
fn favorite(label: &str, path: String) -> (r: FavoriteLocation)
    ensures
        r.label@ == label@,
        r.path == path,
{
    FavoriteLocation { label: label.to_string(), path }
}

/// The standard favorites: the home directory's Desktop, Documents,
/// Downloads and Pictures when the home directory is known, then the
/// root of drive C.
pub fn default_favorites(home: Option<String>) -> (r: Vec<FavoriteLocation>)
    ensures
        favorite_texts(r@) == favorites_for(home.deep_view()),
{
    let mut out: Vec<FavoriteLocation> = Vec::new();
    match &home {
        Some(h) => {
            out.push(favorite("Desktop", join_path(h.as_str(), "Desktop")));
            out.push(favorite("Documents", join_path(h.as_str(), "Documents")));
            out.push(favorite("Downloads", join_path(h.as_str(), "Downloads")));
            out.push(favorite("Pictures", join_path(h.as_str(), "Pictures")));
        },
        None => {},
    }
    out.push(favorite("This PC", "C:\\".to_string()));
    assert(favorite_texts(out@) =~= favorites_for(home.deep_view()));
    out
}

} // verus!

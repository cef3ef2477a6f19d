use vstd::prelude::*;

verus! {

/// Which card of the deck is selected, and which one the pointer hovers.
#[derive(Debug, Clone, Copy)]
pub struct SelectionState {
    pub selected_index: usize,
    pub hovered: Option<usize>,
}

/// The index that a selection clamped to a deck of `len` cards ends on.
pub open spec fn clamped_index(index: int, len: int) -> int {
    if len == 0 {
        0
    } else if index < len - 1 {
        index
    } else {
        len - 1
    }
}

impl Default for SelectionState {
    fn default() -> (r: Self)
        ensures
            r.selected_index == 0,
            r.hovered is None,
    {
        SelectionState { selected_index: 0, hovered: None }
    }
}

impl SelectionState {
    /// Moves the selection one card to the left, stopping at the first card.
    pub fn move_left(&mut self)
        ensures
            final(self).selected_index == (if old(self).selected_index == 0 { 0 } else {
                old(self).selected_index - 1
            }),
            final(self).hovered == old(self).hovered,
    {
        self.selected_index = self.selected_index.saturating_sub(1);
    }

    /// Moves the selection one card to the right, stopping at the last of `len` cards.
    pub fn move_right(&mut self, len: usize)
        ensures
            final(self).selected_index == clamped_index(old(self).selected_index + 1, len as int),
            final(self).hovered == old(self).hovered,
    {
        if len == 0 {
            self.selected_index = 0;
        } else {
            let next = self.selected_index.saturating_add(1);
            self.selected_index = if next < len - 1 { next } else { len - 1 };
        }
    }

    /// Selects the first card and forgets the hovered one.
    pub fn reset(&mut self)
        ensures
            final(self).selected_index == 0,
            final(self).hovered is None,
    {
        self.selected_index = 0;
        self.hovered = None;
    }

    /// Pulls the selection back inside a deck of `len` cards.
    pub fn clamp(&mut self, len: usize)
        ensures
            final(self).selected_index == clamped_index(old(self).selected_index as int, len as int),
            final(self).hovered == old(self).hovered,
    {
        if len == 0 {
            self.selected_index = 0;
        } else {
            self.selected_index = if self.selected_index < len - 1 { self.selected_index } else { len - 1 };
        }
    }
}

/// A selection pulled inside a non-empty deck points at one of its cards,
/// and one already inside is left where it is.
pub proof fn lemma_clamped_in_deck(index: int, len: int)
    requires
        0 <= index,
        0 < len,
    ensures
        0 <= clamped_index(index, len) < len,
        index < len ==> clamped_index(index, len) == index,
{
}

} // verus!

//! The user's choice of colors for text, outlines and background boxes.

use vstd::prelude::*;

verus! {

/// Whether the style panel is open, and the palette chosen for each element.
#[derive(Debug, Clone, Copy)]
pub struct VisualTheme {
    pub style_panel_open: bool,
    pub text_palette: usize,
    pub outline_palette: usize,
    pub background_box_palette: usize,
}

/// How many text palettes there are.
pub const TEXT_PALETTES: usize = 5;

/// How many outline palettes there are.
pub const OUTLINE_PALETTES: usize = 9;

/// How many background box palettes there are.
pub const BACKGROUND_BOX_PALETTES: usize = 5;

impl Default for VisualTheme {
    fn default() -> (r: Self)
        ensures
            !r.style_panel_open,
            r.text_palette == 0,
            r.outline_palette == 0,
            r.background_box_palette == 0,
    {
        VisualTheme { style_panel_open: false, text_palette: 0, outline_palette: 0, background_box_palette: 0 }
    }
}

/// The name shown for a text palette.
pub open spec fn text_palette_label(p: usize) -> Seq<char> {
    if p == 0 {
        "MINT"@
    } else if p == 1 {
        "ICE"@
    } else if p == 2 {
        "LIME"@
    } else if p == 3 {
        "VIOLET"@
    } else {
        "WARM"@
    }
}

/// The name shown for an outline palette.
pub open spec fn outline_palette_label(p: usize) -> Seq<char> {
    if p == 0 {
        "NEON MINT"@
    } else if p == 1 {
        "CYAN"@
    } else if p == 2 {
        "GREEN"@
    } else if p == 3 {
        "LAVENDER"@
    } else if p == 4 {
        "AMBER"@
    } else if p == 5 {
        "RED"@
    } else if p == 6 {
        "ORANGE"@
    } else if p == 7 {
        "PURPLE"@
    } else {
        "BLUE"@
    }
}

/// The name shown for a background box palette.
pub open spec fn background_box_palette_label(p: usize) -> Seq<char> {
    if p == 0 {
        "GREEN"@
    } else if p == 1 {
        "TEAL"@
    } else if p == 2 {
        "JADE"@
    } else if p == 3 {
        "INDIGO"@
    } else {
        "COPPER"@
    }
}

impl VisualTheme {
    /// Moves to the next text palette, wrapping around after the last.
    pub fn cycle_text_palette(&mut self)
        requires
            old(self).text_palette < usize::MAX,
        ensures
            *final(self) == text_step(*old(self)),
            final(self).text_palette == (old(self).text_palette + 1) % (TEXT_PALETTES as int),
            final(self).outline_palette == old(self).outline_palette,
            final(self).background_box_palette == old(self).background_box_palette,
            final(self).style_panel_open == old(self).style_panel_open,
    {
        self.text_palette = (self.text_palette + 1) % TEXT_PALETTES;
    }

    /// Moves to the next outline palette, wrapping around after the last.
    pub fn cycle_outline_palette(&mut self)
        requires
            old(self).outline_palette < usize::MAX,
        ensures
            *final(self) == outline_step(*old(self)),
            final(self).outline_palette == (old(self).outline_palette + 1) % (OUTLINE_PALETTES as int),
            final(self).text_palette == old(self).text_palette,
            final(self).background_box_palette == old(self).background_box_palette,
            final(self).style_panel_open == old(self).style_panel_open,
    {
        self.outline_palette = (self.outline_palette + 1) % OUTLINE_PALETTES;
    }

    /// Moves to the next background box palette, wrapping around after the last.
    pub fn cycle_background_box_palette(&mut self)
        requires
            old(self).background_box_palette < usize::MAX,
        ensures
            *final(self) == background_box_step(*old(self)),
            final(self).background_box_palette == (old(self).background_box_palette + 1) % (
            BACKGROUND_BOX_PALETTES as int),
            final(self).text_palette == old(self).text_palette,
            final(self).outline_palette == old(self).outline_palette,
            final(self).style_panel_open == old(self).style_panel_open,
    {
        self.background_box_palette = (self.background_box_palette + 1) % BACKGROUND_BOX_PALETTES;
    }

    /// The name of the text palette in use.
    pub fn text_palette_name(&self) -> (r: &'static str)
        ensures
            r@ == text_palette_label(self.text_palette),
    {
        match self.text_palette {
            0 => "MINT",
            1 => "ICE",
            2 => "LIME",
            3 => "VIOLET",
            _ => "WARM",
        }
    }

    /// The name of the outline palette in use.
    pub fn outline_palette_name(&self) -> (r: &'static str)
        ensures
            r@ == outline_palette_label(self.outline_palette),
    {
        match self.outline_palette {
            0 => "NEON MINT",
            1 => "CYAN",
            2 => "GREEN",
            3 => "LAVENDER",
            4 => "AMBER",
            5 => "RED",
            6 => "ORANGE",
            7 => "PURPLE",
            _ => "BLUE",
        }
    }

    /// The name of the background box palette in use.
    pub fn background_box_palette_name(&self) -> (r: &'static str)
        ensures
            r@ == background_box_palette_label(self.background_box_palette),
    {
        match self.background_box_palette {
            0 => "GREEN",
            1 => "TEAL",
            2 => "JADE",
            3 => "INDIGO",
            _ => "COPPER",
        }
    }
}

/// The theme after one call of `cycle_text_palette`.
pub open spec fn text_step(t: VisualTheme) -> VisualTheme {
    VisualTheme { text_palette: ((t.text_palette + 1) % (TEXT_PALETTES as int)) as usize, ..t }
}

/// The theme after one call of `cycle_outline_palette`.
pub open spec fn outline_step(t: VisualTheme) -> VisualTheme {
    VisualTheme { outline_palette: ((t.outline_palette + 1) % (OUTLINE_PALETTES as int)) as usize, ..t }
}

/// The theme after one call of `cycle_background_box_palette`.
pub open spec fn background_box_step(t: VisualTheme) -> VisualTheme {
    VisualTheme {
        background_box_palette: ((t.background_box_palette + 1) % (BACKGROUND_BOX_PALETTES as int)) as usize,
        ..t
    }
}

/// The theme after `k` calls of `cycle_text_palette`.
pub open spec fn text_steps(t: VisualTheme, k: nat) -> VisualTheme
    decreases k,
{
    if k == 0 { t } else { text_step(text_steps(t, (k - 1) as nat)) }
}

/// The theme after `k` calls of `cycle_outline_palette`.
pub open spec fn outline_steps(t: VisualTheme, k: nat) -> VisualTheme
    decreases k,
{
    if k == 0 { t } else { outline_step(outline_steps(t, (k - 1) as nat)) }
}

/// The theme after `k` calls of `cycle_background_box_palette`.
pub open spec fn background_box_steps(t: VisualTheme, k: nat) -> VisualTheme
    decreases k,
{
    if k == 0 { t } else { background_box_step(background_box_steps(t, (k - 1) as nat)) }
}

/// Moving `k` places from `p` among `n` comes back to `p` exactly when `k`
/// is a multiple of `n`.
proof fn lemma_offset_returns(p: int, n: int, k: nat)
    requires
        0 <= p < n,
    ensures
        ((p + k) % n == p) <==> ((k as int) % n == 0),
{
    let r = (k as int) % n;
    vstd::arithmetic::div_mod::lemma_fundamental_div_mod(k as int, n);
    vstd::arithmetic::div_mod::lemma_mod_multiples_vanish(k as int / n, p + r, n);
    assert(p + k == n * (k as int / n) + (p + r));
    if p + r < n {
        vstd::arithmetic::div_mod::lemma_small_mod((p + r) as nat, n as nat);
    } else {
        vstd::arithmetic::div_mod::lemma_mod_add_multiples_vanish(p + r - n, n);
        vstd::arithmetic::div_mod::lemma_small_mod((p + r - n) as nat, n as nat);
    }
}

/// Distinct text palettes have distinct names.
pub proof fn lemma_text_labels_distinct(a: usize, b: usize)
    requires
        a < TEXT_PALETTES,
        b < TEXT_PALETTES,
        a != b,
    ensures
        text_palette_label(a) != text_palette_label(b),
{
    reveal_strlit("MINT");
    reveal_strlit("ICE");
    reveal_strlit("LIME");
    reveal_strlit("VIOLET");
    reveal_strlit("WARM");
    assert(text_palette_label(a).len() != text_palette_label(b).len() || text_palette_label(a)[0]
        != text_palette_label(b)[0]);
}

/// Distinct outline palettes have distinct names.
pub proof fn lemma_outline_labels_distinct(a: usize, b: usize)
    requires
        a < OUTLINE_PALETTES,
        b < OUTLINE_PALETTES,
        a != b,
    ensures
        outline_palette_label(a) != outline_palette_label(b),
{
    reveal_strlit("NEON MINT");
    reveal_strlit("CYAN");
    reveal_strlit("GREEN");
    reveal_strlit("LAVENDER");
    reveal_strlit("AMBER");
    reveal_strlit("RED");
    reveal_strlit("ORANGE");
    reveal_strlit("PURPLE");
    reveal_strlit("BLUE");
    assert(outline_palette_label(a).len() != outline_palette_label(b).len()
        || outline_palette_label(a)[0] != outline_palette_label(b)[0]);
}

/// Distinct background box palettes have distinct names.
pub proof fn lemma_background_box_labels_distinct(a: usize, b: usize)
    requires
        a < BACKGROUND_BOX_PALETTES,
        b < BACKGROUND_BOX_PALETTES,
        a != b,
    ensures
        background_box_palette_label(a) != background_box_palette_label(b),
{
    reveal_strlit("GREEN");
    reveal_strlit("TEAL");
    reveal_strlit("JADE");
    reveal_strlit("INDIGO");
    reveal_strlit("COPPER");
    assert(background_box_palette_label(a).len() != background_box_palette_label(b).len()
        || background_box_palette_label(a)[0] != background_box_palette_label(b)[0]);
}

/// `k` calls of `cycle_outline_palette` move the outline palette `k` places
/// round the nine palettes and change nothing else; the theme is back where
/// it started exactly when `k` is a multiple of nine, and the nine palettes
/// met on the way have nine distinct names.
pub proof fn lemma_outline_cycle(t: VisualTheme, k: nat)
    requires
        t.outline_palette < OUTLINE_PALETTES,
    ensures
        outline_steps(t, k) == (VisualTheme {
            outline_palette: ((t.outline_palette + k) % (OUTLINE_PALETTES as int)) as usize,
            ..t
        }),
        (outline_steps(t, k) == t) <==> (k % (OUTLINE_PALETTES as nat) == 0),
        forall|i: nat, j: nat|
            i < j < OUTLINE_PALETTES ==> outline_palette_label(#[trigger] outline_steps(t, i).outline_palette)
                != outline_palette_label(#[trigger] outline_steps(t, j).outline_palette),
{
    lemma_outline_steps(t, k);
    lemma_offset_returns(t.outline_palette as int, OUTLINE_PALETTES as int, k);
    assert forall|i: nat, j: nat| i < j < OUTLINE_PALETTES implies outline_palette_label(
        #[trigger] outline_steps(t, i).outline_palette,
    ) != outline_palette_label(#[trigger] outline_steps(t, j).outline_palette) by {
        lemma_outline_steps(t, i);
        lemma_outline_steps(t, j);
        lemma_offsets_differ(t.outline_palette as int, OUTLINE_PALETTES as int, i, j);
        lemma_outline_labels_distinct(outline_steps(t, i).outline_palette, outline_steps(t, j).outline_palette);
    }
}

/// `k` calls of `cycle_text_palette` move the text palette `k` places round
/// the five palettes and change nothing else; the theme is back where it
/// started exactly when `k` is a multiple of five, and the five palettes met
/// on the way have five distinct names.
pub proof fn lemma_text_cycle(t: VisualTheme, k: nat)
    requires
        t.text_palette < TEXT_PALETTES,
    ensures
        text_steps(t, k) == (VisualTheme {
            text_palette: ((t.text_palette + k) % (TEXT_PALETTES as int)) as usize,
            ..t
        }),
        (text_steps(t, k) == t) <==> (k % (TEXT_PALETTES as nat) == 0),
        forall|i: nat, j: nat|
            i < j < TEXT_PALETTES ==> text_palette_label(#[trigger] text_steps(t, i).text_palette)
                != text_palette_label(#[trigger] text_steps(t, j).text_palette),
{
    lemma_text_steps(t, k);
    lemma_offset_returns(t.text_palette as int, TEXT_PALETTES as int, k);
    assert forall|i: nat, j: nat| i < j < TEXT_PALETTES implies text_palette_label(
        #[trigger] text_steps(t, i).text_palette,
    ) != text_palette_label(#[trigger] text_steps(t, j).text_palette) by {
        lemma_text_steps(t, i);
        lemma_text_steps(t, j);
        lemma_offsets_differ(t.text_palette as int, TEXT_PALETTES as int, i, j);
        lemma_text_labels_distinct(text_steps(t, i).text_palette, text_steps(t, j).text_palette);
    }
}

/// `k` calls of `cycle_background_box_palette` move the background box
/// palette `k` places round the five palettes and change nothing else; the
/// theme is back where it started exactly when `k` is a multiple of five,
/// and the five palettes met on the way have five distinct names.
pub proof fn lemma_background_box_cycle(t: VisualTheme, k: nat)
    requires
        t.background_box_palette < BACKGROUND_BOX_PALETTES,
    ensures
        background_box_steps(t, k) == (VisualTheme {
            background_box_palette: ((t.background_box_palette + k) % (BACKGROUND_BOX_PALETTES as int)) as usize,
            ..t
        }),
        (background_box_steps(t, k) == t) <==> (k % (BACKGROUND_BOX_PALETTES as nat) == 0),
        forall|i: nat, j: nat|
            i < j < BACKGROUND_BOX_PALETTES ==> background_box_palette_label(
                #[trigger] background_box_steps(t, i).background_box_palette,
            ) != background_box_palette_label(#[trigger] background_box_steps(t, j).background_box_palette),
{
    lemma_background_box_steps(t, k);
    lemma_offset_returns(t.background_box_palette as int, BACKGROUND_BOX_PALETTES as int, k);
    assert forall|i: nat, j: nat| i < j < BACKGROUND_BOX_PALETTES implies background_box_palette_label(
        #[trigger] background_box_steps(t, i).background_box_palette,
    ) != background_box_palette_label(#[trigger] background_box_steps(t, j).background_box_palette) by {
        lemma_background_box_steps(t, i);
        lemma_background_box_steps(t, j);
        lemma_offsets_differ(t.background_box_palette as int, BACKGROUND_BOX_PALETTES as int, i, j);
        lemma_background_box_labels_distinct(
            background_box_steps(t, i).background_box_palette,
            background_box_steps(t, j).background_box_palette,
        );
    }
}

/// Fewer than `n` distinct steps from `p` reach distinct places.
proof fn lemma_offsets_differ(p: int, n: int, i: nat, j: nat)
    requires
        0 <= p < n,
        i < j < n,
    ensures
        (p + i) % n != (p + j) % n,
        0 <= (p + i) % n < n,
        0 <= (p + j) % n < n,
{
    let a = (p + i) % n;
    let b = (p + j) % n;
    vstd::arithmetic::div_mod::lemma_fundamental_div_mod(p + i, n);
    vstd::arithmetic::div_mod::lemma_fundamental_div_mod(p + j, n);
    vstd::arithmetic::div_mod::lemma_mod_bound(p + i, n);
    vstd::arithmetic::div_mod::lemma_mod_bound(p + j, n);
    if a == b {
        // then n divides j - i, which lies strictly between 0 and n
        assert(j - i == n * ((p + j) / n - (p + i) / n)) by (nonlinear_arith)
            requires
                p + i == n * ((p + i) / n) + a,
                p + j == n * ((p + j) / n) + b,
                a == b,
        ;
        let d = (p + j) / n - (p + i) / n;
        assert(false) by (nonlinear_arith)
            requires
                j - i == n * d,
                0 < j - i < n,
        ;
    }
}

proof fn lemma_text_steps(t: VisualTheme, k: nat)
    requires
        t.text_palette < TEXT_PALETTES,
    ensures
        text_steps(t, k) == (VisualTheme {
            text_palette: cycled(t.text_palette as int, TEXT_PALETTES as int, k) as usize,
            ..t
        }),
        text_steps(t, k).text_palette == (t.text_palette + k) % (TEXT_PALETTES as int),
    decreases k,
{
    if k > 0 {
        lemma_text_steps(t, (k - 1) as nat);
    }
    lemma_cycled_offset(t.text_palette as int, TEXT_PALETTES as int, k);
}

proof fn lemma_outline_steps(t: VisualTheme, k: nat)
    requires
        t.outline_palette < OUTLINE_PALETTES,
    ensures
        outline_steps(t, k) == (VisualTheme {
            outline_palette: cycled(t.outline_palette as int, OUTLINE_PALETTES as int, k) as usize,
            ..t
        }),
        outline_steps(t, k).outline_palette == (t.outline_palette + k) % (OUTLINE_PALETTES as int),
    decreases k,
{
    if k > 0 {
        lemma_outline_steps(t, (k - 1) as nat);
    }
    lemma_cycled_offset(t.outline_palette as int, OUTLINE_PALETTES as int, k);
}

proof fn lemma_background_box_steps(t: VisualTheme, k: nat)
    requires
        t.background_box_palette < BACKGROUND_BOX_PALETTES,
    ensures
        background_box_steps(t, k) == (VisualTheme {
            background_box_palette: cycled(t.background_box_palette as int, BACKGROUND_BOX_PALETTES as int, k)
                as usize,
            ..t
        }),
        background_box_steps(t, k).background_box_palette == (t.background_box_palette + k) % (
        BACKGROUND_BOX_PALETTES as int),
    decreases k,
{
    if k > 0 {
        lemma_background_box_steps(t, (k - 1) as nat);
    }
    lemma_cycled_offset(t.background_box_palette as int, BACKGROUND_BOX_PALETTES as int, k);
}

/// The palette reached from `p` after `k` steps through `n` palettes.
pub open spec fn cycled(p: int, n: int, k: nat) -> int
    decreases k,
{
    if k == 0 {
        p
    } else {
        (cycled(p, n, (k - 1) as nat) + 1) % n
    }
}

/// `k` steps from `p` land `k` places further, modulo `n`.
proof fn lemma_cycled_offset(p: int, n: int, k: nat)
    requires
        0 <= p < n,
        n > 0,
    ensures
        cycled(p, n, k) == (p + k) % n,
    decreases k,
{
    if k > 0 {
        lemma_cycled_offset(p, n, (k - 1) as nat);
        let a = p + k - 1;
        assert(((a % n) + 1) % n == (a + 1) % n) by {
            vstd::arithmetic::div_mod::lemma_fundamental_div_mod(a, n);
            vstd::arithmetic::div_mod::lemma_mod_multiples_vanish(a / n, (a % n) + 1, n);
        }
    } else {
        vstd::arithmetic::div_mod::lemma_small_mod(p as nat, n as nat);
    }
}

} // verus!

//! Texts and decisions shown around the deck: the inspector line, mode hints,
//! card labels and glyphs, card categories and the visible window of cards.

use vstd::prelude::*;

use crate::entries::{EntryKind, FsEntry};
use crate::search::{entry_matches, search_text};
use crate::strings::{
    ascii_lower, ascii_upper, chars_of, contains_chars, decimal, lowercase_chars, occurs_in,
    push_bool, push_decimal, push_str, string_from_chars, to_ascii_lower,
    to_ascii_upper, trimmed, unicode_lowercase, unicode_trim,
};

verus! {

/// What the user is doing: browsing, searching, renaming or confirming a deletion.
#[derive(Debug, Clone, Copy, PartialEq, Eq, Structural)]
pub enum UiMode {
    Normal,
    Search,
    Rename,
    DeleteConfirm,
}

/// The word for an entry's kind in the inspector.
pub open spec fn kind_label(k: EntryKind) -> Seq<char> {
    match k {
        EntryKind::File => "file"@,
        EntryKind::Directory => "directory"@,
        EntryKind::Symlink => "symlink"@,
        EntryKind::Other => "other"@,
    }
}

/// The modification time in whole seconds since the Unix epoch, or
/// `unknown` when there is none or it lies before the epoch.
pub open spec fn modified_label(m: Option<i128>) -> Seq<char> {
    match m {
        Some(n) => if n >= 0 {
            decimal((n / 1_000_000_000) as nat)
        } else {
            "unknown"@
        },
        None => "unknown"@,
    }
}

/// The extension, or `-` when there is none.
pub open spec fn extension_label(e: Option<String>) -> Seq<char> {
    match e {
        Some(x) => x@,
        None => "-"@,
    }
}

/// The inspector line for the selected entry, if any.
pub open spec fn summary_text(entry: Option<FsEntry>) -> Seq<char> {
    match entry {
        None => "No selection"@,
        Some(e) => e.name@ + " | kind="@ + kind_label(e.kind) + " | ext="@ + extension_label(
            e.extension,
        ) + " | size="@ + decimal(e.size as nat) + " bytes | modified="@ + modified_label(
            e.modified,
        ) + " | hidden="@ + (if e.hidden {
            "true"@
        } else {
            "false"@
        }),
    }
}

/// Describes the selected entry: name, kind, extension, size, modification
/// time and whether it is hidden.
pub fn selected_entry_summary(entry: Option<&FsEntry>) -> (r: String)
    ensures
        r@ == summary_text(
            match entry {
                Some(e) => Some(*e),
                None => None,
            },
        ),
{
    let e = match entry {
        Some(e) => e,
        None => return "No selection".to_string(),
    };
    let mut out = chars_of(e.name.as_str());
    push_str(&mut out, " | kind=");
    let kind = match e.kind {
        EntryKind::File => "file",
        EntryKind::Directory => "directory",
        EntryKind::Symlink => "symlink",
        EntryKind::Other => "other",
    };
    push_str(&mut out, kind);
    push_str(&mut out, " | ext=");
    match &e.extension {
        Some(x) => push_str(&mut out, x.as_str()),
        None => push_str(&mut out, "-"),
    }
    push_str(&mut out, " | size=");
    push_decimal(&mut out, e.size as u128);
    push_str(&mut out, " bytes | modified=");
    match e.modified {
        Some(n) => {
            if n >= 0 {
                let secs: i128 = n / 1_000_000_000;
                push_decimal(&mut out, secs as u128);
            } else {
                push_str(&mut out, "unknown");
            }
        },
        None => push_str(&mut out, "unknown"),
    }
    push_str(&mut out, " | hidden=");
    push_bool(&mut out, e.hidden);
    string_from_chars(&out)
}

/// The key help shown for each mode.
pub open spec fn mode_hint_text(mode: UiMode) -> Seq<char> {
    match mode {
        UiMode::Normal => "Left/Right move | Enter open | Backspace up | Alt+Left/Right history | Ctrl+F search | Ctrl+N new folder | F2 rename | Delete request | 1/2/3/4 sort | Mouse wheel move | Top-left style button (click) | F8 panel | F9 text | F10 outline | F11 bg boxes"@,
        UiMode::Search => "Search mode | Esc cancel | Left/Right move | Enter open"@,
        UiMode::Rename => "Rename mode | Ctrl+R confirm rename | Esc cancel"@,
        UiMode::DeleteConfirm => "Delete mode | Ctrl+D confirm delete | Esc cancel"@,
    }
}

/// The key help for `mode`.
pub fn mode_hint(mode: UiMode) -> (r: &'static str)
    ensures
        r@ == mode_hint_text(mode),
{
    match mode {
        UiMode::Normal => "Left/Right move | Enter open | Backspace up | Alt+Left/Right history | Ctrl+F search | Ctrl+N new folder | F2 rename | Delete request | 1/2/3/4 sort | Mouse wheel move | Top-left style button (click) | F8 panel | F9 text | F10 outline | F11 bg boxes",
        UiMode::Search => "Search mode | Esc cancel | Left/Right move | Enter open",
        UiMode::Rename => "Rename mode | Ctrl+R confirm rename | Esc cancel",
        UiMode::DeleteConfirm => "Delete mode | Ctrl+D confirm delete | Esc cancel",
    }
}

/// The mode line drawn at the bottom of the window.
pub open spec fn overlay_mode_text(mode: UiMode) -> Seq<char> {
    match mode {
        UiMode::Normal => "MODE NORMAL"@,
        UiMode::Search => "MODE SEARCH CTRL+F TO ENTER ESC TO EXIT"@,
        UiMode::Rename => "MODE RENAME CTRL+R CONFIRM ESC CANCEL"@,
        UiMode::DeleteConfirm => "MODE DELETE CTRL+D CONFIRM ESC CANCEL"@,
    }
}

/// The mode line for `mode`.
pub fn overlay_mode_line(mode: UiMode) -> (r: &'static str)
    ensures
        r@ == overlay_mode_text(mode),
{
    match mode {
        UiMode::Normal => "MODE NORMAL",
        UiMode::Search => "MODE SEARCH CTRL+F TO ENTER ESC TO EXIT",
        UiMode::Rename => "MODE RENAME CTRL+R CONFIRM ESC CANCEL",
        UiMode::DeleteConfirm => "MODE DELETE CTRL+D CONFIRM ESC CANCEL",
    }
}

/// The label naming the selected entry at the top of the window: its name
/// as the card font shows it, at most 28 characters, or `NONE`.
pub open spec fn selected_label_text(entry: Option<FsEntry>) -> Seq<char> {
    "SELECTED > "@ + match entry {
        Some(e) => sanitized(e.name@, 28),
        None => "NONE"@,
    }
}

/// The label naming the selected entry.
pub fn selected_label(entry: Option<&FsEntry>) -> (r: String)
    ensures
        r@ == selected_label_text(
            match entry {
                Some(e) => Some(*e),
                None => None,
            },
        ),
{
    let mut text = chars_of("SELECTED > ");
    match entry {
        Some(e) => {
            let name = sanitize(e.name.as_str(), 28);
            push_str(&mut text, name.as_str());
        },
        None => push_str(&mut text, "NONE"),
    }
    string_from_chars(&text)
}

/// Whether the card font can draw `c` (already uppercased): ASCII letters
/// and digits and a few signs.
pub open spec fn drawable(c: char) -> bool {
    ||| ('A' <= c && c <= 'Z')
    ||| ('a' <= c && c <= 'z')
    ||| ('0' <= c && c <= '9')
    ||| c == ' ' || c == '>' || c == '-' || c == '_' || c == '.' || c == ':'
    ||| c == '/' || c == '\\' || c == '[' || c == ']' || c == '(' || c == ')'
    ||| c == '+' || c == '='
}

/// A character as the card font shows it: uppercased, or a space when the
/// font cannot draw it.
pub open spec fn label_char(c: char) -> char {
    if drawable(ascii_upper(c)) {
        ascii_upper(c)
    } else {
        ' '
    }
}

/// The first `max` characters of `raw`, each as the card font shows it.
pub open spec fn sanitized(raw: Seq<char>, max: nat) -> Seq<char> {
    raw.take(if raw.len() < max { raw.len() as int } else { max as int }).map_values(
        |c: char| label_char(c),
    )
}

/// Whether the card font can draw `c`.
fn is_drawable(c: char) -> (r: bool)
    ensures
        r == drawable(c),
{
    ('A' <= c && c <= 'Z') || ('a' <= c && c <= 'z') || ('0' <= c && c <= '9') || c == ' '
        || c == '>' || c == '-' || c == '_' || c == '.' || c == ':' || c == '/' || c == '\\'
        || c == '[' || c == ']' || c == '(' || c == ')' || c == '+' || c == '='
}

/// Makes a label drawable by the card font: uppercase, unknown characters
/// blanked, at most `max` characters.
pub fn sanitize(raw: &str, max: usize) -> (r: String)
    ensures
        r@ == sanitized(raw@, max as nat),
{
    let chars = chars_of(raw);
    let n = if chars.len() < max { chars.len() } else { max };
    let mut out: Vec<char> = Vec::new();
    let mut i: usize = 0;
    while i < n
        invariant
            n <= chars.len(),
            chars@ == raw@,
            n == (if raw@.len() < max { raw@.len() } else { max as nat }),
            i <= n,
            out@ == raw@.take(i as int).map_values(|c: char| label_char(c)),
        decreases n - i,
    {
        let up = to_ascii_upper(chars[i]);
        let shown = if is_drawable(up) { up } else { ' ' };
        proof {
            assert(raw@.take(i + 1) =~= raw@.take(i as int).push(raw@[i as int]));
        }
        out.push(shown);
        assert(out@ =~= raw@.take(i + 1).map_values(|c: char| label_char(c)));
        i = i + 1;
    }
    string_from_chars(&out)
}

/// The 3x5 bitmap of a character in the card font, rows top to bottom,
/// three bits per row with the leftmost column highest. Characters the font
/// lacks are blank.
pub open spec fn glyph_bits(c: char) -> u16 {
    match c {
        'A' => 0b010101111101101,
        'B' => 0b110101110101110,
        'C' => 0b011100100100011,
        'D' => 0b110101101101110,
        'E' => 0b111100110100111,
        'F' => 0b111100110100100,
        'G' => 0b011100101101011,
        'H' => 0b101101111101101,
        'I' => 0b111010010010111,
        'J' => 0b001001001101010,
        'K' => 0b101101110101101,
        'L' => 0b100100100100111,
        'M' => 0b101111101101101,
        'N' => 0b101111111111101,
        'O' => 0b010101101101010,
        'P' => 0b110101110100100,
        'Q' => 0b010101101111011,
        'R' => 0b110101110110101,
        'S' => 0b011100010001110,
        'T' => 0b111010010010010,
        'U' => 0b101101101101111,
        'V' => 0b101101101101010,
        'W' => 0b101101111111101,
        'X' => 0b101101010101101,
        'Y' => 0b101101010010010,
        'Z' => 0b111001010100111,
        '0' => 0b111101101101111,
        '1' => 0b010110010010111,
        '2' => 0b111001111100111,
        '3' => 0b111001111001111,
        '4' => 0b101101111001001,
        '5' => 0b111100111001111,
        '6' => 0b111100111101111,
        '7' => 0b111001001001001,
        '8' => 0b111101111101111,
        '9' => 0b111101111001111,
        '>' => 0b100010001010100,
        '-' => 0b000000111000000,
        '_' => 0b000000000000111,
        ':' => 0b000010000010000,
        '.' => 0b000000000000010,
        '/' => 0b001001010100100,
        '\\' => 0b100100010001001,
        '[' => 0b011010010010011,
        ']' => 0b110010010010110,
        '+' => 0b000010111010000,
        '=' => 0b000111000111000,
        '(' => 0b001010010010001,
        ')' => 0b100010010010100,
        _ => 0,
    }
}

/// The 3x5 bitmap of `c` in the card font.
pub fn glyph_3x5(c: char) -> (r: u16)
    ensures
        r == glyph_bits(c),
{
    match c {
        'A' => 0b010101111101101,
        'B' => 0b110101110101110,
        'C' => 0b011100100100011,
        'D' => 0b110101101101110,
        'E' => 0b111100110100111,
        'F' => 0b111100110100100,
        'G' => 0b011100101101011,
        'H' => 0b101101111101101,
        'I' => 0b111010010010111,
        'J' => 0b001001001101010,
        'K' => 0b101101110101101,
        'L' => 0b100100100100111,
        'M' => 0b101111101101101,
        'N' => 0b101111111111101,
        'O' => 0b010101101101010,
        'P' => 0b110101110100100,
        'Q' => 0b010101101111011,
        'R' => 0b110101110110101,
        'S' => 0b011100010001110,
        'T' => 0b111010010010010,
        'U' => 0b101101101101111,
        'V' => 0b101101101101010,
        'W' => 0b101101111111101,
        'X' => 0b101101010101101,
        'Y' => 0b101101010010010,
        'Z' => 0b111001010100111,
        '0' => 0b111101101101111,
        '1' => 0b010110010010111,
        '2' => 0b111001111100111,
        '3' => 0b111001111001111,
        '4' => 0b101101111001001,
        '5' => 0b111100111001111,
        '6' => 0b111100111101111,
        '7' => 0b111001001001001,
        '8' => 0b111101111101111,
        '9' => 0b111101111001111,
        '>' => 0b100010001010100,
        '-' => 0b000000111000000,
        '_' => 0b000000000000111,
        ':' => 0b000010000010000,
        '.' => 0b000000000000010,
        '/' => 0b001001010100100,
        '\\' => 0b100100010001001,
        '[' => 0b011010010010011,
        ']' => 0b110010010010110,
        '+' => 0b000010111010000,
        '=' => 0b000111000111000,
        '(' => 0b001010010010001,
        ')' => 0b100010010010100,
        _ => 0,
    }
}

/// How a card is drawn, by what its entry is.
#[derive(Debug, Clone, Copy, PartialEq, Eq, Structural)]
pub enum CardCategory {
    Folder,
    File,
    Executable,
    Symlink,
    Other,
}

/// Whether an extension, lowercased in ASCII, marks a program or shortcut.
pub open spec fn executable_extension(ext: Seq<char>) -> bool {
    let e = ext.map_values(|c: char| ascii_lower(c));
    e == "exe"@ || e == "bat"@ || e == "cmd"@ || e == "com"@ || e == "msi"@ || e == "lnk"@
}

/// The card category of an entry: directories are folders, files with a
/// program extension are executables.
pub open spec fn category_of(e: FsEntry) -> CardCategory {
    match e.kind {
        EntryKind::Directory => CardCategory::Folder,
        EntryKind::Symlink => CardCategory::Symlink,
        EntryKind::File => if executable_extension(
            match e.extension {
                Some(x) => x@,
                None => Seq::empty(),
            },
        ) {
            CardCategory::Executable
        } else {
            CardCategory::File
        },
        EntryKind::Other => CardCategory::Other,
    }
}

/// Whether `a` holds exactly the characters of `b`.
fn same_chars(a: &Vec<char>, b: &str) -> (r: bool)
    ensures
        r == (a@ == b@),
{
    let bv = chars_of(b);
    if a.len() != bv.len() {
        return false;
    }
    let mut i: usize = 0;
    while i < a.len()
        invariant
            a.len() == bv.len(),
            bv@ == b@,
            i <= a.len(),
            forall|k: int| 0 <= k < i ==> a@[k] == bv@[k],
        decreases a.len() - i,
    {
        if a[i] != bv[i] {
            return false;
        }
        i = i + 1;
    }
    assert(a@ =~= bv@);
    true
}

/// The card category of `entry`.
pub fn classify_entry(entry: &FsEntry) -> (r: CardCategory)
    ensures
        r == category_of(*entry),
{
    match entry.kind {
        EntryKind::Directory => CardCategory::Folder,
        EntryKind::Symlink => CardCategory::Symlink,
        EntryKind::Other => CardCategory::Other,
        EntryKind::File => {
            let raw = match &entry.extension {
                Some(x) => chars_of(x.as_str()),
                None => Vec::new(),
            };
            let mut ext: Vec<char> = Vec::new();
            let mut i: usize = 0;
            while i < raw.len()
                invariant
                    i <= raw.len(),
                    ext@ == raw@.take(i as int).map_values(|c: char| ascii_lower(c)),
                decreases raw.len() - i,
            {
                ext.push(to_ascii_lower(raw[i]));
                assert(raw@.take(i + 1) =~= raw@.take(i as int).push(raw@[i as int]));
                assert(ext@ =~= raw@.take(i + 1).map_values(|c: char| ascii_lower(c)));
                i = i + 1;
            }
            assert(raw@.take(raw.len() as int) =~= raw@);
            let exe = same_chars(&ext, "exe") || same_chars(&ext, "bat") || same_chars(&ext, "cmd")
                || same_chars(&ext, "com") || same_chars(&ext, "msi") || same_chars(&ext, "lnk");
            if exe {
                CardCategory::Executable
            } else {
                CardCategory::File
            }
        },
    }
}

/// Whether a card's label is dimmed for the search `query`: the trimmed
/// query is not empty and does not occur in the lowercased name.
pub open spec fn label_dimmed(name: Seq<char>, query: Seq<char>) -> bool {
    unicode_trim(query).len() > 0 && !occurs_in(
        unicode_lowercase(unicode_trim(query)),
        unicode_lowercase(name),
    )
}

/// Whether the card named `name` is dimmed while searching for `query`.
pub fn card_dimmed(name: &str, query: &str) -> (r: bool)
    ensures
        r == label_dimmed(name@, query@),
{
    let q = trimmed(query);
    let qc = chars_of(q);
    if qc.len() == 0 {
        return false;
    }
    let lowered_query = lowercase_chars(q);
    let lowered_name = lowercase_chars(name);
    !contains_chars(&lowered_name, &lowered_query)
}

/// The cards of a deck of `len` entries that are shown around the selected
/// one: the selection pulled inside the deck, then up to half of
/// `max_visible` cards on each side of it, as `(selected, start, end)`
/// with `start..end` the shown indices.
pub open spec fn deck_window(len: int, selected: int, max_visible: int) -> (int, int, int) {
    let sel = if selected < len - 1 { selected } else { len - 1 };
    let half = max_visible / 2;
    let start = if sel < half { 0 } else { sel - half };
    let end = if sel + half + 1 < len { sel + half + 1 } else { len };
    (sel, start, end)
}

/// The selected index and the range of shown indices of a deck of `len`
/// entries.
pub fn visible_window(len: usize, selected_index: usize, max_visible: usize) -> (r: (usize, usize, usize))
    requires
        len > 0,
        deck_window(len as int, selected_index as int, max_visible as int).0 + max_visible / 2 + 1
            <= usize::MAX,
    ensures
        (r.0 as int, r.1 as int, r.2 as int) == deck_window(len as int, selected_index as int, max_visible as int),
        r.1 <= r.0 < r.2 <= len,
{
    let sel = if selected_index < len - 1 { selected_index } else { len - 1 };
    let half = max_visible / 2;
    let start = sel.saturating_sub(half);
    let reach = sel + half + 1;
    let end = if reach < len { reach } else { len };
    (sel, start, end)
}


/// A sanitized label keeps the first `max` characters of the raw text, one
/// for one: each is drawable by the card font and never a lowercase letter;
/// it is the raw character uppercased or a blank; ASCII capitals and digits
/// stay as they are and lowercase ASCII letters become their capitals.
pub proof fn lemma_sanitize_shape(raw: Seq<char>, max: nat)
    ensures
        sanitized(raw, max).len() == (if raw.len() < max { raw.len() } else { max }),
        forall|i: int|
            0 <= i < sanitized(raw, max).len() ==> {
                let c = #[trigger] sanitized(raw, max)[i];
                &&& drawable(c)
                &&& !('a' <= c && c <= 'z')
                &&& (c == ' ' || c == ascii_upper(raw[i]))
                &&& ('A' <= raw[i] && raw[i] <= 'Z') || ('0' <= raw[i] && raw[i] <= '9') ==> c
                    == raw[i]
                &&& ('a' <= raw[i] && raw[i] <= 'z') ==> c as u32 + 32 == raw[i] as u32
            },
{
    let out = sanitized(raw, max);
    assert forall|i: int| 0 <= i < out.len() implies {
        let c = #[trigger] out[i];
        &&& drawable(c)
        &&& !('a' <= c && c <= 'z')
        &&& (c == ' ' || c == ascii_upper(raw[i]))
        &&& ('A' <= raw[i] && raw[i] <= 'Z') || ('0' <= raw[i] && raw[i] <= '9') ==> c == raw[i]
        &&& ('a' <= raw[i] && raw[i] <= 'z') ==> c as u32 + 32 == raw[i] as u32
    } by {
        let r = raw[i];
        assert(out[i] == label_char(r));
        if 'a' <= r && r <= 'z' {
            assert('A' <= ascii_upper(r) && ascii_upper(r) <= 'Z');
        }
    }
}

/// The window of shown cards holds the selection, pulled inside the deck,
/// and lies inside the deck: at most half of `max_visible` cards on each
/// side of it, as many as the deck has up to that half, so never more than
/// `max_visible + 1` cards.
pub proof fn lemma_deck_window_shape(len: int, selected: int, max_visible: int)
    requires
        len > 0,
        selected >= 0,
        max_visible >= 0,
    ensures
        ({
            let (sel, start, end) = deck_window(len, selected, max_visible);
            let half = max_visible / 2;
            &&& sel == (if selected < len { selected } else { len - 1 })
            &&& 0 <= start <= sel < end <= len
            &&& sel - start == (if sel < half { sel } else { half })
            &&& end - 1 - sel == (if len - 1 - sel < half { len - 1 - sel } else { half })
            &&& end - start <= max_visible + 1
        }),
{
}

/// Dimming agrees with the search filter: without a query nothing is
/// dimmed; a dimmed card's name does not hold the query; and a card that
/// is not dimmed under a query is one the filter keeps.
pub proof fn lemma_dimming_agrees_with_filter(e: FsEntry, query: Seq<char>)
    ensures
        unicode_trim(query).len() == 0 ==> !label_dimmed(e.name@, query),
        label_dimmed(e.name@, query) ==> !occurs_in(search_text(query), unicode_lowercase(e.name@)),
        !label_dimmed(e.name@, query) && unicode_trim(query).len() > 0 ==> entry_matches(
            e,
            search_text(query),
        ),
        occurs_in(search_text(query), unicode_lowercase(e.name@)) ==> !label_dimmed(e.name@, query),
{
}

/// A card's category follows its kind first: every directory is a folder
/// and every symlink a symlink, whatever its extension; a file is an
/// executable for a program extension in any letter case and a plain file
/// without an extension or with another one.
pub proof fn lemma_category_by_kind(e: FsEntry)
    ensures
        e.kind == EntryKind::Directory ==> category_of(e) == CardCategory::Folder,
        e.kind == EntryKind::Symlink ==> category_of(e) == CardCategory::Symlink,
        e.kind == EntryKind::Other ==> category_of(e) == CardCategory::Other,
        e.kind == EntryKind::File && e.extension is None ==> category_of(e) == CardCategory::File,
        e.kind == EntryKind::File ==> (e.extension matches Some(x) && (x@ == seq!['e', 'x', 'e']
            || x@ == seq!['E', 'X', 'E'] || x@ == seq!['L', 'n', 'K']) ==> category_of(e)
            == CardCategory::Executable),
        e.kind == EntryKind::File ==> (e.extension matches Some(x) && x@ == seq!['t', 'x', 't']
            ==> category_of(e) == CardCategory::File),
{
    reveal_strlit("exe");
    reveal_strlit("bat");
    reveal_strlit("cmd");
    reveal_strlit("com");
    reveal_strlit("msi");
    reveal_strlit("lnk");
    if e.kind == EntryKind::File {
        match e.extension {
            Some(x) => {
                let low = x@.map_values(|c: char| ascii_lower(c));
                if x@ == seq!['e', 'x', 'e'] || x@ == seq!['E', 'X', 'E'] {
                    assert(low =~= "exe"@);
                } else if x@ == seq!['L', 'n', 'K'] {
                    assert(low =~= "lnk"@);
                } else if x@ == seq!['t', 'x', 't'] {
                    assert(low[0] == 't');
                    assert(low != "exe"@ && low != "bat"@ && low != "cmd"@);
                    assert(low != "com"@ && low != "msi"@ && low != "lnk"@);
                }
            },
            None => {
                let low = Seq::<char>::empty().map_values(|c: char| ascii_lower(c));
                assert(low.len() == 0);
            },
        }
    }
}

} // verus!

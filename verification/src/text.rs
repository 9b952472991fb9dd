//! Text primitives: display length, substring tests, case folding and the
//! editing of an input buffer, all stated over sequences of characters.
use vstd::prelude::*;
use vstd::string::StringExecFns;

verus! {

/// `needle` occurs in `hay` starting at position `at`.
pub open spec fn occurs_at(hay: Seq<char>, needle: Seq<char>, at: int) -> bool {
    &&& 0 <= at
    &&& at + needle.len() <= hay.len()
    &&& hay.subrange(at, at + needle.len()) == needle
}

/// `needle` occurs somewhere in `hay` as a contiguous run of characters.
pub open spec fn contains_text(hay: Seq<char>, needle: Seq<char>) -> bool {
    exists|at: int| occurs_at(hay, needle, at)
}

/// The lowercase form of a text, as the Unicode tables of the standard
/// library give it.
pub uninterp spec fn lowercase(text: Seq<char>) -> Seq<char>;

/// `cell` contains `query` when both are compared in lowercase.
pub open spec fn matches_folded(cell: Seq<char>, query: Seq<char>) -> bool {
    contains_text(lowercase(cell), lowercase(query))
}

/// A nullable cell contains `query`, compared in lowercase; a null cell
/// contains nothing.
pub open spec fn cell_matches(cell: Option<Seq<char>>, query: Seq<char>) -> bool {
    match cell {
        Some(text) => matches_folded(text, query),
        None => false,
    }
}

/// The character view of a nullable cell.
pub open spec fn cell_text(cell: Option<String>) -> Option<Seq<char>> {
    match cell {
        Some(text) => Some(text@),
        None => None,
    }
}

/// The character view of a column of nullable cells.
pub open spec fn column_view(cells: Seq<Option<String>>) -> Seq<Option<Seq<char>>> {
    Seq::new(cells.len(), |i: int| cell_text(cells[i]))
}

/// The character views of a list of texts.
pub open spec fn texts_view(texts: Seq<String>) -> Seq<Seq<char>> {
    Seq::new(texts.len(), |i: int| texts[i]@)
}

/// Calls `str::to_lowercase`. The result is the named lowercase form of the
/// argument; nothing else is claimed of it.
#[verifier::external_body]
pub(crate) fn to_lowercase(text: &str) -> (lower: String)
    ensures
        lower@ == lowercase(text@),
{
    text.to_lowercase()
}

/// Calls `str::contains` with a string pattern: true exactly when the
/// pattern occurs as a contiguous run of characters of `hay`.
#[verifier::external_body]
pub(crate) fn str_contains(hay: &str, needle: &str) -> (found: bool)
    ensures
        found == contains_text(hay@, needle@),
{
    hay.contains(needle)
}

/// Calls `String::push`: appends one character.
#[verifier::external_body]
pub(crate) fn push_char(text: &mut String, c: char)
    ensures
        final(text)@ == old(text)@.push(c),
{
    text.push(c)
}

/// Calls `String::pop`: removes the last character, if there is one.
#[verifier::external_body]
pub(crate) fn pop_char(text: &mut String)
    ensures
        final(text)@ == if old(text)@.len() > 0 {
            old(text)@.drop_last()
        } else {
            old(text)@
        },
{
    text.pop();
}

/// Tests two already lowercased texts: does `cell` contain `query`?
pub fn folded_contains(lower_cell: &str, lower_query: &str) -> (found: bool)
    ensures
        found == contains_text(lower_cell@, lower_query@),
{
    str_contains(lower_cell, lower_query)
}

/// Case-insensitive substring test on one cell.
pub fn text_matches(cell: &str, lower_query: &str) -> (found: bool)
    ensures
        found == contains_text(lowercase(cell@), lower_query@),
{
    let lower = to_lowercase(cell);
    folded_contains(lower.as_str(), lower_query)
}

/// The character of a decimal digit.
pub open spec fn digit_char(d: int) -> char {
    if d == 0 {
        '0'
    } else if d == 1 {
        '1'
    } else if d == 2 {
        '2'
    } else if d == 3 {
        '3'
    } else if d == 4 {
        '4'
    } else if d == 5 {
        '5'
    } else if d == 6 {
        '6'
    } else if d == 7 {
        '7'
    } else if d == 8 {
        '8'
    } else {
        '9'
    }
}

/// A number written in decimal, without leading zeros.
pub open spec fn decimal(n: nat) -> Seq<char>
    decreases n,
{
    if n < 10 {
        seq![digit_char(n as int)]
    } else {
        decimal(n / 10).push(digit_char((n % 10) as int))
    }
}

/// The character of a decimal digit.
fn digit(d: u128) -> (c: char)
    requires
        d < 10,
    ensures
        c == digit_char(d as int),
{
    if d == 0 {
        '0'
    } else if d == 1 {
        '1'
    } else if d == 2 {
        '2'
    } else if d == 3 {
        '3'
    } else if d == 4 {
        '4'
    } else if d == 5 {
        '5'
    } else if d == 6 {
        '6'
    } else if d == 7 {
        '7'
    } else if d == 8 {
        '8'
    } else {
        '9'
    }
}

/// Writes a number in decimal.
pub fn decimal_text(n: u128) -> (text: String)
    ensures
        text@ == decimal(n as nat),
    decreases n,
{
    if n < 10 {
        let mut text = String::new();
        push_char(&mut text, digit(n));
        assert(text@ =~= seq![digit_char(n as int)]);
        text
    } else {
        let mut text = decimal_text(n / 10);
        push_char(&mut text, digit(n % 10));
        text
    }
}

/// Texts put one after the other with `sep` between each two.
pub open spec fn joined(parts: Seq<Seq<char>>, sep: Seq<char>) -> Seq<char>
    decreases parts.len(),
{
    if parts.len() == 0 {
        Seq::empty()
    } else if parts.len() == 1 {
        parts[0]
    } else {
        joined(parts.drop_last(), sep) + sep + parts.last()
    }
}

/// Puts texts one after the other with `sep` between each two.
pub fn join_texts(parts: &Vec<String>, sep: &str) -> (text: String)
    ensures
        text@ == joined(texts_view(parts@), sep@),
{
    let mut text = String::new();
    let mut i: usize = 0;
    while i < parts.len()
        invariant
            i <= parts@.len(),
            text@ == joined(texts_view(parts@).take(i as int), sep@),
        decreases parts@.len() - i,
    {
        let ghost before = texts_view(parts@).take(i as int);
        let ghost after = texts_view(parts@).take(i + 1);
        assert(after.drop_last() =~= before);
        assert(after.last() == parts@[i as int]@);
        if i > 0 {
            text.append(sep);
        }
        text.append(parts[i].as_str());
        assert(text@ =~= joined(after, sep@));
        i += 1;
    }
    assert(texts_view(parts@).take(parts@.len() as int) =~= texts_view(parts@));
    text
}

/// The display width of a text: its number of characters, held to what a
/// sixteen-bit width can say.
pub open spec fn display_width(text: Seq<char>) -> int {
    if text.len() <= u16::MAX {
        text.len() as int
    } else {
        u16::MAX as int
    }
}

/// Computes the display width of a text.
pub fn width_of(text: &str) -> (w: u16)
    ensures
        w == display_width(text@),
{
    let n: usize = text.unicode_len();
    if n <= 65535 {
        n as u16
    } else {
        65535u16
    }
}

} // verus!

use vstd::prelude::*;
use crate::exercises::types::opt_view;
use crate::text::{chars_of, push_char, string_of, string_views};

verus! {

// ---------------------------------------------------------------------------
// JSON text of a list of strings (serde_json)
// ---------------------------------------------------------------------------

/// The lower-case hexadecimal digit of a value below sixteen.
pub open spec fn hex_digit(d: int) -> char {
    if d < 10 {
        (d + 48) as char
    } else {
        (d + 87) as char
    }
}

/// How serde_json writes one character inside a string: quotes and
/// backslashes escaped, the control characters below U+0020 as `\b`, `\t`,
/// `\n`, `\f`, `\r` or `\u00XX`, everything else as it is.
pub open spec fn json_escape_char(c: char) -> Seq<char> {
    let u = c as u32;
    if c == '"' {
        seq!['\\', '"']
    } else if c == '\\' {
        seq!['\\', '\\']
    } else if u == 8 {
        seq!['\\', 'b']
    } else if u == 9 {
        seq!['\\', 't']
    } else if u == 10 {
        seq!['\\', 'n']
    } else if u == 12 {
        seq!['\\', 'f']
    } else if u == 13 {
        seq!['\\', 'r']
    } else if u < 32 {
        seq!['\\', 'u', '0', '0', hex_digit(u as int / 16), hex_digit(u as int % 16)]
    } else {
        seq![c]
    }
}

/// A string as serde_json writes it: quoted, each character escaped.
pub open spec fn json_string(s: Seq<char>) -> Seq<char>
    decreases s.len(),
{
    if s.len() == 0 {
        seq!['"', '"']
    } else {
        let q = json_string(s.drop_last());
        q.drop_last() + json_escape_char(s.last()) + seq!['"']
    }
}

/// The items of a list of strings as serde_json writes them, separated by
/// commas.
pub open spec fn json_items(items: Seq<Seq<char>>) -> Seq<char>
    decreases items.len(),
{
    if items.len() == 0 {
        Seq::<char>::empty()
    } else if items.len() == 1 {
        json_string(items[0])
    } else {
        json_items(items.drop_last()) + seq![','] + json_string(items.last())
    }
}

/// A list of strings as serde_json writes it (compact): `["a","b"]`.
pub open spec fn json_array(items: Seq<Seq<char>>) -> Seq<char> {
    seq!['['] + json_items(items) + seq![']']
}

/// `serde_json::to_string` on a list of strings, an error read as the
/// empty string (`unwrap_or_default`). Claimed: the compact JSON text of
/// the list, escaped as serde_json's escape table shows; serializing strings
/// does not fail.
#[verifier::external_body]
fn json_of_strings(items: &Vec<String>) -> (r: String)
    ensures
        r@ == json_array(string_views(items@)),
{
    serde_json::to_string(items).unwrap_or_default()
}

// ---------------------------------------------------------------------------
// Footnotes
// ---------------------------------------------------------------------------

/// Scans the text from position `i` on, in the given state: `[[`
/// opens a footnote (its text starts afresh), `]]` closes it (keeping the
/// text read since the last opening, if any), other characters go to the
/// footnote while one is open and to the main text otherwise. Gives the
/// main text and the footnotes.
pub open spec fn scan_notes(
    s: Seq<char>,
    i: int,
    open: bool,
    main: Seq<char>,
    cur: Seq<char>,
    notes: Seq<Seq<char>>,
) -> (Seq<char>, Seq<Seq<char>>)
    decreases s.len() - i,
{
    if i >= s.len() || i < 0 {
        (main, notes)
    } else if s[i] == '[' && i + 1 < s.len() && s[i + 1] == '[' {
        scan_notes(s, i + 2, true, main, Seq::<char>::empty(), notes)
    } else if s[i] == ']' && i + 1 < s.len() && s[i + 1] == ']' {
        scan_notes(
            s,
            i + 2,
            false,
            main,
            cur,
            if cur.len() > 0 {
                notes.push(cur)
            } else {
                notes
            },
        )
    } else if open {
        scan_notes(s, i + 1, true, main, cur.push(s[i]), notes)
    } else {
        scan_notes(s, i + 1, false, main.push(s[i]), cur, notes)
    }
}

/// The main text of a translation and its footnotes, the footnotes as a
/// JSON list (none when there are none).
pub open spec fn spec_extract_footnotes(s: Seq<char>) -> (Seq<char>, Option<Seq<char>>) {
    let (main, notes) = scan_notes(s, 0, false, Seq::<char>::empty(), Seq::<char>::empty(), Seq::<Seq<char>>::empty());
    (main, if notes.len() == 0 { None } else { Some(json_array(notes)) })
}

/// Splits a translation into its main text and its footnotes (marked
/// `[[...]]`), the footnotes as a JSON list.
pub fn extract_footnotes(text: &str) -> (r: (String, Option<String>))
    ensures
        (r.0@, opt_view(r.1)) == spec_extract_footnotes(text@),
{
    let s = chars_of(text);
    let mut main: Vec<char> = Vec::new();
    let mut cur: Vec<char> = Vec::new();
    let mut notes: Vec<String> = Vec::new();
    let mut open = false;
    let mut i: usize = 0;
    assert(main@ =~= Seq::<char>::empty());
    assert(cur@ =~= Seq::<char>::empty());
    assert(string_views(notes@) =~= Seq::<Seq<char>>::empty());
    while i < s.len()
        invariant
            i <= s.len(),
            scan_notes(s@, 0, false, Seq::<char>::empty(), Seq::<char>::empty(), Seq::<Seq<char>>::empty())
                == scan_notes(s@, i as int, open, main@, cur@, string_views(notes@)),
        decreases s.len() - i,
    {
        let c = s[i];
        if c == '[' && i + 1 < s.len() && s[i + 1] == '[' {
            open = true;
            cur = Vec::new();
            i = i + 2;
        } else if c == ']' && i + 1 < s.len() && s[i + 1] == ']' {
            open = false;
            if cur.len() > 0 {
                let ghost before = notes@;
                notes.push(string_of(&cur));
                assert(string_views(notes@) =~= string_views(before).push(cur@));
            }
            i = i + 2;
        } else if open {
            cur.push(c);
            i = i + 1;
        } else {
            main.push(c);
            i = i + 1;
        }
    }
    let main_text = string_of(&main);
    let json = if notes.len() == 0 {
        None
    } else {
        Some(json_of_strings(&notes))
    };
    (main_text, json)
}

} // verus!

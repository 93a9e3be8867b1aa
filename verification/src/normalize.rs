use vstd::prelude::*;
use crate::text::{
    chars_of, string_of, squeeze_ws, squeeze_ws_chars, trim, trim_chars, ws_words, join,
    is_ws, views, lead_ws, trail_ws,
};

verus! {

// ---------------------------------------------------------------------------
// Lower case (std)
// ---------------------------------------------------------------------------

/// What `str::to_lowercase` gives for a string: the lower case mapping of
/// the Unicode `Lowercase` property, applied character by character with the
/// context rule for a final Greek sigma.
pub uninterp spec fn str_lowercase(s: Seq<char>) -> Seq<char>;

/// `str::to_lowercase`. Claimed: the result is `str_lowercase` of the
/// text, a function of the text alone; Unicode's lowercase mapping itself
/// is not written out.
#[verifier::external_body]
pub(crate) fn to_lowercase(s: &str) -> (r: String)
    ensures
        r@ == str_lowercase(s@),
{
    s.to_lowercase()
}

/// What `char::to_uppercase` yields for a character, collected.
pub uninterp spec fn char_uppercase(c: char) -> Seq<char>;

/// `char::to_uppercase`, collected into a string. Claimed: the result is
/// `char_uppercase` of the character, a function of the character alone;
/// Unicode's uppercase mapping itself is not written out.
#[verifier::external_body]
pub(crate) fn to_uppercase_char(c: char) -> (r: String)
    ensures
        r@ == char_uppercase(c),
{
    c.to_uppercase().collect::<String>()
}

// ---------------------------------------------------------------------------
// Arabic
// ---------------------------------------------------------------------------

/// The Arabic diacritical marks (tashkeel) U+064B ..= U+0658.
pub open spec fn is_arabic_mark(c: char) -> bool {
    0x064B <= (c as u32) <= 0x0658
}

/// Letter variants folded onto their base letter: the alif forms onto
/// alif, alif maqsura onto ya, ta marbuta and hamza-on-ha onto ha.
pub open spec fn fold_letter(c: char) -> char {
    let u = c as u32;
    if u == 0x0671 || u == 0x0623 || u == 0x0625 || u == 0x0622 || u == 0x0670 {
        '\u{0627}'
    } else if u == 0x0649 {
        '\u{064A}'
    } else if u == 0x0629 || u == 0x06C0 {
        '\u{0647}'
    } else {
        c
    }
}

/// `s` without its diacritical marks and with its letter variants folded.
pub open spec fn strip_and_fold(s: Seq<char>) -> Seq<char>
    decreases s.len(),
{
    if s.len() == 0 {
        Seq::<char>::empty()
    } else {
        let r = strip_and_fold(s.drop_last());
        if is_arabic_mark(s.last()) {
            r
        } else {
            r.push(fold_letter(s.last()))
        }
    }
}

/// The form in which Arabic answers are compared: no marks, folded letters,
/// words separated by single spaces.
pub open spec fn arabic_normal_form(s: Seq<char>) -> Seq<char> {
    squeeze_ws(strip_and_fold(s))
}

/// Folds one letter variant onto its base letter.
pub fn fold_letter_exec(c: char) -> (r: char)
    ensures
        r == fold_letter(c),
{
    let u = c as u32;
    if u == 0x0671 || u == 0x0623 || u == 0x0625 || u == 0x0622 || u == 0x0670 {
        '\u{0627}'
    } else if u == 0x0649 {
        '\u{064A}'
    } else if u == 0x0629 || u == 0x06C0 {
        '\u{0647}'
    } else {
        c
    }
}

/// Drops the diacritical marks and folds the letter variants.
pub fn strip_and_fold_chars(v: &Vec<char>) -> (r: Vec<char>)
    ensures
        r@ == strip_and_fold(v@),
{
    let mut r: Vec<char> = Vec::new();
    let mut i: usize = 0;
    while i < v.len()
        invariant
            i <= v.len(),
            r@ == strip_and_fold(v@.subrange(0, i as int)),
        decreases v.len() - i,
    {
        let c = v[i];
        let u = c as u32;
        proof {
            assert(v@.subrange(0, i + 1).drop_last() =~= v@.subrange(0, i as int));
        }
        if !(0x064B <= u && u <= 0x0658) {
            r.push(fold_letter_exec(c));
        }
        i = i + 1;
    }
    assert(v@.subrange(0, v@.len() as int) =~= v@);
    r
}

/// Normalizes Arabic text for comparison: removes diacritics, folds letter
/// variants and collapses white space.
pub fn normalize_arabic(text: &str) -> (r: String)
    ensures
        r@ == arabic_normal_form(text@),
{
    let v = chars_of(text);
    let s = strip_and_fold_chars(&v);
    let n = squeeze_ws_chars(&s);
    string_of(&n)
}

// ---------------------------------------------------------------------------
// English
// ---------------------------------------------------------------------------

/// The punctuation that English comparison treats as a space.
pub open spec fn is_english_punct(c: char) -> bool {
    c == '.' || c == ',' || c == ';' || c == ':' || c == '!' || c == '?' || c == '"' || c == '\''
        || c == '(' || c == ')' || c == '[' || c == ']'
}

/// `s` with its punctuation turned into spaces.
pub open spec fn blank_punct(s: Seq<char>) -> Seq<char> {
    s.map_values(|c: char| if is_english_punct(c) { ' ' } else { c })
}

/// The form in which English answers are compared: lower case, punctuation
/// dropped, words separated by single spaces.
pub open spec fn english_normal_form(s: Seq<char>) -> Seq<char> {
    squeeze_ws(blank_punct(str_lowercase(s)))
}

/// Turns punctuation into spaces.
pub fn blank_punct_chars(v: &Vec<char>) -> (r: Vec<char>)
    ensures
        r@ == blank_punct(v@),
{
    let mut r: Vec<char> = Vec::new();
    let mut i: usize = 0;
    while i < v.len()
        invariant
            i <= v.len(),
            r@ == blank_punct(v@.subrange(0, i as int)),
        decreases v.len() - i,
    {
        let c = v[i];
        let d = if c == '.' || c == ',' || c == ';' || c == ':' || c == '!' || c == '?' || c == '"'
            || c == '\'' || c == '(' || c == ')' || c == '[' || c == ']' {
            ' '
        } else {
            c
        };
        r.push(d);
        proof {
            assert(blank_punct(v@.subrange(0, i + 1)) =~= blank_punct(v@.subrange(0, i as int)).push(d));
        }
        i = i + 1;
    }
    assert(v@.subrange(0, v@.len() as int) =~= v@);
    r
}

/// Normalizes English text for comparison: lower case, punctuation removed,
/// white space collapsed.
pub fn normalize_english(text: &str) -> (r: String)
    ensures
        r@ == english_normal_form(text@),
{
    let lower = to_lowercase(text);
    let v = chars_of(lower.as_str());
    let b = blank_punct_chars(&v);
    let n = squeeze_ws_chars(&b);
    string_of(&n)
}

// ---------------------------------------------------------------------------
// Tags and roots
// ---------------------------------------------------------------------------

/// The form in which short tags are compared: trimmed, then lower case.
pub open spec fn tag_normal_form(s: Seq<char>) -> Seq<char> {
    str_lowercase(trim(s))
}

/// Trims and lower-cases a short tag (`text.trim().to_lowercase()`).
pub fn normalize_tag(text: &str) -> (r: String)
    ensures
        r@ == tag_normal_form(text@),
{
    let v = chars_of(text);
    let t = trim_chars(&v);
    let s = string_of(&t);
    to_lowercase(s.as_str())
}

/// `s` without dashes and spaces.
pub open spec fn drop_dashes(s: Seq<char>) -> Seq<char>
    decreases s.len(),
{
    if s.len() == 0 {
        Seq::<char>::empty()
    } else {
        let r = drop_dashes(s.drop_last());
        if s.last() == '-' || s.last() == ' ' {
            r
        } else {
            r.push(s.last())
        }
    }
}

/// The form in which roots are compared: no dashes or spaces, trimmed.
pub open spec fn root_normal_form(s: Seq<char>) -> Seq<char> {
    trim(drop_dashes(s))
}

/// Normalizes a root for comparison: removes dashes and spaces, then trims.
pub fn normalize_root_text(root: &str) -> (r: String)
    ensures
        r@ == root_normal_form(root@),
{
    let v = chars_of(root);
    let mut d: Vec<char> = Vec::new();
    let mut i: usize = 0;
    while i < v.len()
        invariant
            i <= v.len(),
            d@ == drop_dashes(v@.subrange(0, i as int)),
        decreases v.len() - i,
    {
        let c = v[i];
        proof {
            assert(v@.subrange(0, i + 1).drop_last() =~= v@.subrange(0, i as int));
        }
        if c != '-' && c != ' ' {
            d.push(c);
        }
        i = i + 1;
    }
    assert(v@.subrange(0, v@.len() as int) =~= v@);
    let t = trim_chars(&d);
    string_of(&t)
}

// ---------------------------------------------------------------------------
// Laws
// ---------------------------------------------------------------------------

/// Every character of a squeezed text is a space or a non-white-space
/// character of the input.
pub proof fn lemma_squeeze_chars(s: Seq<char>)
    ensures
        forall|i: int|
            0 <= i < squeeze_ws(s).len() ==> (#[trigger] squeeze_ws(s)[i] == ' ' || (!is_ws(
                squeeze_ws(s)[i],
            ) && s.contains(squeeze_ws(s)[i]))),
{
    lemma_words_chars(s);
    lemma_join_chars(ws_words(s), s);
}

proof fn lemma_words_chars(s: Seq<char>)
    ensures
        forall|k: int, j: int|
            0 <= k < ws_words(s).len() && 0 <= j < ws_words(s)[k].len() ==> !is_ws(
                #[trigger] ws_words(s)[k][j],
            ) && s.contains(ws_words(s)[k][j]),
    decreases s.len(),
{
    if s.len() > 0 {
        let p = s.drop_last();
        let w = ws_words(p);
        let c = s.last();
        lemma_words_chars(p);
        assert forall|x: char| p.contains(x) implies s.contains(x) by {
            let t = choose|t: int| 0 <= t < p.len() && p[t] == x;
            assert(s[t] == x);
        }
        assert(s[s.len() - 1] == c);
        assert forall|k: int, j: int|
            0 <= k < ws_words(s).len() && 0 <= j < ws_words(s)[k].len() implies !is_ws(
            #[trigger] ws_words(s)[k][j],
        ) && s.contains(ws_words(s)[k][j]) by {
            if is_ws(c) {
                assert(ws_words(s) == w);
            } else if s.len() >= 2 && !is_ws(s[s.len() - 2]) {
                let l = w.len() - 1;
                crate::text::lemma_ws_words_shape(p);
                assert(p.last() == s[s.len() - 2]);
                assert(ws_words(s) == w.update(l, w.last().push(c)));
                if k < l {
                    assert(ws_words(s)[k] == w[k]);
                } else if j < w.last().len() {
                    assert(ws_words(s)[k][j] == w[l][j]);
                } else {
                    assert(ws_words(s)[k][j] == c);
                }
            } else {
                assert(ws_words(s) == w.push(seq![c]));
                if k < w.len() {
                    assert(ws_words(s)[k] == w[k]);
                } else {
                    assert(ws_words(s)[k][j] == c);
                }
            }
        }
    }
}

proof fn lemma_join_chars(w: Seq<Seq<char>>, s: Seq<char>)
    requires
        forall|k: int, j: int|
            0 <= k < w.len() && 0 <= j < w[k].len() ==> !is_ws(#[trigger] w[k][j]) && s.contains(
                w[k][j],
            ),
    ensures
        forall|i: int|
            0 <= i < join(w, seq![' ']).len() ==> (#[trigger] join(w, seq![' '])[i] == ' ' || (
            !is_ws(join(w, seq![' '])[i]) && s.contains(join(w, seq![' '])[i]))),
    decreases w.len(),
{
    if w.len() == 1 {
        assert forall|i: int| 0 <= i < join(w, seq![' ']).len() implies (#[trigger] join(
            w,
            seq![' '],
        )[i] == ' ' || (!is_ws(join(w, seq![' '])[i]) && s.contains(join(w, seq![' '])[i]))) by {
            assert(join(w, seq![' '])[i] == w[0][i]);
        }
    } else if w.len() > 1 {
        let w1 = w.drop_last();
        assert forall|k: int, j: int| 0 <= k < w1.len() && 0 <= j < w1[k].len() implies !is_ws(
            #[trigger] w1[k][j],
        ) && s.contains(w1[k][j]) by {
            assert(w1[k] == w[k]);
        }
        lemma_join_chars(w1, s);
        let a = join(w1, seq![' ']);
        let l = w.last();
        assert forall|i: int| 0 <= i < join(w, seq![' ']).len() implies (#[trigger] join(
            w,
            seq![' '],
        )[i] == ' ' || (!is_ws(join(w, seq![' '])[i]) && s.contains(join(w, seq![' '])[i]))) by {
            let r = join(w, seq![' ']);
            assert(r == a + seq![' '] + l);
            if i < a.len() {
                assert(r[i] == a[i]);
            } else if i > a.len() {
                assert(r[i] == l[i - a.len() - 1]);
                assert(l == w[w.len() - 1]);
            }
        }
    }
}

/// Law: the normal form of Arabic text holds no diacritical mark.
pub proof fn law_arabic_normal_form_has_no_marks(s: Seq<char>)
    ensures
        forall|i: int|
            0 <= i < arabic_normal_form(s).len() ==> !is_arabic_mark(
                #[trigger] arabic_normal_form(s)[i],
            ),
{
    lemma_fold_no_marks(s);
    lemma_squeeze_chars(strip_and_fold(s));
    assert forall|i: int| 0 <= i < arabic_normal_form(s).len() implies !is_arabic_mark(
        #[trigger] arabic_normal_form(s)[i],
    ) by {
        let c = arabic_normal_form(s)[i];
        if c != ' ' {
            let t = choose|t: int| 0 <= t < strip_and_fold(s).len() && strip_and_fold(s)[t] == c;
        }
    }
}

proof fn lemma_fold_no_marks(s: Seq<char>)
    ensures
        forall|i: int|
            0 <= i < strip_and_fold(s).len() ==> !is_arabic_mark(#[trigger] strip_and_fold(s)[i]),
    decreases s.len(),
{
    if s.len() > 0 {
        lemma_fold_no_marks(s.drop_last());
        let r = strip_and_fold(s.drop_last());
        if !is_arabic_mark(s.last()) {
            let f = fold_letter(s.last());
            assert(!is_arabic_mark(f));
            assert forall|i: int| 0 <= i < r.push(f).len() implies !is_arabic_mark(
                #[trigger] r.push(f)[i],
            ) by {
                if i < r.len() {
                    assert(r.push(f)[i] == r[i]);
                }
            }
        }
    }
}

/// The letter variants that the Arabic normal form folds away.
pub open spec fn is_folded_variant(c: char) -> bool {
    let u = c as u32;
    u == 0x0671 || u == 0x0623 || u == 0x0625 || u == 0x0622 || u == 0x0670 || u == 0x0649
        || u == 0x0629 || u == 0x06C0
}

/// Text whose white space is single spaces between words: no white space at
/// either end, none but the space character, and never two in a row.
pub open spec fn ws_clean(t: Seq<char>) -> bool {
    &&& forall|i: int| 0 <= i < t.len() && is_ws(#[trigger] t[i]) ==> t[i] == ' '
    &&& t.len() > 0 ==> !is_ws(t[0]) && !is_ws(t.last())
    &&& forall|i: int| 0 <= i < t.len() - 1 && is_ws(#[trigger] t[i]) ==> !is_ws(t[i + 1])
}

/// Prefixes of clean text: like `ws_clean`, but it may end in a space.
spec fn ws_clean_prefix(t: Seq<char>) -> bool {
    &&& forall|i: int| 0 <= i < t.len() && is_ws(#[trigger] t[i]) ==> t[i] == ' '
    &&& t.len() > 0 ==> !is_ws(t[0])
    &&& forall|i: int| 0 <= i < t.len() - 1 && is_ws(#[trigger] t[i]) ==> !is_ws(t[i + 1])
}

/// Appending a character to the last piece appends it to the joined text.
proof fn lemma_join_extend_last(w: Seq<Seq<char>>, c: char)
    requires
        w.len() >= 1,
    ensures
        join(w.update(w.len() - 1, w.last().push(c)), seq![' ']) == join(w, seq![' ']).push(c),
{
    let u = w.update(w.len() - 1, w.last().push(c));
    if w.len() == 1 {
        assert(u[0] == w[0].push(c));
    } else {
        assert(u.drop_last() =~= w.drop_last());
        assert(u.last() == w.last().push(c));
        assert(join(u, seq![' ']) =~= join(w, seq![' ']).push(c));
    }
}

/// The words of a clean prefix joined by spaces give the prefix back, up to
/// a final space.
proof fn lemma_words_of_clean_prefix(t: Seq<char>)
    requires
        ws_clean_prefix(t),
    ensures
        t.len() == 0 ==> ws_words(t).len() == 0,
        t.len() > 0 ==> ws_words(t).len() > 0,
        t.len() > 0 && !is_ws(t.last()) ==> join(ws_words(t), seq![' ']) == t,
        t.len() > 0 && is_ws(t.last()) ==> join(ws_words(t), seq![' ']) + seq![' '] == t,
    decreases t.len(),
{
    if t.len() > 0 {
        let p = t.drop_last();
        let c = t.last();
        assert forall|i: int| 0 <= i < p.len() - 1 && is_ws(#[trigger] p[i]) implies !is_ws(
            p[i + 1],
        ) by {
            assert(p[i] == t[i] && p[i + 1] == t[i + 1]);
        }
        assert forall|i: int| 0 <= i < p.len() && is_ws(#[trigger] p[i]) implies p[i] == ' ' by {
            assert(p[i] == t[i]);
        }
        if p.len() > 0 {
            assert(p[0] == t[0]);
        }
        lemma_words_of_clean_prefix(p);
        let w = ws_words(p);
        if is_ws(c) {
            assert(t[t.len() - 1] == c);
            assert(p.len() > 0);
            assert(!is_ws(p.last())) by {
                assert(p.last() == t[t.len() - 2]);
            }
            assert(c == ' ');
            assert(t =~= p + seq![' ']);
        } else if t.len() >= 2 && !is_ws(t[t.len() - 2]) {
            assert(p.last() == t[t.len() - 2]);
            lemma_join_extend_last(w, c);
            assert(t =~= p.push(c));
        } else if p.len() == 0 {
            assert(ws_words(t) == w.push(seq![c]));
            assert(w.push(seq![c]).len() == 1);
            assert(t =~= seq![c]);
        } else {
            assert(p.last() == t[t.len() - 2]);
            let u = w.push(seq![c]);
            assert(u.drop_last() =~= w);
            assert(join(u, seq![' ']) == join(w, seq![' ']) + seq![' '] + seq![c]);
            assert(t =~= p.push(c));
            assert(join(u, seq![' ']) =~= t);
        }
    }
}

/// Clean text is its own squeezed form.
proof fn lemma_squeeze_clean(t: Seq<char>)
    requires
        ws_clean(t),
    ensures
        squeeze_ws(t) == t,
{
    lemma_words_of_clean_prefix(t);
    if t.len() == 0 {
        assert(ws_words(t) =~= Seq::<Seq<char>>::empty());
    }
}

/// Non-empty words without white space, joined by single spaces, are clean.
proof fn lemma_join_clean(w: Seq<Seq<char>>)
    requires
        forall|k: int| 0 <= k < w.len() ==> #[trigger] w[k].len() > 0,
        forall|k: int, j: int| 0 <= k < w.len() && 0 <= j < w[k].len() ==> !is_ws(#[trigger] w[k][j]),
    ensures
        ws_clean(join(w, seq![' '])),
        w.len() > 0 ==> join(w, seq![' ']).len() > 0,
    decreases w.len(),
{
    if w.len() == 1 {
        assert(w[0].len() > 0);
        let r = join(w, seq![' ']);
        assert(r == w[0]);
        assert forall|i: int| 0 <= i < r.len() implies !is_ws(#[trigger] r[i]) by {
            assert(r[i] == w[0][i]);
        }
    } else if w.len() > 1 {
        let w1 = w.drop_last();
        assert forall|k: int| 0 <= k < w1.len() implies #[trigger] w1[k].len() > 0 by {
            assert(w1[k] == w[k]);
        }
        assert forall|k: int, j: int| 0 <= k < w1.len() && 0 <= j < w1[k].len() implies !is_ws(
            #[trigger] w1[k][j],
        ) by {
            assert(w1[k] == w[k]);
        }
        lemma_join_clean(w1);
        let a = join(w1, seq![' ']);
        let l = w.last();
        assert(l == w[w.len() - 1]);
        assert(l.len() > 0);
        let r = join(w, seq![' ']);
        assert(r == a + seq![' '] + l);
        assert forall|j: int| 0 <= j < l.len() implies !is_ws(#[trigger] l[j]) by {
            assert(l[j] == w[w.len() - 1][j]);
        }
        assert forall|i: int| 0 <= i < r.len() && is_ws(#[trigger] r[i]) implies r[i] == ' ' by {
            if i < a.len() {
                assert(r[i] == a[i]);
            } else if i > a.len() {
                assert(r[i] == l[i - a.len() - 1]);
            }
        }
        assert(r[0] == a[0]);
        assert(r.last() == l[l.len() - 1]);
        assert forall|i: int| 0 <= i < r.len() - 1 && is_ws(#[trigger] r[i]) implies !is_ws(
            r[i + 1],
        ) by {
            if i < a.len() - 1 {
                assert(r[i] == a[i] && r[i + 1] == a[i + 1]);
            } else if i == a.len() - 1 {
                assert(r[i] == a.last());
            } else if i == a.len() {
                assert(r[i + 1] == l[0]);
            } else {
                assert(r[i] == l[i - a.len() - 1]);
            }
        }
    }
}

/// Squeezed text is clean.
proof fn lemma_squeeze_is_clean(s: Seq<char>)
    ensures
        ws_clean(squeeze_ws(s)),
{
    lemma_words_chars(s);
    crate::text::lemma_ws_words_shape(s);
    lemma_join_clean(ws_words(s));
}

/// Stripping and folding leaves no mark and no folded variant.
proof fn lemma_fold_no_variants(s: Seq<char>)
    ensures
        forall|i: int|
            0 <= i < strip_and_fold(s).len() ==> !is_folded_variant(#[trigger] strip_and_fold(s)[i]),
    decreases s.len(),
{
    if s.len() > 0 {
        lemma_fold_no_variants(s.drop_last());
        let r = strip_and_fold(s.drop_last());
        if !is_arabic_mark(s.last()) {
            let f = fold_letter(s.last());
            assert(!is_folded_variant(f));
            assert forall|i: int| 0 <= i < r.push(f).len() implies !is_folded_variant(
                #[trigger] r.push(f)[i],
            ) by {
                if i < r.len() {
                    assert(r.push(f)[i] == r[i]);
                }
            }
        }
    }
}

/// Text without marks and variants is left as it is by stripping and folding.
proof fn lemma_fold_fixed(t: Seq<char>)
    requires
        forall|i: int| 0 <= i < t.len() ==> !is_arabic_mark(#[trigger] t[i]),
        forall|i: int| 0 <= i < t.len() ==> !is_folded_variant(#[trigger] t[i]),
    ensures
        strip_and_fold(t) == t,
    decreases t.len(),
{
    if t.len() > 0 {
        let p = t.drop_last();
        assert forall|i: int| 0 <= i < p.len() implies !is_arabic_mark(#[trigger] p[i]) by {
            assert(p[i] == t[i]);
        }
        assert forall|i: int| 0 <= i < p.len() implies !is_folded_variant(#[trigger] p[i]) by {
            assert(p[i] == t[i]);
        }
        lemma_fold_fixed(p);
        assert(!is_arabic_mark(t[t.len() - 1]) && !is_folded_variant(t[t.len() - 1]));
        assert(t =~= p.push(t.last()));
    }
}

/// Law: the normal form of Arabic text holds no diacritical mark and no
/// folded letter variant, its white space is single spaces between words
/// (none at either end, never two in a row), and normalizing it again
/// changes nothing.
pub proof fn law_arabic_normal_form_shape(s: Seq<char>)
    ensures
        forall|i: int|
            0 <= i < arabic_normal_form(s).len() ==> !is_arabic_mark(
                #[trigger] arabic_normal_form(s)[i],
            ) && !is_folded_variant(arabic_normal_form(s)[i]),
        ws_clean(arabic_normal_form(s)),
        arabic_normal_form(arabic_normal_form(s)) == arabic_normal_form(s),
{
    let f = strip_and_fold(s);
    let t = arabic_normal_form(s);
    law_arabic_normal_form_has_no_marks(s);
    lemma_fold_no_variants(s);
    lemma_squeeze_chars(f);
    assert forall|i: int| 0 <= i < t.len() implies !is_folded_variant(#[trigger] t[i]) by {
        let c = t[i];
        if c != ' ' {
            let k = choose|k: int| 0 <= k < f.len() && f[k] == c;
        }
    }
    lemma_squeeze_is_clean(f);
    lemma_fold_fixed(t);
    lemma_squeeze_clean(t);
}

/// Law: the English normal form holds none of the punctuation marks
/// `. , ; : ! ? " ' ( ) [ ]`, and no white space but single spaces between
/// words.
pub proof fn law_english_normal_form_has_no_punctuation(s: Seq<char>)
    ensures
        forall|i: int| 0 <= i < english_normal_form(s).len() ==> {
            let c = #[trigger] english_normal_form(s)[i];
            c != '.' && c != ',' && c != ';' && c != ':' && c != '!' && c != '?' && c != '"' && c
                != '\'' && c != '(' && c != ')' && c != '[' && c != ']'
        },
        ws_clean(english_normal_form(s)),
{
    let b = blank_punct(str_lowercase(s));
    let t = english_normal_form(s);
    lemma_squeeze_chars(b);
    lemma_squeeze_is_clean(b);
    assert forall|i: int| 0 <= i < t.len() implies {
        let c = #[trigger] t[i];
        c != '.' && c != ',' && c != ';' && c != ':' && c != '!' && c != '?' && c != '"' && c
            != '\'' && c != '(' && c != ')' && c != '[' && c != ']'
    } by {
        let c = t[i];
        if c != ' ' {
            let k = choose|k: int| 0 <= k < b.len() && b[k] == c;
        }
    }
}

/// The normal form of one character.
proof fn lemma_normal_form_of_char(c: char)
    ensures
        is_arabic_mark(c) ==> arabic_normal_form(seq![c]).len() == 0,
        !is_arabic_mark(c) && !is_ws(fold_letter(c)) ==> arabic_normal_form(seq![c]) == seq![
            fold_letter(c),
        ],
{
    let s = seq![c];
    assert(s.drop_last() =~= Seq::<char>::empty());
    assert(s.last() == c);
    assert(strip_and_fold(s.drop_last()) =~= Seq::<char>::empty());
    if is_arabic_mark(c) {
        assert(strip_and_fold(s) =~= Seq::<char>::empty());
        assert(ws_words(Seq::<char>::empty()) =~= Seq::<Seq<char>>::empty());
    } else if !is_ws(fold_letter(c)) {
        let t = seq![fold_letter(c)];
        assert(strip_and_fold(s) =~= t);
        assert(t[0] == fold_letter(c));
        lemma_squeeze_clean(t);
    }
}

/// Law: the normal form folds each letter variant onto its base letter:
/// the alif forms (U+0671, U+0623, U+0625, U+0622, U+0670) onto alif
/// U+0627, alif maqsura U+0649 onto ya U+064A, ta marbuta U+0629 and
/// U+06C0 onto ha U+0647; a diacritical mark alone normalizes to nothing.
pub proof fn law_arabic_folding(c: char)
    ensures
        ((c as u32) == 0x0671 || (c as u32) == 0x0623 || (c as u32) == 0x0625 || (c as u32)
            == 0x0622 || (c as u32) == 0x0670) ==> arabic_normal_form(seq![c]) == seq!['\u{0627}'],
        (c as u32) == 0x0649 ==> arabic_normal_form(seq![c]) == seq!['\u{064A}'],
        ((c as u32) == 0x0629 || (c as u32) == 0x06C0) ==> arabic_normal_form(seq![c]) == seq![
            '\u{0647}',
        ],
        0x064B <= (c as u32) <= 0x0658 ==> arabic_normal_form(seq![c]).len() == 0,
{
    lemma_normal_form_of_char(c);
}

proof fn lemma_lead_ws_bound(s: Seq<char>)
    ensures
        lead_ws(s) <= s.len(),
    decreases s.len(),
{
    if s.len() > 0 && is_ws(s[0]) {
        lemma_lead_ws_bound(s.drop_first());
    }
}

proof fn lemma_trail_ws_bound(s: Seq<char>)
    ensures
        trail_ws(s) <= s.len(),
    decreases s.len(),
{
    if s.len() > 0 && is_ws(s.last()) {
        lemma_trail_ws_bound(s.drop_last());
    }
}

proof fn lemma_drop_dashes_chars(s: Seq<char>)
    ensures
        forall|i: int| 0 <= i < drop_dashes(s).len() ==> #[trigger] drop_dashes(s)[i] != '-'
            && drop_dashes(s)[i] != ' ',
    decreases s.len(),
{
    if s.len() > 0 {
        lemma_drop_dashes_chars(s.drop_last());
        let r = drop_dashes(s.drop_last());
        if !(s.last() == '-' || s.last() == ' ') {
            assert forall|i: int| 0 <= i < r.push(s.last()).len() implies #[trigger] r.push(
                s.last(),
            )[i] != '-' && r.push(s.last())[i] != ' ' by {
                if i < r.len() {
                    assert(r.push(s.last())[i] == r[i]);
                }
            }
        }
    }
}

/// Law: the normal form of a root holds neither dashes nor spaces.
pub proof fn law_root_normal_form_shape(s: Seq<char>)
    ensures
        forall|i: int| 0 <= i < root_normal_form(s).len() ==> #[trigger] root_normal_form(s)[i]
            != '-' && root_normal_form(s)[i] != ' ',
{
    let d = drop_dashes(s);
    lemma_drop_dashes_chars(s);
    lemma_lead_ws_bound(d);
    let t = d.subrange(lead_ws(d) as int, d.len() as int);
    lemma_trail_ws_bound(t);
    let r = root_normal_form(s);
    assert forall|i: int| 0 <= i < r.len() implies #[trigger] r[i] != '-' && r[i] != ' ' by {
        assert(r[i] == t[i]);
        assert(t[i] == d[i + lead_ws(d)]);
    }
}

} // verus!

use vstd::prelude::*;
use crate::decimal::{format_i64, int_str};
use crate::exercises::types::ExerciseError;
use crate::models::{Verse, Word};
use crate::rng::{lemma_same_items, shuffle, views_of};
use crate::text::{
    chars_of, chars_of_all, char_string, concat2, concat3, first_char, join, join_chars, owned,
    split_chars, split_on, string_of, string_views, views,
};

verus! {

// ---------------------------------------------------------------------------
// Node keys
// ---------------------------------------------------------------------------

/// The colon-separated parts of a node key.
pub open spec fn key_parts(s: Seq<char>) -> Seq<Seq<char>> {
    split_on(s, ':')
}

/// `a:b`, such as a verse key made of a chapter and a verse number.
pub open spec fn colon_join(a: Seq<char>, b: Seq<char>) -> Seq<char> {
    a + ":"@ + b
}

/// Splits a node key at its colons.
pub fn split_key(s: &str) -> (r: Vec<String>)
    ensures
        string_views(r@) == key_parts(s@),
{
    let v = chars_of(s);
    let parts = split_chars(&v, ':');
    let mut r: Vec<String> = Vec::new();
    let mut i: usize = 0;
    while i < parts.len()
        invariant
            i <= parts.len(),
            views(parts@) == key_parts(s@),
            string_views(r@) == views(parts@).subrange(0, i as int),
        decreases parts.len() - i,
    {
        let p = string_of(&parts[i]);
        let ghost before = r@;
        r.push(p);
        proof {
            assert(string_views(r@) =~= string_views(before).push(parts@[i as int]@));
            assert(views(parts@).subrange(0, i + 1) =~= views(parts@).subrange(0, i as int).push(
                parts@[i as int]@,
            ));
        }
        i = i + 1;
    }
    assert(views(parts@).subrange(0, parts@.len() as int) =~= views(parts@));
    r
}

/// `a:b`.
pub fn colon_key(a: &str, b: &str) -> (r: String)
    ensures
        r@ == colon_join(a@, b@),
{
    crate::text::concat3(a, ":", b)
}

// ---------------------------------------------------------------------------
// The words of a verse
// ---------------------------------------------------------------------------

/// Whether some word of `words` stands at `position`.
pub open spec fn has_word_at(words: Seq<Word>, position: i32) -> bool {
    exists|i: int| 0 <= i < words.len() && #[trigger] words[i].position == position
}

/// Whether `i` is the first index of a word at `position`.
pub open spec fn first_at(words: Seq<Word>, position: i32, i: int) -> bool {
    &&& 0 <= i < words.len()
    &&& words[i].position == position
    &&& forall|j: int| 0 <= j < i ==> #[trigger] words[j].position != position
}

/// The index of the first word at `position`.
pub fn find_word_at(words: &Vec<Word>, position: i32) -> (r: Option<usize>)
    ensures
        match r {
            Some(i) => first_at(words@, position, i as int),
            None => !has_word_at(words@, position),
        },
{
    let mut i: usize = 0;
    while i < words.len()
        invariant
            i <= words.len(),
            forall|j: int| 0 <= j < i ==> #[trigger] words@[j].position != position,
        decreases words.len() - i,
    {
        if words[i].position == position {
            return Some(i);
        }
        i = i + 1;
    }
    None
}

/// The texts of the words.
pub open spec fn texts_of(words: Seq<Word>) -> Seq<Seq<char>> {
    words.map_values(|w: Word| w.text_uthmani@)
}

/// The text of a word, or `mark` for the word at `position`.
pub open spec fn text_or_mark(w: Word, position: i32, mark: Seq<char>) -> Seq<char> {
    if w.position == position {
        mark
    } else {
        w.text_uthmani@
    }
}

/// The verse read out with `mark` in place of the word at `position`,
/// the words separated by single spaces.
pub open spec fn marked_verse(words: Seq<Word>, position: i32, mark: Seq<char>) -> Seq<char> {
    join(words.map_values(|w: Word| text_or_mark(w, position, mark)), " "@)
}

/// The verse with `mark` in place of the word at `position`.
pub fn mark_word(words: &Vec<Word>, position: i32, mark: &str) -> (r: String)
    ensures
        r@ == marked_verse(words@, position, mark@),
{
    let ghost target = words@.map_values(|w: Word| text_or_mark(w, position, mark@));
    let mut parts: Vec<Vec<char>> = Vec::new();
    let mut i: usize = 0;
    while i < words.len()
        invariant
            i <= words.len(),
            target == words@.map_values(|w: Word| text_or_mark(w, position, mark@)),
            views(parts@) == target.subrange(0, i as int),
        decreases words.len() - i,
    {
        let w = &words[i];
        let c = if w.position == position {
            chars_of(mark)
        } else {
            chars_of(w.text_uthmani.as_str())
        };
        let ghost before = parts@;
        parts.push(c);
        proof {
            assert(views(parts@) =~= views(before).push(c@));
            assert(target.subrange(0, i + 1) =~= target.subrange(0, i as int).push(target[i as int]));
        }
        i = i + 1;
    }
    assert(target.subrange(0, target.len() as int) =~= target);
    let sep: Vec<char> = vec![' '];
    assert(sep@ =~= " "@) by {
        reveal_strlit(" ");
    }
    let j = join_chars(&parts, &sep);
    string_of(&j)
}

/// The texts of the words, in order.
pub fn word_texts(words: &Vec<Word>) -> (r: Vec<String>)
    ensures
        string_views(r@) == texts_of(words@),
{
    let mut r: Vec<String> = Vec::new();
    let mut i: usize = 0;
    while i < words.len()
        invariant
            i <= words.len(),
            string_views(r@) == texts_of(words@).subrange(0, i as int),
        decreases words.len() - i,
    {
        let t = owned(words[i].text_uthmani.as_str());
        let ghost before = r@;
        r.push(t);
        proof {
            assert(string_views(r@) =~= string_views(before).push(words@[i as int].text_uthmani@));
            assert(texts_of(words@).subrange(0, i + 1) =~= texts_of(words@).subrange(0, i as int).push(
                words@[i as int].text_uthmani@,
            ));
        }
        i = i + 1;
    }
    assert(texts_of(words@).subrange(0, words@.len() as int) =~= texts_of(words@));
    r
}

// ---------------------------------------------------------------------------
// Distractors
// ---------------------------------------------------------------------------

/// The texts of `t` other than `x`, in order.
pub open spec fn texts_except(t: Seq<Seq<char>>, x: Seq<char>) -> Seq<Seq<char>>
    decreases t.len(),
{
    if t.len() == 0 {
        Seq::<Seq<char>>::empty()
    } else {
        let r = texts_except(t.drop_last(), x);
        if t.last() == x {
            r
        } else {
            r.push(t.last())
        }
    }
}

/// The strings of `v` other than `x`, in order.
pub fn strings_except(v: &Vec<String>, x: &str) -> (r: Vec<String>)
    ensures
        string_views(r@) == texts_except(string_views(v@), x@),
{
    let mut r: Vec<String> = Vec::new();
    let mut i: usize = 0;
    while i < v.len()
        invariant
            i <= v.len(),
            string_views(r@) == texts_except(string_views(v@).subrange(0, i as int), x@),
        decreases v.len() - i,
    {
        let ghost sub = string_views(v@).subrange(0, i + 1);
        proof {
            assert(sub.drop_last() =~= string_views(v@).subrange(0, i as int));
            assert(sub.last() == v@[i as int]@);
        }
        if !crate::text::str_eq(v[i].as_str(), x) {
            let t = owned(v[i].as_str());
            let ghost before = r@;
            r.push(t);
            assert(string_views(r@) =~= string_views(before).push(v@[i as int]@));
        }
        i = i + 1;
    }
    assert(string_views(v@).subrange(0, v@.len() as int) =~= string_views(v@));
    r
}

/// Every text of `texts_except(t, x)` is a text of `t` other than `x`.
pub proof fn lemma_texts_except(t: Seq<Seq<char>>, x: Seq<char>)
    ensures
        forall|i: int|
            0 <= i < texts_except(t, x).len() ==> #[trigger] texts_except(t, x)[i] != x
                && t.contains(texts_except(t, x)[i]),
        texts_except(t, x).len() <= t.len(),
    decreases t.len(),
{
    if t.len() > 0 {
        lemma_texts_except(t.drop_last(), x);
        let r = texts_except(t.drop_last(), x);
        assert forall|i: int| 0 <= i < texts_except(t, x).len() implies #[trigger] texts_except(
            t,
            x,
        )[i] != x && t.contains(texts_except(t, x)[i]) by {
            if i < r.len() {
                let k = choose|k: int| 0 <= k < t.drop_last().len() && t.drop_last()[k] == r[i];
                assert(t[k] == r[i]);
            } else {
                assert(t[t.len() - 1] == t.last());
            }
        }
    }
}

/// At most the first `n` items of `s`.
pub open spec fn take_at_most<T>(s: Seq<T>, n: int) -> Seq<T> {
    if n < s.len() {
        s.take(n)
    } else {
        s
    }
}

/// The texts of the words at positions other than `position`, in order.
pub open spec fn texts_elsewhere(words: Seq<Word>, position: i32) -> Seq<Seq<char>>
    decreases words.len(),
{
    if words.len() == 0 {
        Seq::<Seq<char>>::empty()
    } else {
        let r = texts_elsewhere(words.drop_last(), position);
        if words.last().position == position {
            r
        } else {
            r.push(words.last().text_uthmani@)
        }
    }
}

/// The texts of the words at positions other than `position`.
pub fn word_texts_elsewhere(words: &Vec<Word>, position: i32) -> (r: Vec<String>)
    ensures
        string_views(r@) == texts_elsewhere(words@, position),
{
    let mut r: Vec<String> = Vec::new();
    let mut i: usize = 0;
    while i < words.len()
        invariant
            i <= words.len(),
            string_views(r@) == texts_elsewhere(words@.subrange(0, i as int), position),
        decreases words.len() - i,
    {
        proof {
            assert(words@.subrange(0, i + 1).drop_last() =~= words@.subrange(0, i as int));
        }
        if words[i].position != position {
            let t = owned(words[i].text_uthmani.as_str());
            let ghost before = r@;
            r.push(t);
            assert(string_views(r@) =~= string_views(before).push(words@[i as int].text_uthmani@));
        }
        i = i + 1;
    }
    assert(words@.subrange(0, words@.len() as int) =~= words@);
    r
}

/// The keys of the verses.
pub open spec fn keys_of(verses: Seq<Verse>) -> Seq<Seq<char>> {
    verses.map_values(|v: Verse| v.key@)
}

/// The keys of the first `n` verses, the verse `except` left out.
pub fn verse_keys_except(verses: &Vec<Verse>, n: usize, except: &str) -> (r: Vec<String>)
    ensures
        string_views(r@) == texts_except(take_at_most(keys_of(verses@), n as int), except@),
{
    let mut keys: Vec<String> = Vec::new();
    let mut i: usize = 0;
    let end: usize = if n < verses.len() { n } else { verses.len() };
    while i < end
        invariant
            i <= end,
            end <= verses.len(),
            end == (if n < verses.len() { n as int } else { verses.len() as int }),
            string_views(keys@) == keys_of(verses@).subrange(0, i as int),
        decreases end - i,
    {
        let k = owned(verses[i].key.as_str());
        let ghost before = keys@;
        keys.push(k);
        proof {
            assert(string_views(keys@) =~= string_views(before).push(verses@[i as int].key@));
            assert(keys_of(verses@).subrange(0, i + 1) =~= keys_of(verses@).subrange(0, i as int).push(
                verses@[i as int].key@,
            ));
        }
        i = i + 1;
    }
    assert(keys_of(verses@).subrange(0, end as int) =~= take_at_most(keys_of(verses@), n as int));
    strings_except(&keys, except)
}

/// Joins strings with a separator.
pub fn join_texts(v: &Vec<String>, sep: &str) -> (r: String)
    ensures
        r@ == join(string_views(v@), sep@),
{
    let parts = chars_of_all(v);
    let s = chars_of(sep);
    let j = join_chars(&parts, &s);
    string_of(&j)
}

/// The text that fills the `i`-th place of a list of options when there are
/// too few candidates: `[Option i+1]`.
pub open spec fn placeholder(i: int) -> Seq<char> {
    "[Option "@ + int_str(i + 1) + "]"@
}

/// What a list of `count` options picked from `candidates` holds: as many of
/// the candidates as there are, up to `count`, then placeholders.
pub open spec fn picked_from(r: Seq<Seq<char>>, candidates: Seq<Seq<char>>, count: int) -> bool {
    &&& r.len() == count
    &&& forall|i: int| 0 <= i < count && i < candidates.len() ==> candidates.contains(#[trigger] r[i])
    &&& forall|i: int| candidates.len() <= i < count ==> #[trigger] r[i] == placeholder(i)
    &&& r.take(if count < candidates.len() { count } else { candidates.len() as int }).to_multiset().subset_of(
        candidates.to_multiset(),
    )
}

/// Law: options picked from candidates without repeats hold no repeats among
/// the picked candidates (only the placeholders that pad them differ by
/// number): each candidate is picked at most once.
pub proof fn law_picks_distinct(r: Seq<Seq<char>>, candidates: Seq<Seq<char>>, count: int)
    requires
        picked_from(r, candidates, count),
        candidates.no_duplicates(),
    ensures
        r.take(if count < candidates.len() { count } else { candidates.len() as int }).no_duplicates(),
{
    let m: int = if count < candidates.len() { count } else { candidates.len() as int };
    let t = r.take(m);
    candidates.lemma_multiset_has_no_duplicates();
    assert forall|x: Seq<char>| t.to_multiset().contains(x) implies t.to_multiset().count(x) == 1 by {
        vstd::seq_lib::to_multiset_contains(candidates, x);
        assert(t.to_multiset().count(x) <= candidates.to_multiset().count(x));
    }
    t.lemma_multiset_has_no_duplicates_conv();
}

/// The first `k` items of a sequence are among its items, as often at most.
pub proof fn lemma_take_sub_multiset<A>(s: Seq<A>, k: int)
    requires
        0 <= k <= s.len(),
    ensures
        s.take(k).to_multiset().subset_of(s.to_multiset()),
{
    broadcast use vstd::multiset::group_multiset_axioms;

    assert(s =~= s.take(k) + s.skip(k));
    vstd::seq_lib::lemma_multiset_commutative(s.take(k), s.skip(k));
}

/// Picks `count` of the candidates at random (shuffled, then the first
/// `count` kept), and fills up with placeholders where there are too few.
pub fn pick_padded(candidates: Vec<String>, count: usize) -> (r: Vec<String>)
    requires
        count < i64::MAX,
    ensures
        picked_from(string_views(r@), string_views(candidates@), count as int),
{
    let mut d = candidates;
    let ghost orig = d@;
    shuffle(&mut d);
    proof {
        assert(views_of(orig) =~= string_views(orig));
        assert(views_of(d@) =~= string_views(d@));
        assert(views_of(d@).len() == views_of(orig).len()) by {
            views_of(d@).to_multiset_ensures();
            views_of(orig).to_multiset_ensures();
        }
        assert forall|i: int| 0 <= i < d@.len() implies string_views(orig).contains(
            #[trigger] string_views(d@)[i],
        ) by {
            assert(views_of(d@).contains(views_of(d@)[i]));
            lemma_same_items(views_of(d@), views_of(orig), views_of(d@)[i]);
        }
    }
    let ghost shuffled = d@;
    d.truncate(count);
    while d.len() < count
        invariant
            count < i64::MAX,
            d@.len() <= count,
            d@.len() == count || d@.len() >= shuffled.len(),
            forall|i: int| 0 <= i < d@.len() && i < shuffled.len() ==> d@[i] == shuffled[i],
            forall|i: int| shuffled.len() <= i < d@.len() ==> #[trigger] d@[i]@ == placeholder(i),
        decreases count - d.len(),
    {
        let n = d.len();
        let digits = format_i64((n + 1) as i64);
        let num = string_of(&digits);
        let p = concat3("[Option ", num.as_str(), "]");
        d.push(p);
    }
    proof {
        assert forall|i: int| 0 <= i < count && i < orig.len() implies string_views(orig).contains(
            #[trigger] string_views(d@)[i],
        ) by {
            assert(string_views(d@)[i] == string_views(shuffled)[i]);
        }
        let m: int = if count < orig.len() { count as int } else { orig.len() as int };
        assert(string_views(d@).take(m) =~= string_views(shuffled).take(m));
        lemma_take_sub_multiset(string_views(shuffled), m);
        assert(views_of(shuffled) =~= string_views(shuffled));
    }
    d
}

/// `label` followed by the first character of `s`, if `s` has one.
pub open spec fn first_char_hint(label: Seq<char>, s: Seq<char>) -> Option<Seq<char>> {
    if s.len() > 0 {
        Some(label + seq![s[0]])
    } else {
        None
    }
}

/// `label` followed by the first character of `s`, if `s` has one.
pub fn labelled_first_char(label: &str, s: &str) -> (r: Option<String>)
    ensures
        crate::exercises::types::opt_view(r) == first_char_hint(label@, s@),
{
    match first_char(s) {
        Some(c) => {
            let cs = char_string(c);
            Some(concat2(label, cs.as_str()))
        },
        None => None,
    }
}

/// The parts of a word key `KIND:chapter:verse:position`, which must have
/// exactly four.
pub fn exact_word_parts(base: &str) -> (r: Result<Vec<String>, ExerciseError>)
    ensures
        match r {
            Ok(p) => key_parts(base@).len() == 4 && string_views(p@) == key_parts(base@),
            Err(e) => key_parts(base@).len() != 4 && e.message@ == "Invalid word node ID format: "@
                + base@,
        },
{
    let parts = split_key(base);
    if parts.len() != 4 {
        return Err(ExerciseError { message: concat2("Invalid word node ID format: ", base) });
    }
    Ok(parts)
}

/// The IDs of the first `n` words.
pub open spec fn first_ids(words: Seq<Word>, n: int) -> Seq<i64> {
    take_at_most(words, n).map_values(|w: Word| w.id)
}

/// The IDs of the first `n` words.
pub fn first_word_ids(words: &Vec<Word>, n: usize) -> (r: Vec<i64>)
    ensures
        r@ == first_ids(words@, n as int),
{
    let mut r: Vec<i64> = Vec::new();
    let end: usize = if n < words.len() { n } else { words.len() };
    let mut i: usize = 0;
    while i < end
        invariant
            i <= end,
            end == (if n < words.len() { n as int } else { words.len() as int }),
            r@ == words@.subrange(0, i as int).map_values(|w: Word| w.id),
        decreases end - i,
    {
        r.push(words[i].id);
        proof {
            assert(words@.subrange(0, i + 1).map_values(|w: Word| w.id) =~= words@.subrange(
                0,
                i as int,
            ).map_values(|w: Word| w.id).push(words@[i as int].id));
        }
        i = i + 1;
    }
    assert(words@.subrange(0, end as int) =~= take_at_most(words@, n as int));
    r
}

/// The verse key and position of a word key with exactly four parts; the
/// position read as `str::parse::<i32>` reads it.
pub open spec fn exact_word_location(base: Seq<char>) -> Result<(Seq<char>, i32), Seq<char>> {
    let p = key_parts(base);
    if p.len() != 4 {
        Err("Invalid word node ID format: "@ + base)
    } else {
        match crate::decimal::int_parse(p[3], i32::MIN as int, i32::MAX as int) {
            Ok(n) => Ok((colon_join(p[1], p[2]), n as i32)),
            Err(m) => Err(m),
        }
    }
}

/// Reads the verse key and position of a word key with exactly four parts.
pub fn parse_exact_word_location(base: &str) -> (r: Result<(String, i32), ExerciseError>)
    ensures
        match (r, exact_word_location(base@)) {
            (Ok((k, n)), Ok((k2, n2))) => k@ == k2 && n == n2,
            (Err(e), Err(m)) => e.message@ == m,
            _ => false,
        },
{
    let parts = exact_word_parts(base)?;
    match crate::decimal::parse_i32_text(parts[3].as_str()) {
        Ok(n) => Ok((colon_key(parts[1].as_str(), parts[2].as_str()), n)),
        Err(m) => Err(ExerciseError { message: m }),
    }
}

/// The message when a verse has no word at a position.
pub open spec fn no_word_message(position: i32, verse_key: Seq<char>) -> Seq<char> {
    "Word not found at position "@ + int_str(position as int) + " in verse "@ + verse_key
}

/// The index of the first word at `position`, or the error naming the
/// position and the verse.
pub fn locate_in_verse(words: &Vec<Word>, position: i32, verse_key: &str) -> (r: Result<
    usize,
    ExerciseError,
>)
    ensures
        match r {
            Ok(i) => first_at(words@, position, i as int),
            Err(e) => !has_word_at(words@, position) && e.message@ == no_word_message(
                position,
                verse_key@,
            ),
        },
{
    match find_word_at(words, position) {
        Some(i) => Ok(i),
        None => {
            let digits = format_i64(position as i64);
            let num = string_of(&digits);
            let a = concat3("Word not found at position ", num.as_str(), " in verse ");
            Err(ExerciseError { message: concat2(a.as_str(), verse_key) })
        },
    }
}

/// The verse key of a verse node key `VERSE:key`, or the error.
pub open spec fn verse_key_part(ukey: Seq<char>) -> Result<Seq<char>, Seq<char>> {
    if crate::text::has_prefix(ukey, "VERSE:"@) {
        Ok(ukey.subrange(6, ukey.len() as int))
    } else {
        Err("Invalid verse node ID: "@ + ukey)
    }
}

/// The verse key of a verse node key.
pub fn strip_verse_prefix(ukey: &str) -> (r: Result<String, ExerciseError>)
    ensures
        match (r, verse_key_part(ukey@)) {
            (Ok(k), Ok(k2)) => k@ == k2,
            (Err(e), Err(m)) => e.message@ == m,
            _ => false,
        },
{
    match crate::text::strip_prefix_str(ukey, "VERSE:") {
        Some(k) => {
            proof {
                reveal_strlit("VERSE:");
            }
            Ok(k)
        },
        None => Err(ExerciseError { message: concat2("Invalid verse node ID: ", ukey) }),
    }
}

/// `VERSE:key`.
pub fn verse_node_key(key: &str) -> (r: String)
    ensures
        r@ == "VERSE:"@ + key@,
{
    concat2("VERSE:", key)
}

/// The views of pairs of strings.
pub open spec fn pair_views(s: Seq<(String, String)>) -> Seq<(Seq<char>, Seq<char>)> {
    s.map_values(|p: (String, String)| (p.0@, p.1@))
}

/// The items of `keys` that are not among `ex`, in order.
pub open spec fn keys_not_in(keys: Seq<Seq<char>>, ex: Seq<Seq<char>>) -> Seq<Seq<char>>
    decreases keys.len(),
{
    if keys.len() == 0 {
        Seq::<Seq<char>>::empty()
    } else {
        let r = keys_not_in(keys.drop_last(), ex);
        if ex.contains(keys.last()) {
            r
        } else {
            r.push(keys.last())
        }
    }
}

/// Whether `x` is one of the strings of `v`.
pub fn contains_str(v: &Vec<String>, x: &str) -> (r: bool)
    ensures
        r == string_views(v@).contains(x@),
{
    let mut i: usize = 0;
    while i < v.len()
        invariant
            i <= v.len(),
            forall|j: int| 0 <= j < i ==> v@[j]@ != x@,
        decreases v.len() - i,
    {
        if crate::text::str_eq(v[i].as_str(), x) {
            assert(string_views(v@)[i as int] == x@);
            return true;
        }
        i = i + 1;
    }
    assert forall|j: int| 0 <= j < string_views(v@).len() implies string_views(v@)[j] != x@ by {
        assert(string_views(v@)[j] == v@[j]@);
    }
    false
}

/// The strings of `v` that are not among `ex`, in order.
pub fn strings_not_in(v: &Vec<String>, ex: &Vec<String>) -> (r: Vec<String>)
    ensures
        string_views(r@) == keys_not_in(string_views(v@), string_views(ex@)),
{
    let mut r: Vec<String> = Vec::new();
    let mut i: usize = 0;
    while i < v.len()
        invariant
            i <= v.len(),
            string_views(r@) == keys_not_in(string_views(v@).subrange(0, i as int), string_views(ex@)),
        decreases v.len() - i,
    {
        let ghost sub = string_views(v@).subrange(0, i + 1);
        proof {
            assert(sub.drop_last() =~= string_views(v@).subrange(0, i as int));
            assert(sub.last() == v@[i as int]@);
        }
        if !contains_str(ex, v[i].as_str()) {
            let ghost before = r@;
            r.push(owned(v[i].as_str()));
            assert(string_views(r@) =~= string_views(before).push(v@[i as int]@));
        }
        i = i + 1;
    }
    assert(string_views(v@).subrange(0, v@.len() as int) =~= string_views(v@));
    r
}

/// The keys of the first `n` verses.
pub fn verse_keys_except_none(verses: &Vec<Verse>, n: usize) -> (r: Vec<String>)
    ensures
        string_views(r@) == take_at_most(keys_of(verses@), n as int),
{
    let mut r: Vec<String> = Vec::new();
    let end: usize = if n < verses.len() { n } else { verses.len() };
    let mut i: usize = 0;
    while i < end
        invariant
            i <= end,
            end <= verses.len(),
            end == (if n < verses.len() { n as int } else { verses.len() as int }),
            string_views(r@) == keys_of(verses@).subrange(0, i as int),
        decreases end - i,
    {
        let ghost before = r@;
        r.push(owned(verses[i].key.as_str()));
        proof {
            assert(string_views(r@) =~= string_views(before).push(verses@[i as int].key@));
            assert(keys_of(verses@).subrange(0, i + 1) =~= keys_of(verses@).subrange(0, i as int).push(
                verses@[i as int].key@,
            ));
        }
        i = i + 1;
    }
    assert(keys_of(verses@).subrange(0, end as int) =~= take_at_most(keys_of(verses@), n as int));
    r
}

} // verus!

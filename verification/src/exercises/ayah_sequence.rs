use vstd::prelude::*;
use crate::decimal::{format_i64, int_parse, int_str, parse_i32_text};
use crate::exercises::types::{Exercise, ExerciseError, SemanticGradeLabel, opt_view};
use crate::exercises::verse_words::{
    keys_of, key_parts, lemma_texts_except, pair_views, split_key, strings_except, texts_except,
    verse_keys_except,
};
use crate::models::Verse;
use crate::rng::{lemma_same_items, shuffle, views_of};
use crate::text::{chars_of, concat2, concat3, owned, str_eq, string_of, string_views, trim, trim_chars};

verus! {

/// Which verse follows a given one, chosen among four verses.
#[derive(Debug)]
pub struct AyahSequenceExercise {
    node_id: i64,
    current_verse_text: String,
    current_verse_key: String,
    correct_next_verse_text: String,
    correct_next_verse_key: String,
    options: Vec<(String, String)>,
}

/// The chapter and verse numbers of a verse key `chapter:verse`, or the
/// error.
pub open spec fn key_numbers(key: Seq<char>) -> Result<(i32, i32), Seq<char>> {
    let p = key_parts(key);
    if p.len() != 2 {
        Err("Invalid verse key format: "@ + key)
    } else {
        match (
            int_parse(p[0], i32::MIN as int, i32::MAX as int),
            int_parse(p[1], i32::MIN as int, i32::MAX as int),
        ) {
            (Err(m), _) => Err(m),
            (Ok(_), Err(m)) => Err(m),
            (Ok(c), Ok(v)) => Ok((c as i32, v as i32)),
        }
    }
}

/// Whether `i` is the first verse numbered `n`.
pub open spec fn first_numbered(verses: Seq<Verse>, n: i32, i: int) -> bool {
    &&& 0 <= i < verses.len()
    &&& verses[i].verse_number == n
    &&& forall|j: int| 0 <= j < i ==> #[trigger] verses[j].verse_number != n
}

/// Whether a trimmed answer names a verse, by key or by text.
pub open spec fn names_verse(answer: Seq<char>, key: Seq<char>, text: Seq<char>) -> bool {
    trim(answer) == key || trim(answer) == text
}

/// Whether `answer`, trimmed, equals the key or the text.
pub(crate) fn answer_names(answer: &str, key: &str, text: &str) -> (r: bool)
    ensures
        r == names_verse(answer@, key@, text@),
{
    let v = chars_of(answer);
    let t = string_of(&trim_chars(&v));
    str_eq(t.as_str(), key) || str_eq(t.as_str(), text)
}

/// Puts the right pair in front of the others and shuffles them.
pub(crate) fn shuffled_pairs(key: &str, text: &str, others: &Vec<(String, String)>) -> (r: Vec<
    (String, String),
>)
    ensures
        pair_views(r@).to_multiset() == (seq![(key@, text@)] + pair_views(others@)).to_multiset(),
        pair_views(r@).contains((key@, text@)),
{
    let mut options: Vec<(String, String)> = Vec::new();
    options.push((owned(key), owned(text)));
    let mut i: usize = 0;
    while i < others.len()
        invariant
            i <= others.len(),
            pair_views(options@) == seq![(key@, text@)] + pair_views(others@).subrange(0, i as int),
        decreases others.len() - i,
    {
        let ghost before = options@;
        let p = (owned(others[i].0.as_str()), owned(others[i].1.as_str()));
        options.push(p);
        proof {
            assert(pair_views(options@) =~= pair_views(before).push((others@[i as int].0@, others@[i as int].1@)));
            assert(pair_views(others@).subrange(0, i + 1) =~= pair_views(others@).subrange(0, i as int).push(
                (others@[i as int].0@, others@[i as int].1@),
            ));
        }
        i = i + 1;
    }
    assert(pair_views(others@).subrange(0, others@.len() as int) =~= pair_views(others@));
    let ghost before = options@;
    shuffle(&mut options);
    proof {
        assert(views_of(before) =~= pair_views(before));
        assert(views_of(options@) =~= pair_views(options@));
        assert(pair_views(before)[0] == (key@, text@));
        lemma_same_items(views_of(options@), views_of(before), (key@, text@));
    }
    options
}

/// How many candidates are tried for distractors: the first three, or fewer
/// when fewer candidates (or looked-up texts) are given.
pub open spec fn tries(n_candidates: int, n_texts: int) -> int {
    let n = if n_candidates < n_texts { n_candidates } else { n_texts };
    if n < 3 { n } else { 3 }
}

/// The (key, text) pairs of the first `n` candidates whose text was found,
/// in order.
pub open spec fn found_pairs(keys: Seq<Seq<char>>, texts: Seq<Option<Seq<char>>>, n: int) -> Seq<
    (Seq<char>, Seq<char>),
>
    decreases n,
{
    if n <= 0 {
        Seq::<(Seq<char>, Seq<char>)>::empty()
    } else {
        let r = found_pairs(keys, texts, n - 1);
        match texts[n - 1] {
            Some(t) => r.push((keys[n - 1], t)),
            None => r,
        }
    }
}

/// The views of looked-up texts.
pub open spec fn opt_views(v: Seq<Option<String>>) -> Seq<Option<Seq<char>>> {
    v.map_values(|o: Option<String>| opt_view(o))
}

/// Whether no two pairs share a key.
pub open spec fn distinct_keys<B>(s: Seq<(Seq<char>, B)>) -> bool {
    forall|i: int, j: int| 0 <= i < s.len() && 0 <= j < s.len() && i != j ==> #[trigger] s[i].0
        != #[trigger] s[j].0
}

impl AyahSequenceExercise {
    pub closed spec fn node_view(&self) -> i64 {
        self.node_id
    }

    /// The text of the verse shown.
    pub closed spec fn current_text_view(&self) -> Seq<char> {
        self.current_verse_text@
    }

    /// The key of the verse shown.
    pub closed spec fn current_key_view(&self) -> Seq<char> {
        self.current_verse_key@
    }

    /// The text of the verse that follows.
    pub closed spec fn next_text_view(&self) -> Seq<char> {
        self.correct_next_verse_text@
    }

    /// The key of the verse that follows.
    pub closed spec fn next_key_view(&self) -> Seq<char> {
        self.correct_next_verse_key@
    }

    /// The options as (key, text) pairs, in the order shown.
    pub closed spec fn options_view(&self) -> Seq<(Seq<char>, Seq<char>)> {
        pair_views(self.options@)
    }

    /// Reads the chapter and verse numbers of a verse key.
    pub fn numbers_of(key: &str) -> (r: Result<(i32, i32), ExerciseError>)
        ensures
            match (r, key_numbers(key@)) {
                (Ok((c, v)), Ok((c2, v2))) => c == c2 && v == v2,
                (Err(e), Err(m)) => e.message@ == m,
                _ => false,
            },
    {
        let parts = split_key(key);
        if parts.len() != 2 {
            return Err(ExerciseError { message: concat2("Invalid verse key format: ", key) });
        }
        let c = match parse_i32_text(parts[0].as_str()) {
            Ok(n) => n,
            Err(m) => {
                return Err(ExerciseError { message: m });
            },
        };
        let v = match parse_i32_text(parts[1].as_str()) {
            Ok(n) => n,
            Err(m) => {
                return Err(ExerciseError { message: m });
            },
        };
        Ok((c, v))
    }

    /// The index of the first verse of the chapter numbered `verse + 1`.
    pub fn find_next(verses: &Vec<Verse>, chapter: i32, verse: i32) -> (r: Result<
        usize,
        ExerciseError,
    >)
        requires
            verse < i32::MAX,
        ensures
            match r {
                Ok(i) => first_numbered(verses@, (verse + 1) as i32, i as int),
                Err(e) => (forall|j: int|
                    0 <= j < verses@.len() ==> #[trigger] verses@[j].verse_number != verse + 1)
                    && e.message@ == "No next verse found for "@ + int_str(chapter as int) + ":"@
                    + int_str(verse as int) + " (end of chapter)"@,
            },
    {
        let mut i: usize = 0;
        while i < verses.len()
            invariant
                i <= verses.len(),
                verse < i32::MAX,
                forall|j: int| 0 <= j < i ==> #[trigger] verses@[j].verse_number != verse + 1,
            decreases verses.len() - i,
        {
            if verses[i].verse_number == verse + 1 {
                return Ok(i);
            }
            i = i + 1;
        }
        let c = string_of(&format_i64(chapter as i64));
        let v = string_of(&format_i64(verse as i64));
        let a = concat3("No next verse found for ", c.as_str(), ":");
        Err(ExerciseError { message: concat3(a.as_str(), v.as_str(), " (end of chapter)") })
    }

    /// The keys of the chapter's verses other than the current and the next
    /// one, in an order left to chance: the candidates for distractors.
    pub fn distractor_candidates(verses: &Vec<Verse>, current: &str, next: &str) -> (r: Vec<String>)
        ensures
            string_views(r@).to_multiset() == texts_except(
                texts_except(keys_of(verses@), current@),
                next@,
            ).to_multiset(),
    {
        let keys = verse_keys_except(verses, verses.len(), current);
        proof {
            assert(crate::exercises::verse_words::take_at_most(keys_of(verses@), verses@.len() as int)
                == keys_of(verses@));
        }
        let mut c = strings_except(&keys, next);
        let ghost before = c@;
        shuffle(&mut c);
        proof {
            assert(views_of(before) =~= string_views(before));
            assert(views_of(c@) =~= string_views(c@));
        }
        c
    }

    /// The distractors for the candidates tried (the first three), given
    /// the texts looked up for them: the pairs whose text was found, accepted
    /// when there are three.
    pub fn pick_distractors(candidates: &Vec<String>, texts: &Vec<Option<String>>) -> (r: Result<
        Vec<(String, String)>,
        ExerciseError,
    >)
        ensures
            ({
                let f = found_pairs(
                    string_views(candidates@),
                    opt_views(texts@),
                    tries(candidates@.len() as int, texts@.len() as int),
                );
                match r {
                    Ok(d) => f.len() >= 3 && pair_views(d@) == f,
                    Err(e) => f.len() < 3 && e.message@
                        == "Not enough verses in chapter to generate 3 distractors"@,
                }
            }),
    {
        let m = if candidates.len() < texts.len() { candidates.len() } else { texts.len() };
        let n = if m < 3 { m } else { 3 };
        let ghost keys = string_views(candidates@);
        let ghost tv = opt_views(texts@);
        let mut d: Vec<(String, String)> = Vec::new();
        let mut i: usize = 0;
        while i < n
            invariant
                i <= n,
                n <= candidates.len(),
                n <= texts.len(),
                keys == string_views(candidates@),
                tv == opt_views(texts@),
                pair_views(d@) == found_pairs(keys, tv, i as int),
            decreases n - i,
        {
            match &texts[i] {
                Some(t) => {
                    let ghost before = d@;
                    d.push((owned(candidates[i].as_str()), owned(t.as_str())));
                    assert(pair_views(d@) =~= pair_views(before).push((keys[i as int], t@)));
                },
                None => {},
            }
            i = i + 1;
        }
        assert(n == tries(candidates@.len() as int, texts@.len() as int));
        let ghost f = pair_views(d@);
        Self::check_distractors(d)
    }

    /// Accepts the distractors found when there are at least three.
    pub fn check_distractors(distractors: Vec<(String, String)>) -> (r: Result<
        Vec<(String, String)>,
        ExerciseError,
    >)
        ensures
            match r {
                Ok(d) => distractors@.len() >= 3 && d@ == distractors@,
                Err(e) => distractors@.len() < 3 && e.message@
                    == "Not enough verses in chapter to generate 3 distractors"@,
            },
    {
        if distractors.len() < 3 {
            return Err(
                ExerciseError {
                    message: owned("Not enough verses in chapter to generate 3 distractors"),
                },
            );
        }
        Ok(distractors)
    }

    /// The exercise for a verse whose text, next verse and distractors have
    /// been looked up; the options are the next verse and the distractors,
    /// in an order left to chance.
    pub fn from_parts(
        node_id: i64,
        current_verse_text: String,
        current_verse_key: String,
        correct_next_verse_key: String,
        correct_next_verse_text: String,
        distractors: &Vec<(String, String)>,
    ) -> (r: Self)
        ensures
            r.node_view() == node_id,
            r.current_text_view() == current_verse_text@,
            r.current_key_view() == current_verse_key@,
            r.next_key_view() == correct_next_verse_key@,
            r.next_text_view() == correct_next_verse_text@,
            r.options_view().to_multiset() == (seq![
                (correct_next_verse_key@, correct_next_verse_text@),
            ] + pair_views(distractors@)).to_multiset(),
            r.options_view().contains((correct_next_verse_key@, correct_next_verse_text@)),
    {
        let options = shuffled_pairs(
            correct_next_verse_key.as_str(),
            correct_next_verse_text.as_str(),
            distractors,
        );
        AyahSequenceExercise {
            node_id,
            current_verse_text,
            current_verse_key,
            correct_next_verse_text,
            correct_next_verse_key,
            options,
        }
    }

    /// The options as (key, text) pairs, in the order shown.
    pub fn get_options(&self) -> (r: &[(String, String)])
        ensures
            pair_views(r@) == self.options_view(),
    {
        self.options.as_slice()
    }

    /// The key of the verse that follows.
    pub fn get_correct_verse_key(&self) -> (r: &str)
        ensures
            r@ == self.next_key_view(),
    {
        self.correct_next_verse_key.as_str()
    }

    /// The node ID of the exercise.
    pub fn get_node_id(&self) -> (r: i64)
        ensures
            r == self.node_view(),
    {
        self.node_id
    }
}

impl Exercise for AyahSequenceExercise {
    open spec fn valid(&self) -> bool {
        true
    }

    fn generate_question(&self) -> (r: String)
        ensures
            r@ == "After this verse:\n\n"@ + self.current_text_view()
                + "\n\nWhich verse comes next?"@,
    {
        concat3("After this verse:\n\n", self.current_verse_text.as_str(), "\n\nWhich verse comes next?")
    }

    /// Right when the trimmed answer is the next verse's key or text.
    fn check_answer(&self, answer: &str, grade: Option<SemanticGradeLabel>) -> (r: bool)
        ensures
            r == names_verse(answer@, self.next_key_view(), self.next_text_view()),
    {
        answer_names(
            answer,
            self.correct_next_verse_key.as_str(),
            self.correct_next_verse_text.as_str(),
        )
    }

    /// The number of the next verse: the part of its key after the colon.
    fn get_hint(&self) -> (r: Option<String>)
        ensures
            opt_view(r) == (if key_parts(self.next_key_view()).len() > 1 {
                Some("It's verse "@ + key_parts(self.next_key_view())[1])
            } else {
                None
            }),
    {
        let parts = split_key(self.correct_next_verse_key.as_str());
        if parts.len() > 1 {
            Some(concat2("It's verse ", parts[1].as_str()))
        } else {
            None
        }
    }

    fn get_type_name(&self) -> (r: &'static str)
        ensures
            r@ == "ayah_sequence"@,
    {
        "ayah_sequence"
    }
}

/// Leaving out one text keeps a list free of repeats.
proof fn lemma_texts_except_no_dup(t: Seq<Seq<char>>, x: Seq<char>)
    requires
        t.no_duplicates(),
    ensures
        texts_except(t, x).no_duplicates(),
    decreases t.len(),
{
    if t.len() > 0 {
        let p = t.drop_last();
        assert forall|i: int, j: int| 0 <= i < p.len() && 0 <= j < p.len() && i != j implies p[i]
            != p[j] by {
            assert(p[i] == t[i] && p[j] == t[j]);
        }
        lemma_texts_except_no_dup(p, x);
        lemma_texts_except(p, x);
        let r = texts_except(p, x);
        if t.last() != x {
            assert(!r.contains(t.last())) by {
                if r.contains(t.last()) {
                    let i = choose|i: int| 0 <= i < r.len() && r[i] == t.last();
                    assert(p.contains(r[i]));
                    let k = choose|k: int| 0 <= k < p.len() && p[k] == r[i];
                    assert(t[k] == t[t.len() - 1]);
                }
            }
            let q = r.push(t.last());
            assert forall|i: int, j: int| 0 <= i < q.len() && 0 <= j < q.len() && i != j implies q[i]
                != q[j] by {
                if i < r.len() && j < r.len() {
                    assert(q[i] == r[i] && q[j] == r[j]);
                } else if i < r.len() {
                    assert(q[i] == r[i]);
                } else if j < r.len() {
                    assert(q[j] == r[j]);
                }
            }
        }
    }
}

/// A sequence with the same items as one without repeats has no repeats,
/// the same length, and only items of the other.
proof fn lemma_same_items_no_dup<A>(a: Seq<A>, b: Seq<A>)
    requires
        a.to_multiset() == b.to_multiset(),
        b.no_duplicates(),
    ensures
        a.no_duplicates(),
        a.len() == b.len(),
        forall|i: int| 0 <= i < a.len() ==> b.contains(#[trigger] a[i]),
{
    b.lemma_multiset_has_no_duplicates();
    vstd::seq_lib::to_multiset_len(a);
    vstd::seq_lib::to_multiset_len(b);
    assert forall|i: int| 0 <= i < a.len() implies b.contains(#[trigger] a[i]) by {
        vstd::seq_lib::to_multiset_contains(a, a[i]);
        vstd::seq_lib::to_multiset_contains(b, a[i]);
    }
    assert forall|x: A| a.to_multiset().contains(x) implies a.to_multiset().count(x) == 1 by {
        assert(b.to_multiset().contains(x));
    }
    a.lemma_multiset_has_no_duplicates_conv();
}

/// Keys that differ in one list of pairs differ in any list with the same
/// pairs.
proof fn lemma_same_items_distinct_keys(a: Seq<(Seq<char>, Seq<char>)>, b: Seq<(Seq<char>, Seq<char>)>)
    requires
        a.to_multiset() == b.to_multiset(),
        distinct_keys(b),
    ensures
        distinct_keys(a),
        a.len() == b.len(),
        forall|i: int| 0 <= i < a.len() ==> b.contains(#[trigger] a[i]),
{
    assert(b.no_duplicates()) by {
        assert forall|i: int, j: int| 0 <= i < b.len() && 0 <= j < b.len() && i != j implies b[i]
            != b[j] by {
            assert(b[i].0 != b[j].0);
        }
    }
    lemma_same_items_no_dup(a, b);
    assert forall|i: int, j: int| 0 <= i < a.len() && 0 <= j < a.len() && i != j implies #[trigger] a[i].0
        != #[trigger] a[j].0 by {
        assert(a[i] != a[j]);
        assert(b.contains(a[i]) && b.contains(a[j]));
        let x = choose|x: int| 0 <= x < b.len() && b[x] == a[i];
        let y = choose|y: int| 0 <= y < b.len() && b[y] == a[j];
        assert(x != y);
        assert(b[x].0 != b[y].0);
    }
}

/// When every candidate tried had its text found, the pairs are those
/// candidates, in order.
proof fn lemma_found_pairs(keys: Seq<Seq<char>>, texts: Seq<Option<Seq<char>>>, n: int)
    requires
        0 <= n,
    ensures
        found_pairs(keys, texts, n).len() <= n,
        found_pairs(keys, texts, n).len() == n ==> forall|i: int|
            0 <= i < n ==> #[trigger] found_pairs(keys, texts, n)[i].0 == keys[i],
    decreases n,
{
    if n > 0 {
        lemma_found_pairs(keys, texts, n - 1);
        let r = found_pairs(keys, texts, n - 1);
        if found_pairs(keys, texts, n).len() == n {
            assert(texts[n - 1] is Some);
            assert forall|i: int| 0 <= i < n implies #[trigger] found_pairs(keys, texts, n)[i].0
                == keys[i] by {
                if i < n - 1 {
                    assert(found_pairs(keys, texts, n)[i] == r[i]);
                }
            }
        }
    }
}

/// Law: in a chapter whose verse keys are all different, the verse-order
/// exercise offers four options with different keys: the next verse once,
/// and never the verse shown. `candidates` are what `distractor_candidates`
/// gives, `texts` the texts looked up for them, the distractors what
/// `pick_distractors` accepts, and `options` what `from_parts` holds.
pub proof fn law_ayah_sequence_options(
    verses: Seq<Verse>,
    current: Seq<char>,
    next: Seq<char>,
    next_text: Seq<char>,
    candidates: Seq<Seq<char>>,
    texts: Seq<Option<Seq<char>>>,
    options: Seq<(Seq<char>, Seq<char>)>,
)
    requires
        keys_of(verses).no_duplicates(),
        next != current,
        candidates.to_multiset() == texts_except(texts_except(keys_of(verses), current), next).to_multiset(),
        found_pairs(candidates, texts, tries(candidates.len() as int, texts.len() as int)).len() >= 3,
        options.to_multiset() == (seq![(next, next_text)] + found_pairs(
            candidates,
            texts,
            tries(candidates.len() as int, texts.len() as int),
        )).to_multiset(),
    ensures
        options.len() == 4,
        distinct_keys(options),
        exists|i: int| 0 <= i < options.len() && #[trigger] options[i].0 == next,
        forall|i: int| 0 <= i < options.len() ==> #[trigger] options[i].0 != current,
{
    let n = tries(candidates.len() as int, texts.len() as int);
    let f = found_pairs(candidates, texts, n);
    lemma_found_pairs(candidates, texts, n);
    assert(n == 3 && f.len() == 3);
    let e1 = texts_except(keys_of(verses), current);
    let e2 = texts_except(e1, next);
    lemma_texts_except_no_dup(keys_of(verses), current);
    lemma_texts_except_no_dup(e1, next);
    lemma_texts_except(e1, next);
    lemma_texts_except(keys_of(verses), current);
    lemma_same_items_no_dup(candidates, e2);
    assert forall|i: int| 0 <= i < candidates.len() implies #[trigger] candidates[i] != next
        && candidates[i] != current by {
        assert(e2.contains(candidates[i]));
        let k = choose|k: int| 0 <= k < e2.len() && e2[k] == candidates[i];
        assert(e2[k] != next && e1.contains(e2[k]));
        let m = choose|m: int| 0 <= m < e1.len() && e1[m] == e2[k];
        assert(e1[m] != current);
    }
    let s = seq![(next, next_text)] + f;
    assert forall|i: int| 0 <= i < 3 implies #[trigger] s[i + 1].0 == candidates[i] by {
        assert(s[i + 1] == f[i]);
    }
    assert(distinct_keys(s)) by {
        assert forall|i: int, j: int| 0 <= i < s.len() && 0 <= j < s.len() && i != j implies #[trigger] s[i].0
            != #[trigger] s[j].0 by {
            if i > 0 {
                assert(s[i].0 == candidates[i - 1]);
            }
            if j > 0 {
                assert(s[j].0 == candidates[j - 1]);
            }
        }
    }
    lemma_same_items_distinct_keys(options, s);
    assert(s.contains(options[0]));
    vstd::seq_lib::to_multiset_contains(s, s[0]);
    vstd::seq_lib::to_multiset_contains(options, s[0]);
    assert(s.contains(s[0]));
    let w = choose|w: int| 0 <= w < options.len() && options[w] == s[0];
    assert(options[w].0 == next);
    assert forall|i: int| 0 <= i < options.len() implies #[trigger] options[i].0 != current by {
        assert(s.contains(options[i]));
        let k = choose|k: int| 0 <= k < s.len() && s[k] == options[i];
        if k > 0 {
            assert(s[k].0 == candidates[k - 1]);
        }
    }
}

} // verus!

use vstd::prelude::*;
use crate::decimal::{int_parse, parse_i32_text};
use crate::exercises::ayah_sequence::{answer_names, names_verse, shuffled_pairs};
use crate::exercises::types::{Exercise, ExerciseError, SemanticGradeLabel, opt_view};
use crate::exercises::verse_words::{
    keys_not_in, keys_of, key_parts, pair_views, split_key, strings_except, strings_not_in,
    take_at_most, texts_except, verse_keys_except, verse_keys_except_none,
};
use crate::models::Verse;
use crate::text::{concat2, concat3, has_prefix, owned, string_views};

verus! {

/// Which verse is connected to a given one, chosen among four verses.
#[derive(Debug)]
pub struct CrossVerseConnectionExercise {
    node_id: String,
    verse_text: String,
    verse_key: String,
    correct_verse_key: String,
    correct_verse_text: String,
    options: Vec<(String, String)>,
}

/// The verse keys of the edge targets that are verses, in order.
pub open spec fn verse_targets(ids: Seq<Seq<char>>) -> Seq<Seq<char>>
    decreases ids.len(),
{
    if ids.len() == 0 {
        Seq::<Seq<char>>::empty()
    } else {
        let r = verse_targets(ids.drop_last());
        let t = ids.last();
        if has_prefix(t, "VERSE:"@) {
            r.push(t.subrange(6, t.len() as int))
        } else {
            r
        }
    }
}

/// The chapters whose first verses serve as distractors.
pub open spec fn distractor_chapter_list() -> Seq<i32> {
    seq![1i32, 2i32, 3i32, 112i32, 113i32, 114i32]
}

/// The items of `s` other than `x`, in order.
pub open spec fn ints_except(s: Seq<i32>, x: i32) -> Seq<i32>
    decreases s.len(),
{
    if s.len() == 0 {
        Seq::<i32>::empty()
    } else {
        let r = ints_except(s.drop_last(), x);
        if s.last() == x {
            r
        } else {
            r.push(s.last())
        }
    }
}

/// The keys of the last `n` verses, last first.
pub open spec fn last_keys(verses: Seq<Verse>, n: int) -> Seq<Seq<char>> {
    take_at_most(keys_of(verses).reverse(), n)
}

impl CrossVerseConnectionExercise {
    /// The node ID of the exercise.
    pub closed spec fn node_view(&self) -> Seq<char> {
        self.node_id@
    }

    /// The text of the verse shown.
    pub closed spec fn verse_text_view(&self) -> Seq<char> {
        self.verse_text@
    }

    /// The key of the verse shown.
    pub closed spec fn verse_key_view(&self) -> Seq<char> {
        self.verse_key@
    }

    /// The key of the connected verse.
    pub closed spec fn correct_key_view(&self) -> Seq<char> {
        self.correct_verse_key@
    }

    /// The text of the connected verse.
    pub closed spec fn correct_text_view(&self) -> Seq<char> {
        self.correct_verse_text@
    }

    /// The options as (key, text) pairs, in the order shown.
    pub closed spec fn options_view(&self) -> Seq<(Seq<char>, Seq<char>)> {
        pair_views(self.options@)
    }

    /// The verse keys of the edge targets that are verses.
    pub fn connected_keys(target_ids: &Vec<String>) -> (r: Vec<String>)
        ensures
            string_views(r@) == verse_targets(string_views(target_ids@)),
    {
        let mut r: Vec<String> = Vec::new();
        let mut i: usize = 0;
        while i < target_ids.len()
            invariant
                i <= target_ids.len(),
                string_views(r@) == verse_targets(string_views(target_ids@).subrange(0, i as int)),
            decreases target_ids.len() - i,
        {
            let ghost sub = string_views(target_ids@).subrange(0, i + 1);
            proof {
                assert(sub.drop_last() =~= string_views(target_ids@).subrange(0, i as int));
                assert(sub.last() == target_ids@[i as int]@);
            }
            match crate::text::strip_prefix_str(target_ids[i].as_str(), "VERSE:") {
                Some(k) => {
                    proof {
                        reveal_strlit("VERSE:");
                    }
                    let ghost before = r@;
                    r.push(k);
                    assert(string_views(r@) =~= string_views(before).push(k@));
                },
                None => {},
            }
            i = i + 1;
        }
        assert(string_views(target_ids@).subrange(0, target_ids@.len() as int) =~= string_views(
            target_ids@,
        ));
        r
    }

    /// The chapter number of a verse key: its part before the first colon.
    pub fn source_chapter(verse_key: &str) -> (r: Result<i32, ExerciseError>)
        ensures
            match (r, int_parse(key_parts(verse_key@)[0], i32::MIN as int, i32::MAX as int)) {
                (Ok(n), Ok(m)) => n as int == m,
                (Err(e), Err(m)) => e.message@ == m,
                _ => false,
            },
    {
        let parts = split_key(verse_key);
        proof {
            crate::text::lemma_split_nonempty(verse_key@, ':');
        }
        match parse_i32_text(parts[0].as_str()) {
            Ok(n) => Ok(n),
            Err(m) => Err(ExerciseError { message: m }),
        }
    }

    /// Where no edge connects the verse: the first of the chapter's first
    /// ten verses other than it.
    pub fn fallback_keys(verses: &Vec<Verse>, source: &str) -> (r: Vec<String>)
        ensures
            string_views(r@) == take_at_most(
                texts_except(take_at_most(keys_of(verses@), 10), source@),
                1,
            ),
    {
        let mut k = verse_keys_except(verses, 10, source);
        k.truncate(1);
        k
    }

    /// The first connected key, or the error naming the verse.
    pub fn first_connected(keys: &Vec<String>, verse_key: &str) -> (r: Result<String, ExerciseError>)
        ensures
            match r {
                Ok(k) => keys@.len() > 0 && k@ == keys@[0]@,
                Err(e) => keys@.len() == 0 && e.message@ == "No connected verses found for: "@
                    + verse_key@,
            },
    {
        if keys.len() == 0 {
            return Err(ExerciseError { message: concat2("No connected verses found for: ", verse_key) });
        }
        Ok(owned(keys[0].as_str()))
    }

    /// The chapters whose first verses serve as distractors, the source
    /// chapter left out.
    pub fn distractor_chapters(source_chapter: i32) -> (r: Vec<i32>)
        ensures
            r@ == ints_except(distractor_chapter_list(), source_chapter),
    {
        let all: [i32; 6] = [1, 2, 3, 112, 113, 114];
        assert(all@ =~= distractor_chapter_list());
        let mut r: Vec<i32> = Vec::new();
        let mut i: usize = 0;
        while i < 6
            invariant
                i <= 6,
                all@ == distractor_chapter_list(),
                r@ == ints_except(all@.subrange(0, i as int), source_chapter),
            decreases 6 - i,
        {
            let c = all[i];
            assert(all@.subrange(0, i + 1).drop_last() =~= all@.subrange(0, i as int));
            if c != source_chapter {
                r.push(c);
            }
            i = i + 1;
        }
        assert(all@.subrange(0, 6) =~= all@);
        r
    }

    /// The keys of a chapter's first three verses that are not excluded.
    pub fn chapter_candidates(verses: &Vec<Verse>, exclude: &Vec<String>) -> (r: Vec<String>)
        ensures
            string_views(r@) == keys_not_in(
                take_at_most(keys_of(verses@), 3),
                string_views(exclude@),
            ),
    {
        let keys = verse_keys_except_none(verses, 3);
        strings_not_in(&keys, exclude)
    }

    /// The keys of the source chapter's last five verses, last first, other
    /// than the source verse and the excluded ones.
    pub fn fallback_candidates(verses: &Vec<Verse>, source: &str, exclude: &Vec<String>) -> (r: Vec<
        String,
    >)
        ensures
            string_views(r@) == keys_not_in(
                texts_except(last_keys(verses@, 5), source@),
                string_views(exclude@),
            ),
    {
        let mut keys: Vec<String> = Vec::new();
        let mut i: usize = verses.len();
        let ghost rev = keys_of(verses@).reverse();
        while i > 0 && keys.len() < 5
            invariant
                i <= verses.len(),
                rev == keys_of(verses@).reverse(),
                keys@.len() == verses.len() - i,
                keys@.len() <= 5,
                string_views(keys@) == rev.take(keys@.len() as int),
            decreases i,
        {
            i = i - 1;
            let ghost before = keys@;
            keys.push(owned(verses[i].key.as_str()));
            proof {
                assert(rev[before.len() as int] == keys_of(verses@)[i as int]);
                assert(string_views(keys@) =~= rev.take(keys@.len() as int));
            }
        }
        proof {
            assert(string_views(keys@) =~= last_keys(verses@, 5));
        }
        let k = strings_except(&keys, source);
        strings_not_in(&k, exclude)
    }

    /// The exercise for a verse whose text, connected verse and distractors
    /// have been looked up; the options are the connected verse and the
    /// first three distractors, in an order left to chance.
    pub fn from_parts(
        node_id: String,
        verse_text: String,
        verse_key: String,
        correct_verse_key: String,
        correct_verse_text: String,
        distractors: Vec<(String, String)>,
    ) -> (r: Self)
        ensures
            r.node_view() == node_id@,
            r.verse_text_view() == verse_text@,
            r.verse_key_view() == verse_key@,
            r.correct_key_view() == correct_verse_key@,
            r.correct_text_view() == correct_verse_text@,
            r.options_view().to_multiset() == (seq![(correct_verse_key@, correct_verse_text@)]
                + take_at_most(pair_views(distractors@), 3)).to_multiset(),
            r.options_view().contains((correct_verse_key@, correct_verse_text@)),
    {
        let mut d = distractors;
        let ghost full = d@;
        d.truncate(3);
        proof {
            assert(pair_views(d@) =~= take_at_most(pair_views(full), 3));
        }
        let options = shuffled_pairs(correct_verse_key.as_str(), correct_verse_text.as_str(), &d);
        CrossVerseConnectionExercise {
            node_id,
            verse_text,
            verse_key,
            correct_verse_key,
            correct_verse_text,
            options,
        }
    }

    /// The options as (key, text) pairs, in the order shown.
    pub fn get_options(&self) -> (r: &[(String, String)])
        ensures
            pair_views(r@) == self.options_view(),
    {
        self.options.as_slice()
    }

    /// The key of the connected verse.
    pub fn get_correct_verse_key(&self) -> (r: &str)
        ensures
            r@ == self.correct_key_view(),
    {
        self.correct_verse_key.as_str()
    }

    /// The node ID of the exercise.
    pub fn get_node_id(&self) -> (r: &str)
        ensures
            r@ == self.node_view(),
    {
        self.node_id.as_str()
    }
}

impl Exercise for CrossVerseConnectionExercise {
    open spec fn valid(&self) -> bool {
        true
    }

    fn generate_question(&self) -> (r: String)
        ensures
            r@ == "This verse:\n\n"@ + self.verse_text_view()
                + "\n\nWhich verse is thematically connected to this one?"@,
    {
        concat3(
            "This verse:\n\n",
            self.verse_text.as_str(),
            "\n\nWhich verse is thematically connected to this one?",
        )
    }

    /// Right when the trimmed answer is the connected verse's key or text.
    fn check_answer(&self, answer: &str, grade: Option<SemanticGradeLabel>) -> (r: bool)
        ensures
            r == names_verse(answer@, self.correct_key_view(), self.correct_text_view()),
    {
        answer_names(answer, self.correct_verse_key.as_str(), self.correct_verse_text.as_str())
    }

    /// The chapter of the connected verse: the part of its key before the
    /// first colon.
    fn get_hint(&self) -> (r: Option<String>)
        ensures
            opt_view(r) == Some(
                "The connected verse is from Surah "@ + key_parts(self.correct_key_view())[0],
            ),
    {
        let parts = split_key(self.correct_verse_key.as_str());
        proof {
            crate::text::lemma_split_nonempty(self.correct_verse_key@, ':');
        }
        Some(concat2("The connected verse is from Surah ", parts[0].as_str()))
    }

    fn get_type_name(&self) -> (r: &'static str)
        ensures
            r@ == "cross_verse_connection"@,
    {
        "cross_verse_connection"
    }
}

} // verus!

use vstd::prelude::*;
use crate::decimal::{int_parse, parse_i32_text};
use crate::exercises::memorization::text_node_id;
use crate::exercises::types::{Exercise, ExerciseError, SemanticGradeLabel, opt_view};
use crate::exercises::verse_words::{colon_join, colon_key, exact_word_parts, key_parts};
use crate::normalize::{char_uppercase, normalize_tag, tag_normal_form, to_uppercase_char};
use crate::rng::{lemma_same_items, shuffle, views_of};
use crate::text::{
    chars_of, concat2, concat3, first_char, owned, str_eq, string_of, string_views, ws_words,
    words_chars,
};

verus! {

/// What stands in for a translation that could not be found.
pub open spec fn missing_translation() -> Seq<char> {
    "[Translation not available]"@
}

/// A translation, or the stand-in where there is none.
pub open spec fn translation_or_default(t: Option<Seq<char>>) -> Seq<char> {
    match t {
        Some(s) => s,
        None => missing_translation(),
    }
}

/// A translation, or the stand-in where there is none.
pub fn translation_or_missing(t: Option<String>) -> (r: String)
    ensures
        r@ == translation_or_default(opt_view(t)),
{
    match t {
        Some(s) => s,
        None => owned("[Translation not available]"),
    }
}

/// `label` followed by the first white-space separated word of `s`, if it
/// has one.
pub open spec fn first_word_hint(label: Seq<char>, s: Seq<char>) -> Option<Seq<char>> {
    if ws_words(s).len() > 0 {
        Some(label + ws_words(s)[0])
    } else {
        None
    }
}

/// `label` followed by the first word of `s`, if it has one.
pub fn labelled_first_word(label: &str, s: &str) -> (r: Option<String>)
    ensures
        opt_view(r) == first_word_hint(label@, s@),
{
    let v = chars_of(s);
    let words = words_chars(&v);
    if words.len() > 0 {
        let w = string_of(&words[0]);
        Some(concat2(label, w.as_str()))
    } else {
        None
    }
}

// ---------------------------------------------------------------------------
// Meaning of a word, graded by meaning
// ---------------------------------------------------------------------------

/// The meaning of a word, typed in English and graded by meaning.
#[derive(Debug)]
pub struct TranslationExercise {
    node_id: i64,
    word_text: String,
    translation: String,
}

impl TranslationExercise {
    pub closed spec fn node_view(&self) -> i64 {
        self.node_id
    }

    /// The word's Arabic text.
    pub closed spec fn word_view(&self) -> Seq<char> {
        self.word_text@
    }

    /// The expected translation.
    pub closed spec fn translation_view(&self) -> Seq<char> {
        self.translation@
    }

    /// The exercise for a word whose text and English translation (if any)
    /// have been looked up for `text_node_id(node_id)`.
    pub fn from_texts(node_id: i64, word_text: String, translation: Option<String>) -> (r: Self)
        ensures
            r.node_view() == node_id,
            r.word_view() == word_text@,
            r.translation_view() == translation_or_default(opt_view(translation)),
    {
        let translation = translation_or_missing(translation);
        TranslationExercise { node_id, word_text, translation }
    }

    /// The expected translation.
    pub fn get_translation(&self) -> (r: &str)
        ensures
            r@ == self.translation_view(),
    {
        self.translation.as_str()
    }

    /// The node ID of the exercise.
    pub fn get_node_id(&self) -> (r: i64)
        ensures
            r == self.node_view(),
    {
        self.node_id
    }
}

impl Exercise for TranslationExercise {
    open spec fn valid(&self) -> bool {
        true
    }

    fn generate_question(&self) -> (r: String)
        ensures
            r@ == "What does '"@ + self.word_view() + "' mean?"@,
    {
        concat3("What does '", self.word_text.as_str(), "' mean?")
    }

    /// Any grade but `Incorrect` counts; without a grade the answer fails.
    fn check_answer(&self, answer: &str, grade: Option<SemanticGradeLabel>) -> (r: bool)
        ensures
            r == (grade is Some && grade != Some(SemanticGradeLabel::Incorrect)),
    {
        match grade {
            Some(SemanticGradeLabel::Incorrect) => false,
            Some(_) => true,
            None => false,
        }
    }

    fn get_hint(&self) -> (r: Option<String>)
        ensures
            opt_view(r) == first_word_hint("Starts with: "@, self.translation_view()),
    {
        labelled_first_word("Starts with: ", self.translation.as_str())
    }

    fn get_type_name(&self) -> (r: &'static str)
        ensures
            r@ == "translation"@,
    {
        "translation"
    }
}

// ---------------------------------------------------------------------------
// Meaning of a word in its verse, chosen among options
// ---------------------------------------------------------------------------

/// The meaning of a word within its verse, chosen among four options.
#[derive(Debug)]
pub struct ContextualTranslationExercise {
    node_id: i64,
    verse_text: String,
    highlighted_word: String,
    correct_answer: String,
    options: Vec<String>,
}

/// The stock distractor for the `n`-th place when the chapter gives too few.
pub open spec fn generic_distractor(n: int) -> Seq<char> {
    if n == 0 {
        "the one"@
    } else if n == 1 {
        "those"@
    } else {
        "it"@
    }
}

/// Whether filling up from `n` distractors with the stock ones ever meets
/// the right answer (the filling would then never end).
pub open spec fn stock_meets(n: int, correct: Seq<char>) -> bool {
    exists|k: int| n <= k < 3 && generic_distractor(k) == correct
}

/// The distractors filled up to three with the stock ones.
pub open spec fn filled_distractors(d: Seq<Seq<char>>) -> Seq<Seq<char>>
    decreases 3 - d.len(),
{
    if d.len() >= 3 {
        d.take(3)
    } else {
        filled_distractors(d.push(generic_distractor(d.len() as int)))
    }
}

impl ContextualTranslationExercise {
    pub closed spec fn node_view(&self) -> i64 {
        self.node_id
    }

    /// The text of the verse.
    pub closed spec fn verse_view(&self) -> Seq<char> {
        self.verse_text@
    }

    /// The word asked about.
    pub closed spec fn word_view(&self) -> Seq<char> {
        self.highlighted_word@
    }

    /// The right translation.
    pub closed spec fn answer_view(&self) -> Seq<char> {
        self.correct_answer@
    }

    /// The options, in the order shown.
    pub closed spec fn options_view(&self) -> Seq<Seq<char>> {
        string_views(self.options@)
    }

    /// The verse key and the chapter of a word key, which must have four
    /// parts.
    pub fn verse_of_word(base: &str) -> (r: Result<(String, String), ExerciseError>)
        ensures
            match r {
                Ok((k, c)) => key_parts(base@).len() == 4 && k@ == colon_join(
                    key_parts(base@)[1],
                    key_parts(base@)[2],
                ) && c@ == key_parts(base@)[1],
                Err(e) => key_parts(base@).len() != 4 && e.message@ == "Invalid word node ID format: "@
                    + base@,
            },
    {
        let parts = exact_word_parts(base)?;
        let k = colon_key(parts[1].as_str(), parts[2].as_str());
        let c = owned(parts[1].as_str());
        Ok((k, c))
    }

    /// The chapter number, read as `str::parse::<i32>` reads it.
    pub fn chapter_number(chapter: &str) -> (r: Result<i32, ExerciseError>)
        ensures
            match (r, int_parse(chapter@, i32::MIN as int, i32::MAX as int)) {
                (Ok(n), Ok(m)) => n as int == m,
                (Err(e), Err(m)) => e.message@ == m,
                _ => false,
            },
    {
        match parse_i32_text(chapter) {
            Ok(n) => Ok(n),
            Err(m) => Err(ExerciseError { message: m }),
        }
    }

    /// Takes a candidate meaning, drawn from the chapter, as a distractor when it
    /// differs from the right answer and is not taken yet. Tells whether the
    /// three distractors are complete.
    pub fn add_distractor(distractors: &mut Vec<String>, candidate: &str, correct: &str) -> (full:
        bool)
        ensures
            string_views(final(distractors)@) == (if candidate@ != correct@ && !string_views(
                old(distractors)@,
            ).contains(candidate@) {
                string_views(old(distractors)@).push(candidate@)
            } else {
                string_views(old(distractors)@)
            }),
            full == (final(distractors)@.len() >= 3),
    {
        if !str_eq(candidate, correct) {
            let mut found = false;
            let mut i: usize = 0;
            while i < distractors.len()
                invariant
                    i <= distractors.len(),
                    found == exists|j: int| 0 <= j < i && distractors@[j]@ == candidate@,
                decreases distractors.len() - i,
            {
                if str_eq(distractors[i].as_str(), candidate) {
                    found = true;
                }
                i = i + 1;
            }
            proof {
                if found {
                    let j = choose|j: int| 0 <= j < distractors@.len() && distractors@[j]@ == candidate@;
                    assert(string_views(distractors@)[j] == candidate@);
                } else {
                    assert forall|j: int| 0 <= j < string_views(distractors@).len() implies string_views(
                        distractors@,
                    )[j] != candidate@ by {
                        assert(string_views(distractors@)[j] == distractors@[j]@);
                    }
                }
            }
            if !found {
                let ghost before = distractors@;
                distractors.push(owned(candidate));
                assert(string_views(distractors@) =~= string_views(before).push(candidate@));
            }
        }
        distractors.len() >= 3
    }

    /// Fills the distractors up to three with the stock ones ("the one",
    /// "those", "it", by place), and keeps the first three. The stock
    /// distractor for a place must differ from the right answer: otherwise
    /// the filling never ends.
    pub fn finish_distractors(distractors: Vec<String>, correct: &str) -> (r: Vec<String>)
        requires
            !stock_meets(distractors@.len() as int, correct@),
        ensures
            string_views(r@) == filled_distractors(string_views(distractors@)),
    {
        let mut d = distractors;
        while d.len() < 3
            invariant
                !stock_meets(d@.len() as int, correct@),
                filled_distractors(string_views(d@)) == filled_distractors(
                    string_views(distractors@),
                ),
            decreases 3 - d.len(),
        {
            let n = d.len();
            let g = if n == 0 {
                "the one"
            } else if n == 1 {
                "those"
            } else {
                "it"
            };
            proof {
                reveal_strlit("the one");
                reveal_strlit("those");
                reveal_strlit("it");
                assert(g@ == generic_distractor(n as int));
                assert(generic_distractor(n as int) != correct@);
                assert(string_views(d@).push(g@).len() == n + 1);
            }
            let ghost before = d@;
            d.push(owned(g));
            proof {
                assert(string_views(d@) =~= string_views(before).push(g@));
                assert(!stock_meets(d@.len() as int, correct@)) by {
                    if stock_meets(d@.len() as int, correct@) {
                        let k = choose|k: int| d@.len() <= k < 3 && generic_distractor(k) == correct@;
                        assert(n <= k < 3);
                    }
                }
            }
        }
        let ghost full = d@;
        d.truncate(3);
        proof {
            assert(string_views(d@) =~= string_views(full).take(3));
        }
        d
    }

    /// The exercise for a word whose text, verse, translation and
    /// distractors have been looked up; the options are the right answer and
    /// the distractors, in an order left to chance.
    pub fn from_parts(
        node_id: i64,
        verse_text: String,
        highlighted_word: String,
        correct_answer: String,
        distractors: &Vec<String>,
    ) -> (r: Self)
        ensures
            r.node_view() == node_id,
            r.verse_view() == verse_text@,
            r.word_view() == highlighted_word@,
            r.answer_view() == correct_answer@,
            r.options_view().to_multiset() == (seq![correct_answer@] + string_views(
                distractors@,
            )).to_multiset(),
            r.options_view().contains(correct_answer@),
    {
        let options = crate::exercises::memorization::shuffled_options(
            correct_answer.as_str(),
            distractors,
        );
        ContextualTranslationExercise { node_id, verse_text, highlighted_word, correct_answer, options }
    }

    /// The options, in the order shown.
    pub fn get_options(&self) -> (r: &[String])
        ensures
            string_views(r@) == self.options_view(),
    {
        self.options.as_slice()
    }

    /// The right translation.
    pub fn get_correct_answer(&self) -> (r: &str)
        ensures
            r@ == self.answer_view(),
    {
        self.correct_answer.as_str()
    }

    /// The node ID of the exercise.
    pub fn get_node_id(&self) -> (r: i64)
        ensures
            r == self.node_view(),
    {
        self.node_id
    }
}

impl Exercise for ContextualTranslationExercise {
    open spec fn valid(&self) -> bool {
        true
    }

    fn generate_question(&self) -> (r: String)
        ensures
            r@ == "In the verse:\n\n"@ + self.verse_view() + "\n\nWhat does '"@ + self.word_view()
                + "' mean in this context?"@,
    {
        let a = concat3("In the verse:\n\n", self.verse_text.as_str(), "\n\nWhat does '");
        concat3(a.as_str(), self.highlighted_word.as_str(), "' mean in this context?")
    }

    /// Right when the trimmed, lower-cased answer equals the trimmed,
    /// lower-cased translation.
    fn check_answer(&self, answer: &str, grade: Option<SemanticGradeLabel>) -> (r: bool)
        ensures
            r == (tag_normal_form(answer@) == tag_normal_form(self.answer_view())),
    {
        let a = normalize_tag(answer);
        let b = normalize_tag(self.correct_answer.as_str());
        str_eq(a.as_str(), b.as_str())
    }

    /// The first character of the translation, in upper case.
    fn get_hint(&self) -> (r: Option<String>)
        ensures
            opt_view(r) == (if self.answer_view().len() > 0 {
                Some("Starts with: "@ + char_uppercase(self.answer_view()[0]))
            } else {
                None
            }),
    {
        match first_char(self.correct_answer.as_str()) {
            Some(c) => {
                let u = to_uppercase_char(c);
                Some(concat2("Starts with: ", u.as_str()))
            },
            None => None,
        }
    }

    fn get_type_name(&self) -> (r: &'static str)
        ensures
            r@ == "contextual_translation"@,
    {
        "contextual_translation"
    }
}

} // verus!

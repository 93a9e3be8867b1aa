use vstd::prelude::*;
use crate::decimal::{format_i64, int_parse, int_str, parse_i32_text, parse_outcome};
use crate::exercises::types::{Exercise, ExerciseError, SemanticGradeLabel, opt_view};
use crate::exercises::verse_words::{
    find_word_at, first_at, has_word_at, key_parts, mark_word, marked_verse, split_key,
};
use crate::models::Word;
use crate::rng::{choose_one, random_index};
use crate::text::{
    chars_of, concat2, concat3, has_prefix, owned, string_of, string_views, trim, trim_chars,
    ws_words, words_chars,
};

verus! {

/// A verse with one word swapped for another; the learner finds the wrong
/// word's position.
#[derive(Debug)]
pub struct FindMistakeExercise {
    node_id: i64,
    verse_key: String,
    correct_verse_text: String,
    modified_verse_text: String,
    mistake_position: i32,
    correct_word: String,
    incorrect_word: String,
}

/// The verse key of a verse node key and its chapter number, or the error.
pub open spec fn mistake_verse(ukey: Seq<char>) -> Result<(Seq<char>, i32), Seq<char>> {
    if !has_prefix(ukey, "VERSE:"@) {
        Err("Invalid verse node ID: "@ + ukey)
    } else {
        let k = ukey.subrange(6, ukey.len() as int);
        let p = key_parts(k);
        if p.len() != 2 {
            Err("Invalid verse key format: "@ + k)
        } else {
            match int_parse(p[0], i32::MIN as int, i32::MAX as int) {
                Ok(c) => Ok((k, c as i32)),
                Err(m) => Err(m),
            }
        }
    }
}

impl FindMistakeExercise {
    pub closed spec fn node_view(&self) -> i64 {
        self.node_id
    }

    pub closed spec fn verse_key_view(&self) -> Seq<char> {
        self.verse_key@
    }

    /// The verse as it should read.
    pub closed spec fn correct_verse_view(&self) -> Seq<char> {
        self.correct_verse_text@
    }

    /// The verse with the wrong word.
    pub closed spec fn modified_view(&self) -> Seq<char> {
        self.modified_verse_text@
    }

    /// The position (from 1) of the wrong word.
    pub closed spec fn position_view(&self) -> i32 {
        self.mistake_position
    }

    /// The word that belongs at the position.
    pub closed spec fn correct_word_view(&self) -> Seq<char> {
        self.correct_word@
    }

    /// The word put in its place.
    pub closed spec fn incorrect_word_view(&self) -> Seq<char> {
        self.incorrect_word@
    }

    /// Reads the verse key and chapter number of a verse node key.
    pub fn verse_of(ukey: &str) -> (r: Result<(String, i32), ExerciseError>)
        ensures
            match (r, mistake_verse(ukey@)) {
                (Ok((k, c)), Ok((k2, c2))) => k@ == k2 && c == c2,
                (Err(e), Err(m)) => e.message@ == m,
                _ => false,
            },
    {
        let k = match crate::text::strip_prefix_str(ukey, "VERSE:") {
            Some(k) => k,
            None => {
                return Err(ExerciseError { message: concat2("Invalid verse node ID: ", ukey) });
            },
        };
        proof {
            reveal_strlit("VERSE:");
        }
        let parts = split_key(k.as_str());
        if parts.len() != 2 {
            return Err(ExerciseError { message: concat2("Invalid verse key format: ", k.as_str()) });
        }
        match parse_i32_text(parts[0].as_str()) {
            Ok(c) => Ok((k, c)),
            Err(m) => Err(ExerciseError { message: m }),
        }
    }

    /// Picks the position of the wrong word: at random among the inner words
    /// (neither the first nor the last) when there are more than three, the
    /// second otherwise. A verse of fewer than three words is refused.
    pub fn pick_position(word_count: usize) -> (r: Result<i32, ExerciseError>)
        requires
            word_count <= i32::MAX,
        ensures
            match r {
                Ok(p) => word_count >= 3 && (if word_count > 3 {
                    2 <= p <= word_count - 1
                } else {
                    p == 2
                }),
                Err(e) => word_count < 3 && e.message@
                    == "Verse too short for Find the Mistake exercise (need at least 3 words)"@,
            },
    {
        if word_count < 3 {
            return Err(
                ExerciseError {
                    message: owned(
                        "Verse too short for Find the Mistake exercise (need at least 3 words)",
                    ),
                },
            );
        }
        if word_count > 3 {
            let i = random_index(1, word_count - 1);
            Ok((i + 1) as i32)
        } else {
            Ok(2)
        }
    }

    /// Picks the replacement word at random among the candidates (the words
    /// of the chapter's other verses that differ from the word it replaces).
    pub fn pick_replacement(candidates: &Vec<String>, chapter: i32) -> (r: Result<
        String,
        ExerciseError,
    >)
        ensures
            match r {
                Ok(w) => exists|i: int| 0 <= i < candidates@.len() && candidates@[i]@ == w@,
                Err(e) => candidates@.len() == 0 && e.message@
                    == "No suitable replacement words found in chapter "@ + int_str(chapter as int),
            },
    {
        let mut indices: Vec<usize> = Vec::new();
        let mut i: usize = 0;
        while i < candidates.len()
            invariant
                i <= candidates.len(),
                indices@.len() == i,
                forall|j: int| 0 <= j < i ==> #[trigger] indices@[j] == j,
            decreases candidates.len() - i,
        {
            indices.push(i);
            i = i + 1;
        }
        match choose_one(&indices) {
            Some(k) => {
                proof {
                    let j = choose|j: int| 0 <= j < indices@.len() && indices@[j] == k;
                    assert(indices@[j] == k);
                }
                let w = owned(candidates[k].as_str());
                assert(candidates@[k as int]@ == w@);
                Ok(w)
            },
            None => {
                let n = string_of(&format_i64(chapter as i64));
                Err(
                    ExerciseError {
                        message: concat2("No suitable replacement words found in chapter ", n.as_str()),
                    },
                )
            },
        }
    }

    /// The verse with `incorrect_word` in place of the word at
    /// `mistake_position`.
    pub fn build_modified_verse(words: &Vec<Word>, mistake_position: i32, incorrect_word: &str) -> (r:
        Result<String, ExerciseError>)
        ensures
            r matches Ok(s) && s@ == marked_verse(words@, mistake_position, incorrect_word@),
    {
        Ok(mark_word(words, mistake_position, incorrect_word))
    }

    /// The exercise for a verse whose text and words have been looked up,
    /// with the position and the replacement chosen. Fails when no word
    /// stands at the position.
    pub fn from_parts(
        node_id: i64,
        verse_key: String,
        correct_verse_text: String,
        words: &Vec<Word>,
        mistake_position: i32,
        incorrect_word: String,
    ) -> (r: Result<Self, ExerciseError>)
        ensures
            match r {
                Ok(e) => {
                    &&& has_word_at(words@, mistake_position)
                    &&& e.node_view() == node_id
                    &&& e.verse_key_view() == verse_key@
                    &&& e.correct_verse_view() == correct_verse_text@
                    &&& e.position_view() == mistake_position
                    &&& e.correct_word_view() == crate::exercises::memorization::text_at(
                        words@,
                        mistake_position,
                    )
                    &&& e.incorrect_word_view() == incorrect_word@
                    &&& e.modified_view() == marked_verse(words@, mistake_position, incorrect_word@)
                },
                Err(err) => !has_word_at(words@, mistake_position) && err.message@
                    == "Word not found at position "@ + int_str(mistake_position as int),
            },
    {
        let i = match find_word_at(words, mistake_position) {
            Some(i) => i,
            None => {
                let n = string_of(&format_i64(mistake_position as i64));
                return Err(ExerciseError { message: concat2("Word not found at position ", n.as_str()) });
            },
        };
        proof {
            crate::exercises::memorization::lemma_text_at(words@, mistake_position, i as int);
        }
        let correct_word = owned(words[i].text_uthmani.as_str());
        let modified_verse_text = mark_word(words, mistake_position, incorrect_word.as_str());
        Ok(
            FindMistakeExercise {
                node_id,
                verse_key,
                correct_verse_text,
                modified_verse_text,
                mistake_position,
                correct_word,
                incorrect_word,
            },
        )
    }

    /// The position (from 1) of the wrong word.
    pub fn get_mistake_position(&self) -> (r: i32)
        ensures
            r == self.position_view(),
    {
        self.mistake_position
    }

    /// The verse with the wrong word.
    pub fn get_modified_verse(&self) -> (r: &str)
        ensures
            r@ == self.modified_view(),
    {
        self.modified_verse_text.as_str()
    }

    /// The word that belongs at the position.
    pub fn get_correct_word(&self) -> (r: &str)
        ensures
            r@ == self.correct_word_view(),
    {
        self.correct_word.as_str()
    }

    /// The word put in its place.
    pub fn get_incorrect_word(&self) -> (r: &str)
        ensures
            r@ == self.incorrect_word_view(),
    {
        self.incorrect_word.as_str()
    }

    /// Whether `position` is that of the wrong word.
    pub fn check_position(&self, position: i32) -> (r: bool)
        ensures
            r == (position == self.position_view()),
    {
        position == self.mistake_position
    }

    /// The verse as it should read.
    pub fn get_correct_verse(&self) -> (r: &str)
        ensures
            r@ == self.correct_verse_view(),
    {
        self.correct_verse_text.as_str()
    }

    /// The node ID of the exercise.
    pub fn get_node_id(&self) -> (r: i64)
        ensures
            r == self.node_view(),
    {
        self.node_id
    }
}

impl Exercise for FindMistakeExercise {
    open spec fn valid(&self) -> bool {
        true
    }

    fn generate_question(&self) -> (r: String)
        ensures
            r@ == "Find the mistake in this verse:\n\n"@ + self.modified_view()
                + "\n\nWhich word is incorrect? (Indicate position 1-"@ + int_str(
                ws_words(self.modified_view()).len() as int,
            ) + ")"@,
    {
        let v = chars_of(self.modified_verse_text.as_str());
        let w = words_chars(&v);
        let n = string_of(&crate::decimal::format_u64(w.len() as u64));
        let a = concat3(
            "Find the mistake in this verse:\n\n",
            self.modified_verse_text.as_str(),
            "\n\nWhich word is incorrect? (Indicate position 1-",
        );
        concat3(a.as_str(), n.as_str(), ")")
    }

    /// Right when the trimmed answer reads as the wrong word's position.
    fn check_answer(&self, answer: &str, grade: Option<SemanticGradeLabel>) -> (r: bool)
        ensures
            r == (crate::decimal::int_parse(trim(answer@), i32::MIN as int, i32::MAX as int)
                == Ok::<int, Seq<char>>(self.position_view() as int)),
    {
        let v = chars_of(answer);
        let t = string_of(&trim_chars(&v));
        match parse_i32_text(t.as_str()) {
            Ok(p) => p == self.mistake_position,
            Err(_) => false,
        }
    }

    fn get_hint(&self) -> (r: Option<String>)
        ensures
            opt_view(r) == Some(
                "This verse is from "@ + self.verse_key_view()
                    + ". Try to recall what it should say."@,
            ),
    {
        Some(concat3("This verse is from ", self.verse_key.as_str(), ". Try to recall what it should say."))
    }

    fn get_type_name(&self) -> (r: &'static str)
        ensures
            r@ == "find_mistake"@,
    {
        "find_mistake"
    }
}

} // verus!

use vstd::prelude::*;
use crate::decimal::{format_i64, int_parse, int_str, parse_i32_text};
use crate::exercises::memorization::arabic_match;
use crate::exercises::types::{Exercise, ExerciseError, SemanticGradeLabel, opt_view};
use crate::exercises::verse_words::{
    colon_join, colon_key, exact_word_parts, find_word_at, first_at, first_char_hint, has_word_at,
    key_parts, labelled_first_char,
};
use crate::models::Word;
use crate::normalize::{arabic_normal_form, normalize_arabic};
use crate::text::{concat2, concat3, owned, string_of};

verus! {

/// The word that follows a given word of a verse, to be typed.
#[derive(Debug)]
pub struct ReverseClozeExercise {
    node_id: i64,
    current_word_text: String,
    verse_text: String,
    next_word_text: String,
    verse_key: String,
}

/// Where a word sits, read from a word key with exactly four parts: its
/// chapter and verse parts, and its position.
pub struct WordPlace {
    pub chapter: String,
    pub verse: String,
    pub position: i32,
}

/// The chapter part, the verse part and the position of a word key with
/// exactly four parts, the position read as `str::parse::<i32>` reads it.
pub open spec fn word_place(base: Seq<char>) -> Result<(Seq<char>, Seq<char>, i32), Seq<char>> {
    let p = key_parts(base);
    if p.len() != 4 {
        Err("Invalid word node ID format: "@ + base)
    } else {
        match int_parse(p[3], i32::MIN as int, i32::MAX as int) {
            Ok(n) => Ok((p[1], p[2], n as i32)),
            Err(m) => Err(m),
        }
    }
}

/// The key of a word instance: `WORD_INSTANCE:chapter:verse:position`.
pub open spec fn instance_key(chapter: Seq<char>, verse: Seq<char>, position: i32) -> Seq<char> {
    "WORD_INSTANCE:"@ + chapter + ":"@ + verse + ":"@ + int_str(position as int)
}

impl ReverseClozeExercise {
    pub closed spec fn node_view(&self) -> i64 {
        self.node_id
    }

    /// The word shown.
    pub closed spec fn current_view(&self) -> Seq<char> {
        self.current_word_text@
    }

    /// The text of the verse.
    pub closed spec fn verse_view(&self) -> Seq<char> {
        self.verse_text@
    }

    /// The word that follows.
    pub closed spec fn next_view(&self) -> Seq<char> {
        self.next_word_text@
    }

    /// The verse key.
    pub closed spec fn verse_key_view(&self) -> Seq<char> {
        self.verse_key@
    }

    /// Reads where a word sits from its key.
    pub fn place_of(base: &str) -> (r: Result<WordPlace, ExerciseError>)
        ensures
            match (r, word_place(base@)) {
                (Ok(p), Ok((c, v, n))) => p.chapter@ == c && p.verse@ == v && p.position == n,
                (Err(e), Err(m)) => e.message@ == m,
                _ => false,
            },
    {
        let parts = exact_word_parts(base)?;
        match parse_i32_text(parts[3].as_str()) {
            Ok(n) => Ok(
                WordPlace {
                    chapter: owned(parts[1].as_str()),
                    verse: owned(parts[2].as_str()),
                    position: n,
                },
            ),
            Err(m) => Err(ExerciseError { message: m }),
        }
    }

    /// The index of the word after the one at `position`. The position must
    /// have a successor among `i32` values.
    pub fn locate_next(words: &Vec<Word>, place: &WordPlace) -> (r: Result<usize, ExerciseError>)
        requires
            place.position < i32::MAX,
        ensures
            match r {
                Ok(i) => first_at(words@, (place.position + 1) as i32, i as int),
                Err(e) => !has_word_at(words@, (place.position + 1) as i32) && e.message@
                    == "No next word found for "@ + place.chapter@ + ":"@ + place.verse@
                    + " position "@ + int_str(place.position as int) + " (end of verse)"@,
            },
    {
        match find_word_at(words, place.position + 1) {
            Some(i) => Ok(i),
            None => {
                let digits = format_i64(place.position as i64);
                let num = string_of(&digits);
                let a = concat3("No next word found for ", place.chapter.as_str(), ":");
                let b = concat3(a.as_str(), place.verse.as_str(), " position ");
                Err(ExerciseError { message: concat3(b.as_str(), num.as_str(), " (end of verse)") })
            },
        }
    }

    /// The key of the word instance at `position` of the verse.
    pub fn next_word_key(place: &WordPlace, position: i32) -> (r: String)
        ensures
            r@ == instance_key(place.chapter@, place.verse@, position),
    {
        let a = concat3("WORD_INSTANCE:", place.chapter.as_str(), ":");
        let b = concat3(a.as_str(), place.verse.as_str(), ":");
        let digits = format_i64(position as i64);
        let num = string_of(&digits);
        concat2(b.as_str(), num.as_str())
    }

    /// The exercise for a word whose text, the text of the word after it and
    /// the text of its verse have been looked up.
    pub fn from_parts(
        node_id: i64,
        current_word_text: String,
        verse_text: String,
        next_word_text: String,
        place: &WordPlace,
    ) -> (r: Self)
        ensures
            r.node_view() == node_id,
            r.current_view() == current_word_text@,
            r.verse_view() == verse_text@,
            r.next_view() == next_word_text@,
            r.verse_key_view() == colon_join(place.chapter@, place.verse@),
    {
        let verse_key = colon_key(place.chapter.as_str(), place.verse.as_str());
        ReverseClozeExercise { node_id, current_word_text, verse_text, next_word_text, verse_key }
    }

    /// The word that follows.
    pub fn get_next_word(&self) -> (r: &str)
        ensures
            r@ == self.next_view(),
    {
        self.next_word_text.as_str()
    }

    /// The node ID of the exercise.
    pub fn get_node_id(&self) -> (r: i64)
        ensures
            r == self.node_view(),
    {
        self.node_id
    }
}

impl Exercise for ReverseClozeExercise {
    open spec fn valid(&self) -> bool {
        true
    }

    fn generate_question(&self) -> (r: String)
        ensures
            r@ == "After the word:\n\n"@ + self.current_view() + "\n\nWhat comes next?"@,
    {
        concat3("After the word:\n\n", self.current_word_text.as_str(), "\n\nWhat comes next?")
    }

    fn check_answer(&self, answer: &str, grade: Option<SemanticGradeLabel>) -> (r: bool)
        ensures
            r == arabic_match(answer@, self.next_view()),
    {
        let a = normalize_arabic(answer);
        let b = normalize_arabic(self.next_word_text.as_str());
        crate::text::str_eq(a.as_str(), b.as_str())
    }

    /// The first letter of the next word, once normalized.
    fn get_hint(&self) -> (r: Option<String>)
        ensures
            opt_view(r) == first_char_hint("Starts with: "@, arabic_normal_form(self.next_view())),
    {
        let n = normalize_arabic(self.next_word_text.as_str());
        labelled_first_char("Starts with: ", n.as_str())
    }

    fn get_type_name(&self) -> (r: &'static str)
        ensures
            r@ == "reverse_cloze"@,
    {
        "reverse_cloze"
    }
}

} // verus!

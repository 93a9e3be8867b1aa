use vstd::prelude::*;
use crate::decimal::{format_i64, int_parse, int_str, parse_i32_text};
use crate::exercises::memorization::arabic_match;
use crate::exercises::translation::{first_word_hint, labelled_first_word};
use crate::exercises::types::{Exercise, ExerciseError, SemanticGradeLabel, opt_view};
use crate::exercises::verse_words::{colon_join, colon_key, key_parts, split_key};
use crate::normalize::{arabic_normal_form, normalize_arabic};
use crate::text::{concat2, concat3, owned, str_eq, string_of};

verus! {

/// A whole verse, typed from memory.
#[derive(Debug)]
pub struct FullVerseInputExercise {
    node_id: i64,
    verse_key: String,
    chapter_name: String,
    verse_number: i32,
    correct_verse_text: String,
}

/// The chapter and verse numbers of a verse key `VERSE:chapter:verse`, read
/// as `str::parse::<i32>` reads them.
pub open spec fn verse_numbers(base: Seq<char>) -> Result<(i32, i32), Seq<char>> {
    let p = key_parts(base);
    if p.len() != 3 {
        Err("Invalid verse node ID format: "@ + base)
    } else {
        match (
            int_parse(p[1], i32::MIN as int, i32::MAX as int),
            int_parse(p[2], i32::MIN as int, i32::MAX as int),
        ) {
            (Err(m), _) => Err(m),
            (Ok(_), Err(m)) => Err(m),
            (Ok(c), Ok(v)) => Ok((c as i32, v as i32)),
        }
    }
}

impl FullVerseInputExercise {
    pub closed spec fn node_view(&self) -> i64 {
        self.node_id
    }

    /// The verse key, such as `1:1`.
    pub closed spec fn verse_key_view(&self) -> Seq<char> {
        self.verse_key@
    }

    /// The name of the chapter.
    pub closed spec fn chapter_name_view(&self) -> Seq<char> {
        self.chapter_name@
    }

    /// The number of the verse.
    pub closed spec fn verse_number_view(&self) -> i32 {
        self.verse_number
    }

    /// The verse's text.
    pub closed spec fn text_view(&self) -> Seq<char> {
        self.correct_verse_text@
    }

    /// Reads the chapter and verse numbers of a verse key.
    pub fn numbers_of(base: &str) -> (r: Result<(i32, i32), ExerciseError>)
        ensures
            match (r, verse_numbers(base@)) {
                (Ok((c, v)), Ok((c2, v2))) => c == c2 && v == v2,
                (Err(e), Err(m)) => e.message@ == m,
                _ => false,
            },
    {
        let parts = split_key(base);
        if parts.len() != 3 {
            return Err(ExerciseError { message: concat2("Invalid verse node ID format: ", base) });
        }
        let c = match parse_i32_text(parts[1].as_str()) {
            Ok(n) => n,
            Err(m) => {
                return Err(ExerciseError { message: m });
            },
        };
        let v = match parse_i32_text(parts[2].as_str()) {
            Ok(n) => n,
            Err(m) => {
                return Err(ExerciseError { message: m });
            },
        };
        Ok((c, v))
    }

    /// The key of a chapter node: `CHAPTER:n`.
    pub fn chapter_key(chapter: i32) -> (r: String)
        ensures
            r@ == "CHAPTER:"@ + int_str(chapter as int),
    {
        let n = string_of(&format_i64(chapter as i64));
        concat2("CHAPTER:", n.as_str())
    }

    /// The exercise for a verse whose text and chapter name have been looked
    /// up.
    pub fn from_parts(
        node_id: i64,
        chapter: i32,
        verse_number: i32,
        correct_verse_text: String,
        chapter_name: String,
    ) -> (r: Self)
        ensures
            r.node_view() == node_id,
            r.verse_key_view() == colon_join(int_str(chapter as int), int_str(verse_number as int)),
            r.chapter_name_view() == chapter_name@,
            r.verse_number_view() == verse_number,
            r.text_view() == correct_verse_text@,
    {
        let c = string_of(&format_i64(chapter as i64));
        let v = string_of(&format_i64(verse_number as i64));
        let verse_key = colon_key(c.as_str(), v.as_str());
        FullVerseInputExercise { node_id, verse_key, chapter_name, verse_number, correct_verse_text }
    }

    /// The verse's text.
    pub fn get_correct_verse(&self) -> (r: &str)
        ensures
            r@ == self.text_view(),
    {
        self.correct_verse_text.as_str()
    }

    /// The verse key.
    pub fn get_verse_key(&self) -> (r: &str)
        ensures
            r@ == self.verse_key_view(),
    {
        self.verse_key.as_str()
    }

    /// The node ID of the exercise.
    pub fn get_node_id(&self) -> (r: i64)
        ensures
            r == self.node_view(),
    {
        self.node_id
    }
}

impl Exercise for FullVerseInputExercise {
    open spec fn valid(&self) -> bool {
        true
    }

    fn generate_question(&self) -> (r: String)
        ensures
            r@ == "Type the complete verse:\n\n"@ + self.chapter_name_view() + ", verse "@ + int_str(
                self.verse_number_view() as int,
            ),
    {
        let a = concat3("Type the complete verse:\n\n", self.chapter_name.as_str(), ", verse ");
        let n = string_of(&format_i64(self.verse_number as i64));
        concat2(a.as_str(), n.as_str())
    }

    fn check_answer(&self, answer: &str, grade: Option<SemanticGradeLabel>) -> (r: bool)
        ensures
            r == arabic_match(answer@, self.text_view()),
    {
        let a = normalize_arabic(answer);
        let b = normalize_arabic(self.correct_verse_text.as_str());
        str_eq(a.as_str(), b.as_str())
    }

    /// The first word of the verse, once normalized.
    fn get_hint(&self) -> (r: Option<String>)
        ensures
            opt_view(r) == first_word_hint("Starts with: "@, arabic_normal_form(self.text_view())),
    {
        let n = normalize_arabic(self.correct_verse_text.as_str());
        labelled_first_word("Starts with: ", n.as_str())
    }

    fn get_type_name(&self) -> (r: &'static str)
        ensures
            r@ == "full_verse_input"@,
    {
        "full_verse_input"
    }
}

} // verus!

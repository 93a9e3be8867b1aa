use vstd::prelude::*;
use crate::decimal::{format_i64, int_parse, int_str, parse_i32_text};
use crate::exercises::types::{Exercise, ExerciseError, SemanticGradeLabel, opt_view};
use crate::exercises::verse_words::{colon_join, colon_key, key_parts, split_key};
use crate::normalize::{english_normal_form, normalize_english};
use crate::text::{
    chars_of, concat2, concat3, has_prefix, owned, starts_with_str, str_eq, string_of, ws_words,
    words_chars,
};

verus! {

/// Translating a verse or a word into English, typed.
#[derive(Debug)]
pub struct TranslatePhraseExercise {
    pub node_id: i64,
    arabic_text: String,
    correct_translation: String,
    verse_key: Option<String>,
}

/// What a phrase to translate is: a verse, or a word at a position of a verse.
#[derive(Debug, Clone, PartialEq)]
pub enum PhraseTarget {
    Verse { verse_key: String },
    Word { verse_key: String, position: i32 },
}

/// The value of a parse outcome, or its error.
pub open spec fn parse_step(s: Seq<char>) -> Result<int, Seq<char>> {
    int_parse(s, i32::MIN as int, i32::MAX as int)
}

/// What a phrase key names: `(verse key, None)` for a verse, `(verse key,
/// Some(position))` for a word instance (the numbers read back in decimal),
/// or the error.
pub open spec fn phrase_target(ukey: Seq<char>) -> Result<(Seq<char>, Option<i32>), Seq<char>> {
    let p = key_parts(ukey);
    if has_prefix(ukey, "VERSE:"@) {
        if p.len() != 3 {
            Err("Invalid verse node ID format: "@ + ukey)
        } else {
            Ok((colon_join(p[1], p[2]), None))
        }
    } else if has_prefix(ukey, "WORD_INSTANCE:"@) {
        if p.len() != 4 {
            Err("Invalid word node ID format: "@ + ukey)
        } else {
            match (parse_step(p[1]), parse_step(p[2]), parse_step(p[3])) {
                (Err(m), _, _) => Err(m),
                (Ok(_), Err(m), _) => Err(m),
                (Ok(_), Ok(_), Err(m)) => Err(m),
                (Ok(c), Ok(v), Ok(n)) => Ok((colon_join(int_str(c), int_str(v)), Some(n as i32))),
            }
        }
    } else {
        Err("Unsupported node type for translation exercise: "@ + ukey)
    }
}

/// The hint: the first three words of the translation when it has more,
/// else its first word.
pub open spec fn phrase_hint(t: Seq<char>) -> Option<Seq<char>> {
    let w = ws_words(t);
    if w.len() > 3 {
        Some("Starts with: "@ + w[0] + " "@ + w[1] + " "@ + w[2] + "..."@)
    } else if w.len() > 0 {
        Some("Starts with: "@ + w[0] + "..."@)
    } else {
        None
    }
}

fn parse_number(s: &str) -> (r: Result<i32, ExerciseError>)
    ensures
        match (r, parse_step(s@)) {
            (Ok(n), Ok(m)) => n as int == m,
            (Err(e), Err(m)) => e.message@ == m,
            _ => false,
        },
{
    match parse_i32_text(s) {
        Ok(n) => Ok(n),
        Err(m) => Err(ExerciseError { message: m }),
    }
}

impl TranslatePhraseExercise {
    pub closed spec fn node_view(&self) -> i64 {
        self.node_id
    }

    /// The Arabic text to translate.
    pub closed spec fn arabic_view(&self) -> Seq<char> {
        self.arabic_text@
    }

    /// The expected translation.
    pub closed spec fn translation_view(&self) -> Seq<char> {
        self.correct_translation@
    }

    /// The verse key, where there is one.
    pub closed spec fn verse_key_view(&self) -> Option<Seq<char>> {
        opt_view(self.verse_key)
    }

    /// Reads what a phrase key names.
    pub fn target_of(ukey: &str) -> (r: Result<PhraseTarget, ExerciseError>)
        ensures
            match (r, phrase_target(ukey@)) {
                (Ok(PhraseTarget::Verse { verse_key }), Ok((k, None))) => verse_key@ == k,
                (Ok(PhraseTarget::Word { verse_key, position }), Ok((k, Some(n)))) => verse_key@
                    == k && position == n,
                (Err(e), Err(m)) => e.message@ == m,
                _ => false,
            },
    {
        let parts = split_key(ukey);
        if starts_with_str(ukey, "VERSE:") {
            if parts.len() != 3 {
                return Err(ExerciseError { message: concat2("Invalid verse node ID format: ", ukey) });
            }
            Ok(PhraseTarget::Verse { verse_key: colon_key(parts[1].as_str(), parts[2].as_str()) })
        } else if starts_with_str(ukey, "WORD_INSTANCE:") {
            if parts.len() != 4 {
                return Err(ExerciseError { message: concat2("Invalid word node ID format: ", ukey) });
            }
            let chapter = parse_number(parts[1].as_str())?;
            let verse = parse_number(parts[2].as_str())?;
            let position = parse_number(parts[3].as_str())?;
            let c = string_of(&format_i64(chapter as i64));
            let v = string_of(&format_i64(verse as i64));
            Ok(PhraseTarget::Word { verse_key: colon_key(c.as_str(), v.as_str()), position })
        } else {
            Err(
                ExerciseError {
                    message: concat2("Unsupported node type for translation exercise: ", ukey),
                },
            )
        }
    }

    /// The exercise for a phrase whose Arabic text and translation have been
    /// looked up.
    pub fn from_parts(
        node_id: i64,
        arabic_text: String,
        correct_translation: String,
        verse_key: Option<String>,
    ) -> (r: Self)
        ensures
            r.node_view() == node_id,
            r.arabic_view() == arabic_text@,
            r.translation_view() == correct_translation@,
            r.verse_key_view() == opt_view(verse_key),
    {
        TranslatePhraseExercise { node_id, arabic_text, correct_translation, verse_key }
    }

    /// Normalizes English for comparison: lower case, punctuation dropped,
    /// single spaces.
    pub fn normalize_english(text: &str) -> (r: String)
        ensures
            r@ == english_normal_form(text@),
    {
        normalize_english(text)
    }

    /// The expected translation.
    pub fn get_correct_translation(&self) -> (r: &str)
        ensures
            r@ == self.translation_view(),
    {
        self.correct_translation.as_str()
    }

    /// The Arabic text.
    pub fn get_arabic_text(&self) -> (r: &str)
        ensures
            r@ == self.arabic_view(),
    {
        self.arabic_text.as_str()
    }

    /// The verse key, where there is one.
    pub fn get_verse_key(&self) -> (r: Option<&str>)
        ensures
            match (r, self.verse_key_view()) {
                (Some(s), Some(k)) => s@ == k,
                (None, None) => true,
                _ => false,
            },
    {
        match &self.verse_key {
            Some(k) => Some(k.as_str()),
            None => None,
        }
    }

    /// The node ID of the exercise.
    pub fn get_node_id(&self) -> (r: i64)
        ensures
            r == self.node_view(),
    {
        self.node_id
    }
}

impl Exercise for TranslatePhraseExercise {
    open spec fn valid(&self) -> bool {
        true
    }

    fn generate_question(&self) -> (r: String)
        ensures
            r@ == "Translate to English:\n\n"@ + self.arabic_view()
                + "\n\nType the English translation:"@,
    {
        concat3(
            "Translate to English:\n\n",
            self.arabic_text.as_str(),
            "\n\nType the English translation:",
        )
    }

    fn check_answer(&self, answer: &str, grade: Option<SemanticGradeLabel>) -> (r: bool)
        ensures
            r == (english_normal_form(answer@) == english_normal_form(self.translation_view())),
    {
        let a = normalize_english(answer);
        let b = normalize_english(self.correct_translation.as_str());
        str_eq(a.as_str(), b.as_str())
    }

    fn get_hint(&self) -> (r: Option<String>)
        ensures
            opt_view(r) == phrase_hint(self.translation_view()),
    {
        let v = chars_of(self.correct_translation.as_str());
        let w = words_chars(&v);
        if w.len() > 3 {
            let w0 = string_of(&w[0]);
            let w1 = string_of(&w[1]);
            let w2 = string_of(&w[2]);
            let a = concat3("Starts with: ", w0.as_str(), " ");
            let b = concat3(a.as_str(), w1.as_str(), " ");
            Some(concat3(b.as_str(), w2.as_str(), "..."))
        } else if w.len() > 0 {
            let w0 = string_of(&w[0]);
            Some(concat3("Starts with: ", w0.as_str(), "..."))
        } else {
            None
        }
    }

    fn get_type_name(&self) -> (r: &'static str)
        ensures
            r@ == "translate_phrase"@,
    {
        "translate_phrase"
    }
}

} // verus!

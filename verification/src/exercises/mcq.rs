use vstd::prelude::*;
use crate::exercises::memorization::shuffled_options;
use crate::exercises::translation::{translation_or_default, translation_or_missing};
use crate::exercises::types::{Exercise, SemanticGradeLabel, opt_view};
use crate::exercises::verse_words::{strings_except, take_at_most, texts_except};
use crate::normalize::{normalize_tag, str_lowercase, tag_normal_form, to_lowercase};
use crate::text::{concat2, concat3, owned, str_eq, string_views};

verus! {

/// Which way a multiple-choice question translates.
#[derive(Debug, Clone, Copy, PartialEq, Eq, Structural)]
pub enum McqType {
    /// An Arabic word, its English meaning to be chosen.
    ArToEn,
    /// An English meaning, its Arabic word to be chosen.
    EnToAr,
}

/// A multiple-choice question on the meaning of a word.
#[derive(Debug)]
pub struct McqExercise {
    node_id: String,
    question: String,
    correct_answer: String,
    options: Vec<String>,
    mcq_type: McqType,
}

/// The English translations that serve as distractors.
pub open spec fn common_translations() -> Seq<Seq<char>> {
    seq![
        "the merciful"@,
        "the compassionate"@,
        "the lord"@,
        "the sustainer"@,
        "the creator"@,
        "the master"@,
        "the king"@,
        "the judge"@,
        "the guide"@,
        "the protector"@,
    ]
}

/// The Arabic words that serve as distractors.
pub open spec fn common_words() -> Seq<Seq<char>> {
    seq![
        "\u{0671}\u{0644}\u{0652}\u{062d}\u{064e}\u{0645}\u{0652}\u{062f}\u{064f}"@,
        "\u{0631}\u{064e}\u{0628}\u{0650}\u{0651}"@,
        "\u{0671}\u{0644}\u{0652}\u{0639}\u{064e}\u{0670}\u{0644}\u{064e}\u{0645}\u{0650}\u{064a}\u{0646}\u{064e}"@,
        "\u{0671}\u{0644}\u{0631}\u{064e}\u{0651}\u{062d}\u{0652}\u{0645}\u{064e}\u{0670}\u{0646}\u{0650}"@,
        "\u{0671}\u{0644}\u{0631}\u{064e}\u{0651}\u{062d}\u{0650}\u{064a}\u{0645}\u{0650}"@,
        "\u{0645}\u{064e}\u{0670}\u{0644}\u{0650}\u{0643}\u{0650}"@,
        "\u{064a}\u{064e}\u{0648}\u{0652}\u{0645}\u{0650}"@,
        "\u{0671}\u{0644}\u{062f}\u{0650}\u{0651}\u{064a}\u{0646}\u{0650}"@,
    ]
}

/// The first option whose normal form differs from that of the answer.
pub open spec fn first_wrong(options: Seq<Seq<char>>, answer: Seq<char>) -> Option<Seq<char>>
    decreases options.len(),
{
    if options.len() == 0 {
        None
    } else if tag_normal_form(options[0]) != tag_normal_form(answer) {
        Some(options[0])
    } else {
        first_wrong(options.drop_first(), answer)
    }
}

pub(crate) fn strings_of(items: &[&str]) -> (r: Vec<String>)
    ensures
        string_views(r@) == items@.map_values(|s: &str| s@),
{
    let mut r: Vec<String> = Vec::new();
    let mut i: usize = 0;
    while i < items.len()
        invariant
            i <= items.len(),
            string_views(r@) == items@.subrange(0, i as int).map_values(|s: &str| s@),
        decreases items.len() - i,
    {
        let ghost before = r@;
        r.push(owned(items[i]));
        proof {
            assert(string_views(r@) =~= string_views(before).push(items@[i as int]@));
            assert(items@.subrange(0, i + 1).map_values(|s: &str| s@) =~= items@.subrange(
                0,
                i as int,
            ).map_values(|s: &str| s@).push(items@[i as int]@));
        }
        i = i + 1;
    }
    assert(items@.subrange(0, items@.len() as int) =~= items@);
    r
}

impl McqExercise {
    /// The node ID of the exercise.
    pub closed spec fn node_view(&self) -> Seq<char> {
        self.node_id@
    }

    /// The question.
    pub closed spec fn question_view(&self) -> Seq<char> {
        self.question@
    }

    /// The right answer.
    pub closed spec fn answer_view(&self) -> Seq<char> {
        self.correct_answer@
    }

    /// The options, in the order shown.
    pub closed spec fn options_view(&self) -> Seq<Seq<char>> {
        string_views(self.options@)
    }

    /// Which way the question translates.
    pub closed spec fn type_view(&self) -> McqType {
        self.mcq_type
    }

    /// The question on an Arabic word whose text and English translation (if
    /// any) have been looked up: its meaning among the translation and three
    /// common ones.
    pub fn from_ar_to_en(node_id: String, word_text: &str, translation: Option<String>) -> (r: Self)
        ensures
            r.node_view() == node_id@,
            r.question_view() == "What does '"@ + word_text@ + "' mean?"@,
            r.answer_view() == translation_or_default(opt_view(translation)),
            r.type_view() == McqType::ArToEn,
            r.options_view().to_multiset() == (seq![r.answer_view()] + take_at_most(
                texts_except(common_translations(), str_lowercase(r.answer_view())),
                3,
            )).to_multiset(),
            r.options_view().contains(r.answer_view()),
    {
        let correct_answer = translation_or_missing(translation);
        let distractors = Self::generate_translation_distractors(correct_answer.as_str(), 3);
        let options = shuffled_options(correct_answer.as_str(), &distractors);
        let question = concat3("What does '", word_text, "' mean?");
        McqExercise { node_id, question, correct_answer, options, mcq_type: McqType::ArToEn }
    }

    /// The question on an English meaning: the Arabic word among it and three
    /// common words.
    pub fn from_en_to_ar(node_id: String, word_text: String, translation: Option<String>) -> (r:
        Self)
        ensures
            r.node_view() == node_id@,
            r.question_view() == "Which Arabic word means '"@ + translation_or_default(
                opt_view(translation),
            ) + "'?"@,
            r.answer_view() == word_text@,
            r.type_view() == McqType::EnToAr,
            r.options_view().to_multiset() == (seq![word_text@] + take_at_most(
                texts_except(common_words(), word_text@),
                3,
            )).to_multiset(),
            r.options_view().contains(word_text@),
    {
        let t = translation_or_missing(translation);
        let distractors = Self::generate_arabic_distractors(word_text.as_str(), 3);
        let options = shuffled_options(word_text.as_str(), &distractors);
        let question = concat3("Which Arabic word means '", t.as_str(), "'?");
        McqExercise { node_id, question, correct_answer: word_text, options, mcq_type: McqType::EnToAr }
    }

    /// The options, in the order shown.
    pub fn get_options(&self) -> (r: &[String])
        ensures
            string_views(r@) == self.options_view(),
    {
        self.options.as_slice()
    }

    /// Which way the question translates.
    pub fn get_mcq_type(&self) -> (r: McqType)
        ensures
            r == self.type_view(),
    {
        self.mcq_type
    }

    /// The node ID of the exercise.
    pub fn get_node_id(&self) -> (r: &str)
        ensures
            r@ == self.node_view(),
    {
        self.node_id.as_str()
    }

    /// At most `count` common English translations, in their order, other
    /// than the lower-cased right answer.
    pub fn generate_translation_distractors(correct: &str, count: usize) -> (r: Vec<String>)
        ensures
            string_views(r@) == take_at_most(
                texts_except(common_translations(), str_lowercase(correct@)),
                count as int,
            ),
    {
        let list = strings_of(
            &[
                "the merciful",
                "the compassionate",
                "the lord",
                "the sustainer",
                "the creator",
                "the master",
                "the king",
                "the judge",
                "the guide",
                "the protector",
            ],
        );
        proof {
            reveal_strlit("the merciful");
            assert(string_views(list@) =~= common_translations());
        }
        let lower = to_lowercase(correct);
        let mut d = strings_except(&list, lower.as_str());
        d.truncate(count);
        d
    }

    /// At most `count` common Arabic words, in their order, other than the
    /// right answer.
    pub fn generate_arabic_distractors(correct: &str, count: usize) -> (r: Vec<String>)
        ensures
            string_views(r@) == take_at_most(texts_except(common_words(), correct@), count as int),
    {
        let list = strings_of(
            &[
                "\u{0671}\u{0644}\u{0652}\u{062d}\u{064e}\u{0645}\u{0652}\u{062f}\u{064f}",
                "\u{0631}\u{064e}\u{0628}\u{0650}\u{0651}",
                "\u{0671}\u{0644}\u{0652}\u{0639}\u{064e}\u{0670}\u{0644}\u{064e}\u{0645}\u{0650}\u{064a}\u{0646}\u{064e}",
                "\u{0671}\u{0644}\u{0631}\u{064e}\u{0651}\u{062d}\u{0652}\u{0645}\u{064e}\u{0670}\u{0646}\u{0650}",
                "\u{0671}\u{0644}\u{0631}\u{064e}\u{0651}\u{062d}\u{0650}\u{064a}\u{0645}\u{0650}",
                "\u{0645}\u{064e}\u{0670}\u{0644}\u{0650}\u{0643}\u{0650}",
                "\u{064a}\u{064e}\u{0648}\u{0652}\u{0645}\u{0650}",
                "\u{0671}\u{0644}\u{062f}\u{0650}\u{0651}\u{064a}\u{0646}\u{0650}",
            ],
        );
        proof {
            assert(string_views(list@) =~= common_words());
        }
        let mut d = strings_except(&list, correct);
        d.truncate(count);
        d
    }

    /// Normalizes an answer for comparison: trimmed and lower-cased.
    pub fn normalize(text: &str) -> (r: String)
        ensures
            r@ == tag_normal_form(text@),
    {
        normalize_tag(text)
    }
}

impl Exercise for McqExercise {
    open spec fn valid(&self) -> bool {
        true
    }

    fn generate_question(&self) -> (r: String)
        ensures
            r@ == self.question_view(),
    {
        owned(self.question.as_str())
    }

    fn check_answer(&self, answer: &str, grade: Option<SemanticGradeLabel>) -> (r: bool)
        ensures
            r == (tag_normal_form(answer@) == tag_normal_form(self.answer_view())),
    {
        let a = normalize_tag(answer);
        let b = normalize_tag(self.correct_answer.as_str());
        str_eq(a.as_str(), b.as_str())
    }

    /// Names the first option that is not the answer.
    fn get_hint(&self) -> (r: Option<String>)
        ensures
            opt_view(r) == (match first_wrong(self.options_view(), self.answer_view()) {
                Some(o) => Some("It's not: "@ + o),
                None => None,
            }),
    {
        let correct = normalize_tag(self.correct_answer.as_str());
        let mut i: usize = 0;
        assert(self.options_view().subrange(0, self.options_view().len() as int) =~= self.options_view());
        while i < self.options.len()
            invariant
                i <= self.options.len(),
                correct@ == tag_normal_form(self.answer_view()),
                first_wrong(self.options_view(), self.answer_view()) == first_wrong(
                    self.options_view().subrange(i as int, self.options_view().len() as int),
                    self.answer_view(),
                ),
            decreases self.options.len() - i,
        {
            let ghost rest = self.options_view().subrange(i as int, self.options_view().len() as int);
            assert(rest[0] == self.options@[i as int]@);
            assert(rest.drop_first() =~= self.options_view().subrange(
                i + 1,
                self.options_view().len() as int,
            ));
            let o = normalize_tag(self.options[i].as_str());
            if !str_eq(o.as_str(), correct.as_str()) {
                return Some(concat2("It's not: ", self.options[i].as_str()));
            }
            i = i + 1;
        }
        assert(self.options_view().subrange(i as int, self.options_view().len() as int).len() == 0);
        None
    }

    fn get_type_name(&self) -> (r: &'static str)
        ensures
            r@ == (match self.type_view() {
                McqType::ArToEn => "mcq_ar_to_en"@,
                McqType::EnToAr => "mcq_en_to_ar"@,
            }),
    {
        match self.mcq_type {
            McqType::ArToEn => "mcq_ar_to_en",
            McqType::EnToAr => "mcq_en_to_ar",
        }
    }
}

} // verus!

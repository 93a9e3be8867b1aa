use vstd::prelude::*;
use crate::decimal::{format_i64, int_str};
use crate::exercises::exercise_data::ExerciseData;
use crate::exercises::types::{ExerciseError, opt_view};
use crate::normalize::{
    arabic_normal_form, english_normal_form, normalize_arabic as normalize_arabic_text,
    normalize_english as normalize_english_text, normalize_tag, tag_normal_form,
};
use crate::text::{
    chars_of, concat2, concat3, join, join_chars, owned, str_eq, string_of, string_views, views,
};

verus! {

/// An answer as the learner gives it.
#[derive(Debug, Clone, PartialEq)]
#[allow(inconsistent_fields)]
pub enum AnswerInput {
    /// Free text (Arabic or English).
    Text { value: String },
    /// A position, counting from 1.
    Position { value: i32 },
    /// A selected word or node.
    WordId { value: String },
    /// A verse reference such as "1:1".
    VerseKey { value: String },
    /// The index of a chosen option, counting from 0.
    OptionIndex { value: usize },
    /// An ordered list of IDs.
    Sequence { values: Vec<String> },
}

/// The verdict on an answer.
#[derive(Debug, Clone)]
pub struct ValidationResult {
    pub is_correct: bool,
    pub feedback: Option<String>,
    pub semantic_grade: Option<String>,
    pub correct_answer: Option<String>,
}

/// The expected answer of an exercise.
#[derive(Debug, Clone, PartialEq)]
#[allow(inconsistent_fields)]
pub enum AnswerKeys {
    Text { value: String },
    Position { value: i32 },
    WordId { value: String },
    Sequence { values: Vec<String> },
    Root { letters: String },
    PosTag { value: String },
}

/// The validator of the answers that need no content lookups.
pub struct DefaultValidator;

/// A verdict as a value: correctness, feedback and the revealed answer.
pub open spec fn verdict(r: ValidationResult) -> (bool, Option<Seq<char>>, Option<Seq<char>>) {
    (r.is_correct, opt_view(r.feedback), opt_view(r.correct_answer))
}

/// The decimal spellings of a sequence of IDs.
pub open spec fn id_strings(ids: Seq<i64>) -> Seq<Seq<char>> {
    ids.map_values(|i: i64| int_str(i as int))
}

/// What `validate` gives for an exercise and an answer.
pub open spec fn spec_validate(ex: ExerciseData, ans: AnswerInput) -> Result<
    (bool, Option<Seq<char>>, Option<Seq<char>>),
    Seq<char>,
> {
    match ex {
        ExerciseData::Memorization { .. } => match ans {
            AnswerInput::Text { .. } => Err(
                "Memorization validation requires async content fetching - use ExerciseService"@,
            ),
            _ => Ok((false, Some("Expected text input"@), None)),
        },
        ExerciseData::FindMistake { mistake_position, .. } => match ans {
            AnswerInput::Position { value } => if value == mistake_position {
                Ok((true, Some("Correct!"@), None))
            } else {
                Ok(
                    (
                        false,
                        Some("The mistake is at position "@ + int_str(mistake_position as int)),
                        Some(int_str(mistake_position as int)),
                    ),
                )
            },
            _ => Ok(
                (false, Some("Expected position input"@), Some(int_str(mistake_position as int))),
            ),
        },
        ExerciseData::IdentifyRoot { root, .. } => match ans {
            AnswerInput::Text { value } => if arabic_normal_form(value@) == arabic_normal_form(
                root@,
            ) {
                Ok((true, Some("Correct!"@), None))
            } else {
                Ok((false, Some("The root is: "@ + root@), Some(root@)))
            },
            _ => Ok((false, Some("Expected text input"@), Some(root@))),
        },
        ExerciseData::PosTagging { correct_pos, .. } => match ans {
            AnswerInput::Text { value } => if tag_normal_form(value@) == tag_normal_form(
                correct_pos@,
            ) {
                Ok((true, Some("Correct!"@), None))
            } else {
                Ok(
                    (
                        false,
                        Some("The correct part of speech is: "@ + correct_pos@),
                        Some(correct_pos@),
                    ),
                )
            },
            _ => Ok((false, Some("Expected text input"@), Some(correct_pos@))),
        },
        ExerciseData::AyahSequence { correct_sequence, .. } => match ans {
            AnswerInput::Sequence { values } => if string_views(values@) == id_strings(
                correct_sequence@,
            ) {
                Ok((true, Some("Correct sequence!"@), None))
            } else {
                Ok(
                    (
                        false,
                        Some("Incorrect order"@),
                        Some(join(id_strings(correct_sequence@), ", "@)),
                    ),
                )
            },
            _ => Ok((false, Some("Expected sequence input"@), None)),
        },
        _ => Err(
            "Exercise type "@ + ex.spec_exercise_type_name()
                + " requires async validation - use ExerciseService"@,
        ),
    }
}

/// The decimal spellings of a list of IDs.
fn id_strings_exec(ids: &Vec<i64>) -> (r: Vec<String>)
    ensures
        string_views(r@) == id_strings(ids@),
{
    let mut r: Vec<String> = Vec::new();
    let mut i: usize = 0;
    while i < ids.len()
        invariant
            i <= ids.len(),
            string_views(r@) == id_strings(ids@.subrange(0, i as int)),
        decreases ids.len() - i,
    {
        let d = format_i64(ids[i]);
        let s = string_of(&d);
        let ghost old_r = r@;
        r.push(s);
        proof {
            assert(ids@.subrange(0, i + 1) =~= ids@.subrange(0, i as int).push(ids@[i as int]));
            assert(string_views(r@) =~= string_views(old_r).push(int_str(ids@[i as int] as int)));
            assert(id_strings(ids@.subrange(0, i + 1)) =~= id_strings(ids@.subrange(0, i as int)).push(
                int_str(ids@[i as int] as int),
            ));
        }
        i = i + 1;
    }
    assert(ids@.subrange(0, ids@.len() as int) =~= ids@);
    r
}

/// A verdict without a semantic grade.
fn verdict_of(is_correct: bool, feedback: Option<String>, correct_answer: Option<String>) -> (r:
    ValidationResult)
    ensures
        r.is_correct == is_correct,
        r.feedback == feedback,
        r.correct_answer == correct_answer,
        r.semantic_grade is None,
{
    ValidationResult { is_correct, feedback, semantic_grade: None, correct_answer }
}

impl DefaultValidator {
    /// Creates a validator.
    pub fn new() -> (r: DefaultValidator) {
        DefaultValidator
    }

    /// Normalizes Arabic text for comparison (removes diacritics).
    pub fn normalize_arabic(text: &str) -> (r: String)
        ensures
            r@ == arabic_normal_form(text@),
    {
        normalize_arabic_text(text)
    }

    /// Normalizes English text for comparison.
    pub fn normalize_english(text: &str) -> (r: String)
        ensures
            r@ == english_normal_form(text@),
    {
        normalize_english_text(text)
    }

    /// Normalizes a part-of-speech tag for comparison.
    pub fn normalize_pos(text: &str) -> (r: String)
        ensures
            r@ == tag_normal_form(text@),
    {
        normalize_tag(text)
    }

    /// Validates an answer to an exercise whose answer key the exercise
    /// itself holds; the other exercise types need content lookups and are
    /// refused with an error.
    pub fn validate(&self, exercise: &ExerciseData, answer: &AnswerInput) -> (r: Result<
        ValidationResult,
        ExerciseError,
    >)
        ensures
            match (r, spec_validate(*exercise, *answer)) {
                (Ok(v), Ok(w)) => verdict(v) == w && v.semantic_grade is None,
                (Err(e), Err(m)) => e.message@ == m,
                _ => false,
            },
    {
        match exercise {
            ExerciseData::Memorization { .. } => match answer {
                AnswerInput::Text { .. } => Err(
                    ExerciseError {
                        message: owned(
                            "Memorization validation requires async content fetching - use ExerciseService",
                        ),
                    },
                ),
                _ => Ok(verdict_of(false, Some(owned("Expected text input")), None)),
            },
            ExerciseData::FindMistake { mistake_position, .. } => {
                let pos = string_of(&format_i64(*mistake_position as i64));
                match answer {
                    AnswerInput::Position { value } => {
                        if *value == *mistake_position {
                            Ok(verdict_of(true, Some(owned("Correct!")), None))
                        } else {
                            Ok(
                                verdict_of(
                                    false,
                                    Some(concat2("The mistake is at position ", pos.as_str())),
                                    Some(pos),
                                ),
                            )
                        }
                    },
                    _ => Ok(verdict_of(false, Some(owned("Expected position input")), Some(pos))),
                }
            },
            ExerciseData::IdentifyRoot { root, .. } => match answer {
                AnswerInput::Text { value } => {
                    let user = normalize_arabic_text(value.as_str());
                    let correct = normalize_arabic_text(root.as_str());
                    if str_eq(user.as_str(), correct.as_str()) {
                        Ok(verdict_of(true, Some(owned("Correct!")), None))
                    } else {
                        Ok(
                            verdict_of(
                                false,
                                Some(concat2("The root is: ", root.as_str())),
                                Some(owned(root.as_str())),
                            ),
                        )
                    }
                },
                _ => Ok(
                    verdict_of(false, Some(owned("Expected text input")), Some(owned(root.as_str()))),
                ),
            },
            ExerciseData::PosTagging { correct_pos, .. } => match answer {
                AnswerInput::Text { value } => {
                    let user = normalize_tag(value.as_str());
                    let correct = normalize_tag(correct_pos.as_str());
                    if str_eq(user.as_str(), correct.as_str()) {
                        Ok(verdict_of(true, Some(owned("Correct!")), None))
                    } else {
                        Ok(
                            verdict_of(
                                false,
                                Some(concat2("The correct part of speech is: ", correct_pos.as_str())),
                                Some(owned(correct_pos.as_str())),
                            ),
                        )
                    }
                },
                _ => Ok(
                    verdict_of(
                        false,
                        Some(owned("Expected text input")),
                        Some(owned(correct_pos.as_str())),
                    ),
                ),
            },
            ExerciseData::AyahSequence { correct_sequence, .. } => match answer {
                AnswerInput::Sequence { values } => {
                    let expected = id_strings_exec(correct_sequence);
                    if crate::text::strings_eq(values, &expected) {
                        Ok(verdict_of(true, Some(owned("Correct sequence!")), None))
                    } else {
                        let parts = crate::text::chars_of_all(&expected);
                        let sep = chars_of(", ");
                        let joined = join_chars(&parts, &sep);
                        Ok(
                            verdict_of(
                                false,
                                Some(owned("Incorrect order")),
                                Some(string_of(&joined)),
                            ),
                        )
                    }
                },
                _ => Ok(verdict_of(false, Some(owned("Expected sequence input")), None)),
            },
            _ => Err(
                ExerciseError {
                    message: concat3(
                        "Exercise type ",
                        exercise.exercise_type_name(),
                        " requires async validation - use ExerciseService",
                    ),
                },
            ),
        }
    }

    /// The answer key of an exercise that holds it; the other exercise
    /// types are refused with an error.
    pub fn get_answer_keys(&self, exercise: &ExerciseData) -> (r: Result<AnswerKeys, ExerciseError>)
        ensures
            match *exercise {
                ExerciseData::FindMistake { mistake_position, .. } => r == Ok::<
                    AnswerKeys,
                    ExerciseError,
                >(AnswerKeys::Position { value: mistake_position }),
                ExerciseData::IdentifyRoot { root, .. } => r matches Ok(AnswerKeys::Root { letters })
                    && letters@ == root@,
                ExerciseData::PosTagging { correct_pos, .. } => r matches Ok(
                    AnswerKeys::PosTag { value },
                ) && value@ == correct_pos@,
                ExerciseData::AyahSequence { correct_sequence, .. } => r matches Ok(
                    AnswerKeys::Sequence { values },
                ) && string_views(values@) == id_strings(correct_sequence@),
                _ => r matches Err(e) && e.message@ == "Exercise type "@
                    + exercise.spec_exercise_type_name() + " requires async answer key retrieval"@,
            },
    {
        match exercise {
            ExerciseData::FindMistake { mistake_position, .. } => Ok(
                AnswerKeys::Position { value: *mistake_position },
            ),
            ExerciseData::IdentifyRoot { root, .. } => Ok(
                AnswerKeys::Root { letters: owned(root.as_str()) },
            ),
            ExerciseData::PosTagging { correct_pos, .. } => Ok(
                AnswerKeys::PosTag { value: owned(correct_pos.as_str()) },
            ),
            ExerciseData::AyahSequence { correct_sequence, .. } => Ok(
                AnswerKeys::Sequence { values: id_strings_exec(correct_sequence) },
            ),
            _ => Err(
                ExerciseError {
                    message: concat3(
                        "Exercise type ",
                        exercise.exercise_type_name(),
                        " requires async answer key retrieval",
                    ),
                },
            ),
        }
    }
}

impl Default for DefaultValidator {
    fn default() -> (r: DefaultValidator) {
        DefaultValidator
    }
}

/// The decimal spelling of an `i64` names it alone.
proof fn lemma_int_str_injective(a: i64, b: i64)
    requires
        int_str(a as int) == int_str(b as int),
    ensures
        a == b,
{
    crate::decimal::lemma_parse_signed_int_str(a as int, i64::MIN as int, i64::MAX as int);
    crate::decimal::lemma_parse_signed_int_str(b as int, i64::MIN as int, i64::MAX as int);
}

/// Law: an answer to a verse-order exercise given as a sequence is right
/// exactly when it spells the expected IDs in decimal, one by one and in
/// the same order; a wrong one is told "Incorrect order".
pub proof fn law_sequence_answer_in_order(node_id: i64, correct: Vec<i64>, values: Vec<String>)
    ensures
        spec_validate(
            ExerciseData::AyahSequence { node_id, correct_sequence: correct },
            AnswerInput::Sequence { values },
        ) matches Ok(v) && (v.0 <==> (values@.len() == correct@.len() && forall|i: int|
            0 <= i < values@.len() ==> #[trigger] values@[i]@ == int_str(correct@[i] as int)))
            && (!v.0 ==> v.1 == Some("Incorrect order"@)),
{
    if values@.len() == correct@.len() && forall|i: int|
        0 <= i < values@.len() ==> #[trigger] values@[i]@ == int_str(correct@[i] as int) {
        assert(string_views(values@) =~= id_strings(correct@));
    }
    if string_views(values@) == id_strings(correct@) {
        assert forall|i: int| 0 <= i < values@.len() implies #[trigger] values@[i]@ == int_str(
            correct@[i] as int,
        ) by {
            assert(string_views(values@)[i] == values@[i]@);
            assert(id_strings(correct@)[i] == int_str(correct@[i] as int));
        }
    }
}

/// Law: an answer that spells the IDs of any other sequence (a reordering
/// of the expected verses among them) is judged wrong.
pub proof fn law_other_sequence_is_wrong(
    node_id: i64,
    correct: Vec<i64>,
    values: Vec<String>,
    order: Seq<i64>,
)
    requires
        values@.len() == order.len(),
        forall|i: int| 0 <= i < order.len() ==> #[trigger] values@[i]@ == int_str(order[i] as int),
        order != correct@,
    ensures
        spec_validate(
            ExerciseData::AyahSequence { node_id, correct_sequence: correct },
            AnswerInput::Sequence { values },
        ) matches Ok(v) && !v.0,
{
    law_sequence_answer_in_order(node_id, correct, values);
    if string_views(values@) == id_strings(correct@) {
        assert(values@.len() == correct@.len());
        assert forall|i: int| 0 <= i < order.len() implies order[i] == correct@[i] by {
            assert(string_views(values@)[i] == values@[i]@);
            assert(id_strings(correct@)[i] == int_str(correct@[i] as int));
            lemma_int_str_injective(order[i], correct@[i]);
        }
        assert(order =~= correct@);
    }
}

} // verus!

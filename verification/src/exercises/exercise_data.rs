use vstd::prelude::*;

verus! {

/// An exercise as the keys and IDs it needs; the text is fetched when the
/// question is shown.
#[derive(Debug, Clone, PartialEq)]
#[allow(inconsistent_fields)]
pub enum ExerciseData {
    /// Recall the exact Arabic text.
    Memorization { node_id: i64 },
    /// Given an Arabic word, pick its English translation.
    McqArToEn { node_id: i64, distractor_node_ids: Vec<i64> },
    /// Given an English translation, pick the Arabic word.
    McqEnToAr { node_id: i64, distractor_node_ids: Vec<i64> },
    /// Type the English translation of an Arabic word.
    Translation { node_id: i64 },
    /// Translate a word within its verse.
    ContextualTranslation { node_id: i64, verse_key: String },
    /// Fill in a missing word of a verse (position counts from 1).
    ClozeDeletion { node_id: i64, blank_position: i32 },
    /// Recall a word given its first letter.
    FirstLetterHint { node_id: i64, word_position: i32 },
    /// Pick the missing word of a verse.
    MissingWordMcq { node_id: i64, blank_position: i32, distractor_node_ids: Vec<i64> },
    /// Pick the word that follows the context position.
    NextWordMcq { node_id: i64, context_position: i32, distractor_node_ids: Vec<i64> },
    /// Type a whole verse.
    FullVerseInput { node_id: i64 },
    /// Type verses one after another until a mistake.
    AyahChain { node_id: i64, verse_keys: Vec<String>, current_index: usize, completed_count: usize },
    /// Find the substituted word of a verse.
    FindMistake {
        node_id: i64,
        mistake_position: i32,
        correct_word_node_id: i64,
        incorrect_word_node_id: i64,
    },
    /// Put verses or words in order.
    AyahSequence { node_id: i64, correct_sequence: Vec<i64> },
    /// Pick the sequence that continues a verse.
    SequenceRecall { node_id: i64, correct_sequence: Vec<i64>, options: Vec<Vec<i64>> },
    /// Type the first word of a verse.
    FirstWordRecall { node_id: i64, verse_key: String },
    /// Name the root of a word.
    IdentifyRoot { node_id: i64, root: String },
    /// Given a translation, recall the Arabic with a blank.
    ReverseCloze { node_id: i64, blank_position: i32 },
    /// Type the English translation of a verse or phrase.
    TranslatePhrase { node_id: i64, translator_id: i32 },
    /// Name the part of speech of a word.
    PosTagging { node_id: i64, correct_pos: String, options: Vec<String> },
    /// Pick the verse connected to a verse (the first related ID is correct).
    CrossVerseConnection { node_id: i64, related_verse_ids: Vec<i64>, connection_theme: String },
    /// Progressive blur memorization over some verses.
    EchoRecall { ayah_node_ids: Vec<i64> },
}

impl ExerciseData {
    /// The node an exercise is scheduled under; for echo recall the first
    /// verse, or 0 when there is none.
    pub open spec fn spec_node_id(&self) -> i64 {
        match self {
            ExerciseData::Memorization { node_id } => *node_id,
            ExerciseData::McqArToEn { node_id, .. } => *node_id,
            ExerciseData::McqEnToAr { node_id, .. } => *node_id,
            ExerciseData::Translation { node_id } => *node_id,
            ExerciseData::ContextualTranslation { node_id, .. } => *node_id,
            ExerciseData::ClozeDeletion { node_id, .. } => *node_id,
            ExerciseData::FirstLetterHint { node_id, .. } => *node_id,
            ExerciseData::MissingWordMcq { node_id, .. } => *node_id,
            ExerciseData::NextWordMcq { node_id, .. } => *node_id,
            ExerciseData::FullVerseInput { node_id } => *node_id,
            ExerciseData::AyahChain { node_id, .. } => *node_id,
            ExerciseData::FindMistake { node_id, .. } => *node_id,
            ExerciseData::AyahSequence { node_id, .. } => *node_id,
            ExerciseData::SequenceRecall { node_id, .. } => *node_id,
            ExerciseData::FirstWordRecall { node_id, .. } => *node_id,
            ExerciseData::IdentifyRoot { node_id, .. } => *node_id,
            ExerciseData::ReverseCloze { node_id, .. } => *node_id,
            ExerciseData::TranslatePhrase { node_id, .. } => *node_id,
            ExerciseData::PosTagging { node_id, .. } => *node_id,
            ExerciseData::CrossVerseConnection { node_id, .. } => *node_id,
            ExerciseData::EchoRecall { ayah_node_ids } => if ayah_node_ids@.len() > 0 {
                ayah_node_ids@[0]
            } else {
                0
            },
        }
    }

    /// The snake-case name of the exercise type.
    pub open spec fn spec_exercise_type_name(&self) -> Seq<char> {
        match self {
            ExerciseData::Memorization { .. } => "memorization"@,
            ExerciseData::McqArToEn { .. } => "mcq_ar_to_en"@,
            ExerciseData::McqEnToAr { .. } => "mcq_en_to_ar"@,
            ExerciseData::Translation { .. } => "translation"@,
            ExerciseData::ContextualTranslation { .. } => "contextual_translation"@,
            ExerciseData::ClozeDeletion { .. } => "cloze_deletion"@,
            ExerciseData::FirstLetterHint { .. } => "first_letter_hint"@,
            ExerciseData::MissingWordMcq { .. } => "missing_word_mcq"@,
            ExerciseData::NextWordMcq { .. } => "next_word_mcq"@,
            ExerciseData::FullVerseInput { .. } => "full_verse_input"@,
            ExerciseData::AyahChain { .. } => "ayah_chain"@,
            ExerciseData::FindMistake { .. } => "find_mistake"@,
            ExerciseData::AyahSequence { .. } => "ayah_sequence"@,
            ExerciseData::SequenceRecall { .. } => "sequence_recall"@,
            ExerciseData::FirstWordRecall { .. } => "first_word_recall"@,
            ExerciseData::IdentifyRoot { .. } => "identify_root"@,
            ExerciseData::ReverseCloze { .. } => "reverse_cloze"@,
            ExerciseData::TranslatePhrase { .. } => "translate_phrase"@,
            ExerciseData::PosTagging { .. } => "pos_tagging"@,
            ExerciseData::CrossVerseConnection { .. } => "cross_verse_connection"@,
            ExerciseData::EchoRecall { .. } => "echo_recall"@,
        }
    }

    /// Whether the exercise keeps state between submissions.
    pub open spec fn spec_is_stateful(&self) -> bool {
        self is AyahChain || self is EchoRecall
    }

    /// Whether the exercise offers predefined options.
    pub open spec fn spec_is_mcq(&self) -> bool {
        self is McqArToEn || self is McqEnToAr || self is MissingWordMcq || self is NextWordMcq
            || self is SequenceRecall || self is PosTagging
    }

    /// Whether the exercise is answered by typing Arabic.
    pub open spec fn spec_requires_arabic_input(&self) -> bool {
        self is Memorization || self is McqEnToAr || self is ClozeDeletion
            || self is FirstLetterHint || self is FirstWordRecall || self is FullVerseInput
            || self is AyahChain || self is ReverseCloze || self is EchoRecall
    }

    /// Whether the exercise is answered by typing English.
    pub open spec fn spec_requires_english_input(&self) -> bool {
        self is Translation || self is ContextualTranslation || self is TranslatePhrase
    }

    /// The node ID for this exercise.
    pub fn node_id(&self) -> (r: i64)
        ensures
            r == self.spec_node_id(),
    {
        match self {
            ExerciseData::Memorization { node_id } => *node_id,
            ExerciseData::McqArToEn { node_id, .. } => *node_id,
            ExerciseData::McqEnToAr { node_id, .. } => *node_id,
            ExerciseData::Translation { node_id } => *node_id,
            ExerciseData::ContextualTranslation { node_id, .. } => *node_id,
            ExerciseData::ClozeDeletion { node_id, .. } => *node_id,
            ExerciseData::FirstLetterHint { node_id, .. } => *node_id,
            ExerciseData::MissingWordMcq { node_id, .. } => *node_id,
            ExerciseData::NextWordMcq { node_id, .. } => *node_id,
            ExerciseData::FullVerseInput { node_id } => *node_id,
            ExerciseData::AyahChain { node_id, .. } => *node_id,
            ExerciseData::FindMistake { node_id, .. } => *node_id,
            ExerciseData::AyahSequence { node_id, .. } => *node_id,
            ExerciseData::SequenceRecall { node_id, .. } => *node_id,
            ExerciseData::FirstWordRecall { node_id, .. } => *node_id,
            ExerciseData::IdentifyRoot { node_id, .. } => *node_id,
            ExerciseData::ReverseCloze { node_id, .. } => *node_id,
            ExerciseData::TranslatePhrase { node_id, .. } => *node_id,
            ExerciseData::PosTagging { node_id, .. } => *node_id,
            ExerciseData::CrossVerseConnection { node_id, .. } => *node_id,
            ExerciseData::EchoRecall { ayah_node_ids } => if ayah_node_ids.len() > 0 {
                ayah_node_ids[0]
            } else {
                0
            },
        }
    }

    /// The exercise type name.
    pub fn exercise_type_name(&self) -> (r: &'static str)
        ensures
            r@ == self.spec_exercise_type_name(),
    {
        match self {
            ExerciseData::Memorization { .. } => "memorization",
            ExerciseData::McqArToEn { .. } => "mcq_ar_to_en",
            ExerciseData::McqEnToAr { .. } => "mcq_en_to_ar",
            ExerciseData::Translation { .. } => "translation",
            ExerciseData::ContextualTranslation { .. } => "contextual_translation",
            ExerciseData::ClozeDeletion { .. } => "cloze_deletion",
            ExerciseData::FirstLetterHint { .. } => "first_letter_hint",
            ExerciseData::MissingWordMcq { .. } => "missing_word_mcq",
            ExerciseData::NextWordMcq { .. } => "next_word_mcq",
            ExerciseData::FullVerseInput { .. } => "full_verse_input",
            ExerciseData::AyahChain { .. } => "ayah_chain",
            ExerciseData::FindMistake { .. } => "find_mistake",
            ExerciseData::AyahSequence { .. } => "ayah_sequence",
            ExerciseData::SequenceRecall { .. } => "sequence_recall",
            ExerciseData::FirstWordRecall { .. } => "first_word_recall",
            ExerciseData::IdentifyRoot { .. } => "identify_root",
            ExerciseData::ReverseCloze { .. } => "reverse_cloze",
            ExerciseData::TranslatePhrase { .. } => "translate_phrase",
            ExerciseData::PosTagging { .. } => "pos_tagging",
            ExerciseData::CrossVerseConnection { .. } => "cross_verse_connection",
            ExerciseData::EchoRecall { .. } => "echo_recall",
        }
    }

    /// Whether this exercise type is stateful.
    pub fn is_stateful(&self) -> (r: bool)
        ensures
            r == self.spec_is_stateful(),
    {
        matches!(self, ExerciseData::AyahChain { .. } | ExerciseData::EchoRecall { .. })
    }

    /// Whether this exercise type is a multiple choice question.
    pub fn is_mcq(&self) -> (r: bool)
        ensures
            r == self.spec_is_mcq(),
    {
        matches!(
            self,
            ExerciseData::McqArToEn { .. } | ExerciseData::McqEnToAr { .. }
                | ExerciseData::MissingWordMcq { .. } | ExerciseData::NextWordMcq { .. }
                | ExerciseData::SequenceRecall { .. } | ExerciseData::PosTagging { .. }
        )
    }

    /// Whether this exercise requires Arabic text input.
    pub fn requires_arabic_input(&self) -> (r: bool)
        ensures
            r == self.spec_requires_arabic_input(),
    {
        matches!(
            self,
            ExerciseData::Memorization { .. } | ExerciseData::McqEnToAr { .. }
                | ExerciseData::ClozeDeletion { .. } | ExerciseData::FirstLetterHint { .. }
                | ExerciseData::FirstWordRecall { .. } | ExerciseData::FullVerseInput { .. }
                | ExerciseData::AyahChain { .. } | ExerciseData::ReverseCloze { .. }
                | ExerciseData::EchoRecall { .. }
        )
    }

    /// Whether this exercise requires English text input.
    pub fn requires_english_input(&self) -> (r: bool)
        ensures
            r == self.spec_requires_english_input(),
    {
        matches!(
            self,
            ExerciseData::Translation { .. } | ExerciseData::ContextualTranslation { .. }
                | ExerciseData::TranslatePhrase { .. }
        )
    }
}

/// Law: no exercise asks for both Arabic and English input.
pub proof fn law_input_language_exclusive(e: ExerciseData)
    ensures
        !(e.spec_requires_arabic_input() && e.spec_requires_english_input()),
{
}

/// Law: the stateful exercises are exactly the ayah chain and echo recall,
/// and neither is a multiple choice question.
pub proof fn law_stateful_not_mcq(e: ExerciseData)
    ensures
        e.spec_is_stateful() ==> !e.spec_is_mcq(),
{
}

impl ExerciseData {
    /// The position of the variant in the declaration.
    pub open spec fn variant_index(&self) -> int {
        match self {
            ExerciseData::Memorization { .. } => 0,
            ExerciseData::McqArToEn { .. } => 1,
            ExerciseData::McqEnToAr { .. } => 2,
            ExerciseData::Translation { .. } => 3,
            ExerciseData::ContextualTranslation { .. } => 4,
            ExerciseData::ClozeDeletion { .. } => 5,
            ExerciseData::FirstLetterHint { .. } => 6,
            ExerciseData::MissingWordMcq { .. } => 7,
            ExerciseData::NextWordMcq { .. } => 8,
            ExerciseData::FullVerseInput { .. } => 9,
            ExerciseData::AyahChain { .. } => 10,
            ExerciseData::FindMistake { .. } => 11,
            ExerciseData::AyahSequence { .. } => 12,
            ExerciseData::SequenceRecall { .. } => 13,
            ExerciseData::FirstWordRecall { .. } => 14,
            ExerciseData::IdentifyRoot { .. } => 15,
            ExerciseData::ReverseCloze { .. } => 16,
            ExerciseData::TranslatePhrase { .. } => 17,
            ExerciseData::PosTagging { .. } => 18,
            ExerciseData::CrossVerseConnection { .. } => 19,
            ExerciseData::EchoRecall { .. } => 20,
        }
    }
}

/// Law: exercises of different types have different type names.
pub proof fn law_type_names_distinct(a: ExerciseData, b: ExerciseData)
    requires
        a.variant_index() != b.variant_index(),
    ensures
        a.spec_exercise_type_name() != b.spec_exercise_type_name(),
{
    reveal_strlit("memorization");
    reveal_strlit("mcq_ar_to_en");
    reveal_strlit("mcq_en_to_ar");
    reveal_strlit("translation");
    reveal_strlit("contextual_translation");
    reveal_strlit("cloze_deletion");
    reveal_strlit("first_letter_hint");
    reveal_strlit("missing_word_mcq");
    reveal_strlit("next_word_mcq");
    reveal_strlit("full_verse_input");
    reveal_strlit("ayah_chain");
    reveal_strlit("find_mistake");
    reveal_strlit("ayah_sequence");
    reveal_strlit("sequence_recall");
    reveal_strlit("first_word_recall");
    reveal_strlit("identify_root");
    reveal_strlit("reverse_cloze");
    reveal_strlit("translate_phrase");
    reveal_strlit("pos_tagging");
    reveal_strlit("cross_verse_connection");
    reveal_strlit("echo_recall");
    let na = a.spec_exercise_type_name();
    let nb = b.spec_exercise_type_name();
    if na == nb {
        assert(na.len() == nb.len() && na[4] == nb[4] && na[6] == nb[6]);
    }
}

} // verus!

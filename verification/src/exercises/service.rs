use vstd::prelude::*;
use crate::decimal::int_str;
use crate::exercises::ayah_chain::{AyahChainExercise, chain_hint, chain_question};
use crate::exercises::ayah_sequence::{AyahSequenceExercise, names_verse};
use crate::exercises::exercise_data::ExerciseData;
use crate::exercises::find_mistake::FindMistakeExercise;
use crate::exercises::full_verse_input::FullVerseInputExercise;
use crate::exercises::graph::CrossVerseConnectionExercise;
use crate::exercises::grammar::{IdentifyRootExercise, letters_without_dashes};
use crate::exercises::mcq::{McqExercise, first_wrong};
use crate::exercises::memorization::{
    ClozeDeletionExercise, FirstLetterHintExercise, MemorizationExercise, MissingWordMcqExercise,
    NextWordMcqExercise, arabic_match, ends_hint, recall_hint,
};
use crate::exercises::pos_tagging::{PosTaggingExercise, numbered, pos_hint};
use crate::exercises::reverse_cloze::ReverseClozeExercise;
use crate::exercises::translate_phrase::{TranslatePhraseExercise, phrase_hint};
use crate::exercises::translation::{
    ContextualTranslationExercise, TranslationExercise, first_word_hint,
};
use crate::exercises::types::{
    Exercise, ExerciseResponse, SemanticGradeLabel, opt_view,
};
use crate::exercises::verse_words::{first_char_hint, key_parts, pair_views};
use crate::models::{KnowledgeAxis, KnowledgeNode, spec_knowledge_parts};
use crate::node_id::{decode_knowledge_id, spec_decode_knowledge};
use crate::exercises::types::ExerciseError;
use crate::text::{concat2, concat3};
use crate::normalize::{
    arabic_normal_form, char_uppercase, english_normal_form, root_normal_form, str_lowercase,
    tag_normal_form,
};
use crate::text::{has_prefix, owned, starts_with_str, string_views, trim, ws_words};

verus! {

/// Any one exercise, of whichever kind.
#[derive(Debug)]
pub enum AnyExercise {
    Memorization(MemorizationExercise),
    NextWordMcq(NextWordMcqExercise),
    MissingWordMcq(MissingWordMcqExercise),
    ClozeDeletion(ClozeDeletionExercise),
    FirstLetterHint(FirstLetterHintExercise),
    Translation(TranslationExercise),
    ContextualTranslation(ContextualTranslationExercise),
    Mcq(McqExercise),
    IdentifyRoot(IdentifyRootExercise),
    PosTagging(PosTaggingExercise),
    ReverseCloze(ReverseClozeExercise),
    TranslatePhrase(TranslatePhraseExercise),
    FullVerseInput(FullVerseInputExercise),
    FindMistake(FindMistakeExercise),
    AyahSequence(AyahSequenceExercise),
    CrossVerseConnection(CrossVerseConnectionExercise),
    AyahChain(AyahChainExercise),
}

/// Whether an exercise takes an answer as right.
pub open spec fn spec_verdict(ex: AnyExercise, answer: Seq<char>, grade: Option<SemanticGradeLabel>) -> bool {
    match ex {
        AnyExercise::Memorization(_) => grade == Some(SemanticGradeLabel::Excellent),
        AnyExercise::NextWordMcq(e) => arabic_match(answer, e.answer_view()),
        AnyExercise::MissingWordMcq(e) => arabic_match(answer, e.answer_view()),
        AnyExercise::ClozeDeletion(e) => arabic_match(answer, e.answer_view()),
        AnyExercise::FirstLetterHint(e) => arabic_match(answer, e.answer_view()),
        AnyExercise::Translation(_) => grade is Some && grade != Some(SemanticGradeLabel::Incorrect),
        AnyExercise::ContextualTranslation(e) => tag_normal_form(answer) == tag_normal_form(
            e.answer_view(),
        ),
        AnyExercise::Mcq(e) => tag_normal_form(answer) == tag_normal_form(e.answer_view()),
        AnyExercise::IdentifyRoot(e) => root_normal_form(answer) == root_normal_form(e.root_view()),
        AnyExercise::PosTagging(e) => tag_normal_form(answer) == tag_normal_form(e.pos_view()),
        AnyExercise::ReverseCloze(e) => arabic_match(answer, e.next_view()),
        AnyExercise::TranslatePhrase(e) => english_normal_form(answer) == english_normal_form(
            e.translation_view(),
        ),
        AnyExercise::FullVerseInput(e) => arabic_match(answer, e.text_view()),
        AnyExercise::FindMistake(e) => crate::decimal::int_parse(
            trim(answer),
            i32::MIN as int,
            i32::MAX as int,
        ) == Ok::<int, Seq<char>>(e.position_view() as int),
        AnyExercise::AyahSequence(e) => names_verse(answer, e.next_key_view(), e.next_text_view()),
        AnyExercise::CrossVerseConnection(e) => names_verse(
            answer,
            e.correct_key_view(),
            e.correct_text_view(),
        ),
        AnyExercise::AyahChain(e) => !e.complete_view() && !e.broken_view() && arabic_match(
            answer,
            e.verses_view()[e.index_view()].text_uthmani@,
        ),
    }
}

/// The question of an exercise.
pub open spec fn spec_question(ex: AnyExercise) -> Seq<char> {
    match ex {
        AnyExercise::Memorization(e) => "Recall the word"@,
        AnyExercise::NextWordMcq(e) => e.prefix_view() + " _____"@,
        AnyExercise::MissingWordMcq(e) => e.question_view(),
        AnyExercise::ClozeDeletion(e) => match e.letters_view() {
            Some(l) => e.blank_view() + "\nAvailable letters: "@ + l,
            None => e.blank_view(),
        },
        AnyExercise::FirstLetterHint(e) => e.question_view(),
        AnyExercise::Translation(e) => "What does '"@ + e.word_view() + "' mean?"@,
        AnyExercise::ContextualTranslation(e) => "In the verse:\n\n"@ + e.verse_view()
            + "\n\nWhat does '"@ + e.word_view() + "' mean in this context?"@,
        AnyExercise::Mcq(e) => e.question_view(),
        AnyExercise::IdentifyRoot(e) => "What is the root of '"@ + e.word_view() + "'?"@,
        AnyExercise::PosTagging(e) => "In the verse:\n\n"@ + e.context_view()
            + "\n\nWhat part of speech is the word \""@ + e.word_view()
            + "\"?\n\nOptions:\n"@ + numbered(e.options_view()),
        AnyExercise::ReverseCloze(e) => "After the word:\n\n"@ + e.current_view()
            + "\n\nWhat comes next?"@,
        AnyExercise::TranslatePhrase(e) => "Translate to English:\n\n"@ + e.arabic_view()
            + "\n\nType the English translation:"@,
        AnyExercise::FullVerseInput(e) => "Type the complete verse:\n\n"@ + e.chapter_name_view()
            + ", verse "@ + int_str(e.verse_number_view() as int),
        AnyExercise::FindMistake(e) => "Find the mistake in this verse:\n\n"@ + e.modified_view()
            + "\n\nWhich word is incorrect? (Indicate position 1-"@ + int_str(
            ws_words(e.modified_view()).len() as int,
        ) + ")"@,
        AnyExercise::AyahSequence(e) => "After this verse:\n\n"@ + e.current_text_view()
            + "\n\nWhich verse comes next?"@,
        AnyExercise::CrossVerseConnection(e) => "This verse:\n\n"@ + e.verse_text_view()
            + "\n\nWhich verse is thematically connected to this one?"@,
        AnyExercise::AyahChain(e) => chain_question(e),
    }
}

/// The hint of an exercise.
pub open spec fn spec_hint(ex: AnyExercise) -> Option<Seq<char>> {
    match ex {
        AnyExercise::Memorization(e) => recall_hint(e.context_view(), e.word_view()),
        AnyExercise::NextWordMcq(e) => first_char_hint("First letter: "@, e.answer_view()),
        AnyExercise::MissingWordMcq(e) => first_char_hint("First letter: "@, e.answer_view()),
        AnyExercise::ClozeDeletion(e) => ends_hint(e.answer_view()),
        AnyExercise::FirstLetterHint(e) => Some(
            "Word length: "@ + int_str(arabic_normal_form(e.answer_view()).len() as int)
                + " letters"@,
        ),
        AnyExercise::Translation(e) => first_word_hint("Starts with: "@, e.translation_view()),
        AnyExercise::ContextualTranslation(e) => if e.answer_view().len() > 0 {
            Some("Starts with: "@ + char_uppercase(e.answer_view()[0]))
        } else {
            None
        },
        AnyExercise::Mcq(e) => match first_wrong(e.options_view(), e.answer_view()) {
            Some(o) => Some("It's not: "@ + o),
            None => None,
        },
        AnyExercise::IdentifyRoot(e) => Some(
            int_str(letters_without_dashes(e.root_view()) as int) + "-letter root"@,
        ),
        AnyExercise::PosTagging(e) => Some(pos_hint(str_lowercase(e.pos_view()))),
        AnyExercise::ReverseCloze(e) => first_char_hint(
            "Starts with: "@,
            arabic_normal_form(e.next_view()),
        ),
        AnyExercise::TranslatePhrase(e) => phrase_hint(e.translation_view()),
        AnyExercise::FullVerseInput(e) => first_word_hint(
            "Starts with: "@,
            arabic_normal_form(e.text_view()),
        ),
        AnyExercise::FindMistake(e) => Some(
            "This verse is from "@ + e.verse_key_view() + ". Try to recall what it should say."@,
        ),
        AnyExercise::AyahSequence(e) => if key_parts(e.next_key_view()).len() > 1 {
            Some("It's verse "@ + key_parts(e.next_key_view())[1])
        } else {
            None
        },
        AnyExercise::CrossVerseConnection(e) => Some(
            "The connected verse is from Surah "@ + key_parts(e.correct_key_view())[0],
        ),
        AnyExercise::AyahChain(e) => if !e.complete_view() && !e.broken_view() {
            Some(chain_hint(e.verses_view()[e.index_view()].text_uthmani@))
        } else {
            None
        },
    }
}

/// The kind name of an exercise.
pub open spec fn spec_kind_name(ex: AnyExercise) -> Seq<char> {
    match ex {
        AnyExercise::Memorization(_) => "memorization"@,
        AnyExercise::NextWordMcq(_) => "next_word_mcq"@,
        AnyExercise::MissingWordMcq(_) => "missing_word_mcq"@,
        AnyExercise::ClozeDeletion(_) => "cloze_deletion"@,
        AnyExercise::FirstLetterHint(_) => "first_letter_hint"@,
        AnyExercise::Translation(_) => "translation"@,
        AnyExercise::ContextualTranslation(_) => "contextual_translation"@,
        AnyExercise::Mcq(e) => match e.type_view() {
            crate::exercises::mcq::McqType::ArToEn => "mcq_ar_to_en"@,
            crate::exercises::mcq::McqType::EnToAr => "mcq_en_to_ar"@,
        },
        AnyExercise::IdentifyRoot(_) => "identify_root"@,
        AnyExercise::PosTagging(_) => "pos_tagging"@,
        AnyExercise::ReverseCloze(_) => "reverse_cloze"@,
        AnyExercise::TranslatePhrase(_) => "translate_phrase"@,
        AnyExercise::FullVerseInput(_) => "full_verse_input"@,
        AnyExercise::FindMistake(_) => "find_mistake"@,
        AnyExercise::AyahSequence(_) => "ayah_sequence"@,
        AnyExercise::CrossVerseConnection(_) => "cross_verse_connection"@,
        AnyExercise::AyahChain(_) => "ayah_chain"@,
    }
}

/// Whether an exercise is in a state its methods accept.
pub open spec fn spec_valid(ex: AnyExercise) -> bool {
    match ex {
        AnyExercise::AyahChain(e) => e.wf(),
        _ => true,
    }
}

/// The options a response lists: the options of the multiple-choice
/// exercises, the keys of the verse options; none for the others.
pub open spec fn spec_options(ex: AnyExercise) -> Option<Seq<Seq<char>>> {
    match ex {
        AnyExercise::Mcq(e) => Some(e.options_view()),
        AnyExercise::IdentifyRoot(e) => Some(e.options_view()),
        AnyExercise::ContextualTranslation(e) => Some(e.options_view()),
        AnyExercise::CrossVerseConnection(e) => Some(
            e.options_view().map_values(|p: (Seq<char>, Seq<char>)| p.0),
        ),
        AnyExercise::AyahSequence(e) => Some(
            e.options_view().map_values(|p: (Seq<char>, Seq<char>)| p.0),
        ),
        _ => None,
    }
}

/// Whether an exercise is graded by meaning.
pub open spec fn graded_by_meaning(ex: AnyExercise) -> bool {
    ex is Memorization || ex is Translation
}

impl Exercise for AnyExercise {
    open spec fn valid(&self) -> bool {
        spec_valid(*self)
    }

    fn generate_question(&self) -> (r: String)
        ensures
            r@ == spec_question(*self),
    {
        match self {
            AnyExercise::Memorization(e) => e.generate_question(),
            AnyExercise::NextWordMcq(e) => e.generate_question(),
            AnyExercise::MissingWordMcq(e) => e.generate_question(),
            AnyExercise::ClozeDeletion(e) => e.generate_question(),
            AnyExercise::FirstLetterHint(e) => e.generate_question(),
            AnyExercise::Translation(e) => e.generate_question(),
            AnyExercise::ContextualTranslation(e) => e.generate_question(),
            AnyExercise::Mcq(e) => e.generate_question(),
            AnyExercise::IdentifyRoot(e) => e.generate_question(),
            AnyExercise::PosTagging(e) => e.generate_question(),
            AnyExercise::ReverseCloze(e) => e.generate_question(),
            AnyExercise::TranslatePhrase(e) => e.generate_question(),
            AnyExercise::FullVerseInput(e) => e.generate_question(),
            AnyExercise::FindMistake(e) => e.generate_question(),
            AnyExercise::AyahSequence(e) => e.generate_question(),
            AnyExercise::CrossVerseConnection(e) => e.generate_question(),
            AnyExercise::AyahChain(e) => e.generate_question(),
        }
    }

    fn check_answer(&self, answer: &str, grade: Option<SemanticGradeLabel>) -> (r: bool)
        ensures
            r == spec_verdict(*self, answer@, grade),
    {
        match self {
            AnyExercise::Memorization(e) => e.check_answer(answer, grade),
            AnyExercise::NextWordMcq(e) => e.check_answer(answer, grade),
            AnyExercise::MissingWordMcq(e) => e.check_answer(answer, grade),
            AnyExercise::ClozeDeletion(e) => e.check_answer(answer, grade),
            AnyExercise::FirstLetterHint(e) => e.check_answer(answer, grade),
            AnyExercise::Translation(e) => e.check_answer(answer, grade),
            AnyExercise::ContextualTranslation(e) => e.check_answer(answer, grade),
            AnyExercise::Mcq(e) => e.check_answer(answer, grade),
            AnyExercise::IdentifyRoot(e) => e.check_answer(answer, grade),
            AnyExercise::PosTagging(e) => e.check_answer(answer, grade),
            AnyExercise::ReverseCloze(e) => e.check_answer(answer, grade),
            AnyExercise::TranslatePhrase(e) => e.check_answer(answer, grade),
            AnyExercise::FullVerseInput(e) => e.check_answer(answer, grade),
            AnyExercise::FindMistake(e) => e.check_answer(answer, grade),
            AnyExercise::AyahSequence(e) => e.check_answer(answer, grade),
            AnyExercise::CrossVerseConnection(e) => e.check_answer(answer, grade),
            AnyExercise::AyahChain(e) => e.check_answer(answer, grade),
        }
    }

    fn get_hint(&self) -> (r: Option<String>)
        ensures
            opt_view(r) == spec_hint(*self),
    {
        match self {
            AnyExercise::Memorization(e) => e.get_hint(),
            AnyExercise::NextWordMcq(e) => e.get_hint(),
            AnyExercise::MissingWordMcq(e) => e.get_hint(),
            AnyExercise::ClozeDeletion(e) => e.get_hint(),
            AnyExercise::FirstLetterHint(e) => e.get_hint(),
            AnyExercise::Translation(e) => e.get_hint(),
            AnyExercise::ContextualTranslation(e) => e.get_hint(),
            AnyExercise::Mcq(e) => e.get_hint(),
            AnyExercise::IdentifyRoot(e) => e.get_hint(),
            AnyExercise::PosTagging(e) => e.get_hint(),
            AnyExercise::ReverseCloze(e) => e.get_hint(),
            AnyExercise::TranslatePhrase(e) => e.get_hint(),
            AnyExercise::FullVerseInput(e) => e.get_hint(),
            AnyExercise::FindMistake(e) => e.get_hint(),
            AnyExercise::AyahSequence(e) => e.get_hint(),
            AnyExercise::CrossVerseConnection(e) => e.get_hint(),
            AnyExercise::AyahChain(e) => e.get_hint(),
        }
    }

    fn get_type_name(&self) -> (r: &'static str)
        ensures
            r@ == spec_kind_name(*self),
    {
        match self {
            AnyExercise::Memorization(e) => e.get_type_name(),
            AnyExercise::NextWordMcq(e) => e.get_type_name(),
            AnyExercise::MissingWordMcq(e) => e.get_type_name(),
            AnyExercise::ClozeDeletion(e) => e.get_type_name(),
            AnyExercise::FirstLetterHint(e) => e.get_type_name(),
            AnyExercise::Translation(e) => e.get_type_name(),
            AnyExercise::ContextualTranslation(e) => e.get_type_name(),
            AnyExercise::Mcq(e) => e.get_type_name(),
            AnyExercise::IdentifyRoot(e) => e.get_type_name(),
            AnyExercise::PosTagging(e) => e.get_type_name(),
            AnyExercise::ReverseCloze(e) => e.get_type_name(),
            AnyExercise::TranslatePhrase(e) => e.get_type_name(),
            AnyExercise::FullVerseInput(e) => e.get_type_name(),
            AnyExercise::FindMistake(e) => e.get_type_name(),
            AnyExercise::AyahSequence(e) => e.get_type_name(),
            AnyExercise::CrossVerseConnection(e) => e.get_type_name(),
            AnyExercise::AyahChain(e) => e.get_type_name(),
        }
    }
}

/// The keys of (key, text) pairs.
fn pair_keys(pairs: &[(String, String)]) -> (r: Vec<String>)
    ensures
        string_views(r@) == pair_views(pairs@).map_values(|p: (Seq<char>, Seq<char>)| p.0),
{
    let mut r: Vec<String> = Vec::new();
    let mut i: usize = 0;
    while i < pairs.len()
        invariant
            i <= pairs.len(),
            string_views(r@) == pair_views(pairs@).map_values(|p: (Seq<char>, Seq<char>)| p.0).subrange(
                0,
                i as int,
            ),
        decreases pairs.len() - i,
    {
        let ghost before = r@;
        r.push(owned(pairs[i].0.as_str()));
        proof {
            let ks = pair_views(pairs@).map_values(|p: (Seq<char>, Seq<char>)| p.0);
            assert(string_views(r@) =~= string_views(before).push(pairs@[i as int].0@));
            assert(ks.subrange(0, i + 1) =~= ks.subrange(0, i as int).push(ks[i as int]));
        }
        i = i + 1;
    }
    assert(pair_views(pairs@).map_values(|p: (Seq<char>, Seq<char>)| p.0).subrange(0, pairs@.len() as int)
        =~= pair_views(pairs@).map_values(|p: (Seq<char>, Seq<char>)| p.0));
    r
}

fn copy_options(opts: &[String]) -> (r: Vec<String>)
    ensures
        string_views(r@) == string_views(opts@),
{
    let mut r: Vec<String> = Vec::new();
    let mut i: usize = 0;
    while i < opts.len()
        invariant
            i <= opts.len(),
            string_views(r@) == string_views(opts@).subrange(0, i as int),
        decreases opts.len() - i,
    {
        let ghost before = r@;
        r.push(owned(opts[i].as_str()));
        proof {
            assert(string_views(r@) =~= string_views(before).push(opts@[i as int]@));
            assert(string_views(opts@).subrange(0, i + 1) =~= string_views(opts@).subrange(0, i as int).push(
                opts@[i as int]@,
            ));
        }
        i = i + 1;
    }
    assert(string_views(opts@).subrange(0, opts@.len() as int) =~= string_views(opts@));
    r
}

/// The options a response lists for an exercise.
fn listed_options(exercise: &AnyExercise) -> (r: Option<Vec<String>>)
    ensures
        match (r, spec_options(*exercise)) {
            (Some(v), Some(o)) => string_views(v@) == o,
            (None, None) => true,
            _ => false,
        },
{
    match exercise {
        AnyExercise::Mcq(e) => Some(copy_options(e.get_options())),
        AnyExercise::IdentifyRoot(e) => Some(copy_options(e.get_options())),
        AnyExercise::ContextualTranslation(e) => Some(copy_options(e.get_options())),
        AnyExercise::CrossVerseConnection(e) => Some(pair_keys(e.get_options())),
        AnyExercise::AyahSequence(e) => Some(pair_keys(e.get_options())),
        _ => None,
    }
}

/// Checks answers and hands out hints; its content repository is where
/// the exercises' texts are looked up.
pub struct ExerciseService<R> {
    content_repo: R,
}

/// What a response says, as values: correctness, revealed answer, hint,
/// options and semantic grade.
pub open spec fn response_view(r: ExerciseResponse) -> (
    bool,
    Option<Seq<char>>,
    Option<Seq<char>>,
    Option<Seq<Seq<char>>>,
    Option<Seq<char>>,
) {
    (
        r.is_correct,
        opt_view(r.correct_answer),
        opt_view(r.hint),
        match r.options {
            Some(v) => Some(string_views(v@)),
            None => None,
        },
        opt_view(r.semantic_grade),
    )
}

/// The response to an answer: the verdict, no revealed answer, the hint
/// only after a wrong answer, the options of the multiple-choice kinds and,
/// for the kinds graded by meaning, the grade's name.
pub open spec fn spec_response(
    ex: AnyExercise,
    answer: Seq<char>,
    grade: Option<SemanticGradeLabel>,
) -> (bool, Option<Seq<char>>, Option<Seq<char>>, Option<Seq<Seq<char>>>, Option<Seq<char>>) {
    let ok = spec_verdict(ex, answer, grade);
    (
        ok,
        None,
        if ok {
            None
        } else {
            spec_hint(ex)
        },
        spec_options(ex),
        if graded_by_meaning(ex) {
            match grade {
                Some(g) => Some(g.spec_name()),
                None => None,
            }
        } else {
            None
        },
    )
}

impl<R> ExerciseService<R> {
    /// The content repository.
    pub closed spec fn repo_view(&self) -> R {
        self.content_repo
    }

    /// A service over a content repository.
    pub fn new(content_repo: R) -> (r: Self)
        ensures
            r.repo_view() == content_repo,
    {
        ExerciseService { content_repo }
    }

    /// The content repository.
    pub fn content_repo(&self) -> (r: &R)
        ensures
            *r == self.repo_view(),
    {
        &self.content_repo
    }

    /// Judges an answer. `grade` is what the semantic grader said of it
    /// (for a memorization exercise, of the normalized answer against the
    /// normalized word), `None` where no grader is set up.
    pub fn check_answer(
        &self,
        exercise: &AnyExercise,
        answer: &str,
        grade: Option<SemanticGradeLabel>,
    ) -> (r: ExerciseResponse)
        requires
            spec_valid(*exercise),
        ensures
            response_view(r) == spec_response(*exercise, answer@, grade),
    {
        let is_correct = exercise.check_answer(answer, grade);
        let options = listed_options(exercise);
        let semantic_grade = match exercise {
            AnyExercise::Translation(_) | AnyExercise::Memorization(_) => match grade {
                Some(g) => Some(owned(g.to_str())),
                None => None,
            },
            _ => None,
        };
        let hint = if !is_correct {
            exercise.get_hint()
        } else {
            None
        };
        ExerciseResponse { is_correct, correct_answer: None, hint, options, semantic_grade }
    }

    /// The hint of an exercise.
    pub fn get_hint(&self, exercise: &AnyExercise) -> (r: Option<String>)
        requires
            spec_valid(*exercise),
        ensures
            opt_view(r) == spec_hint(*exercise),
    {
        exercise.get_hint()
    }
}

// ---------------------------------------------------------------------------
// Choosing and guarding exercises
// ---------------------------------------------------------------------------

/// The absolute value of an ID taken modulo `modulo` (0 for modulo 0).
pub open spec fn spec_slot(node_id: i64, modulo: u32) -> int {
    if modulo == 0 {
        0
    } else {
        let a = if node_id < 0 {
            -(node_id as int)
        } else {
            node_id as int
        };
        a % (modulo as int)
    }
}

/// A slot picked from the node ID, the same for the same node: the ID's
/// absolute value modulo `modulo`.
pub fn deterministic_slot(node_id: i64, modulo: u32) -> (r: u32)
    ensures
        r == spec_slot(node_id, modulo),
        modulo > 0 ==> r < modulo,
{
    if modulo == 0 {
        return 0;
    }
    let a: u64 = if node_id >= 0 {
        node_id as u64
    } else if node_id == i64::MIN {
        9223372036854775808u64
    } else {
        (0 - node_id) as u64
    };
    (a % (modulo as u64)) as u32
}

/// Whether an exercise tests the meaning of a word.
pub open spec fn spec_is_lexical(ex: ExerciseData) -> bool {
    ex is McqArToEn || ex is ContextualTranslation || ex is IdentifyRoot
}

/// Whether an exercise tests the continuity of a recitation.
pub open spec fn spec_is_continuity(ex: ExerciseData) -> bool {
    ||| ex is EchoRecall
    ||| ex is MissingWordMcq
    ||| ex is NextWordMcq
    ||| ex is AyahChain
    ||| ex is ClozeDeletion
    ||| ex is FirstLetterHint
    ||| ex is FullVerseInput
}

/// Whether an exercise tests the meaning of a word.
pub fn is_lexical_exercise(exercise: &ExerciseData) -> (r: bool)
    ensures
        r == spec_is_lexical(*exercise),
{
    match exercise {
        ExerciseData::McqArToEn { .. } | ExerciseData::ContextualTranslation { .. }
        | ExerciseData::IdentifyRoot { .. } => true,
        _ => false,
    }
}

/// Whether an exercise tests the continuity of a recitation.
pub fn is_continuity_exercise(exercise: &ExerciseData) -> (r: bool)
    ensures
        r == spec_is_continuity(*exercise),
{
    match exercise {
        ExerciseData::EchoRecall { .. } | ExerciseData::MissingWordMcq { .. }
        | ExerciseData::NextWordMcq { .. } | ExerciseData::AyahChain { .. }
        | ExerciseData::ClozeDeletion { .. } | ExerciseData::FirstLetterHint { .. }
        | ExerciseData::FullVerseInput { .. } => true,
        _ => false,
    }
}

/// Whether a key names a word (`WORD:` or `WORD_INSTANCE:`).
pub open spec fn is_word_key(k: Seq<char>) -> bool {
    has_prefix(k, "WORD:"@) || has_prefix(k, "WORD_INSTANCE:"@)
}

/// Whether an axis is about meaning.
pub open spec fn is_meaning_axis(axis: Option<KnowledgeAxis>) -> bool {
    axis == Some(KnowledgeAxis::Translation) || axis == Some(KnowledgeAxis::Meaning) || axis
        == Some(KnowledgeAxis::Tafsir)
}

/// Whether an axis is about recitation (or the node has none).
pub open spec fn is_recitation_axis(axis: Option<KnowledgeAxis>) -> bool {
    axis == Some(KnowledgeAxis::Memorization) || axis == Some(KnowledgeAxis::ContextualMemorization)
        || axis is None
}

/// The guardrail: a word on a meaning axis gets only an exercise on
/// meaning, a verse on a recitation axis (or none) only an exercise on
/// continuity; everything else is allowed.
pub open spec fn spec_guardrail(base_ukey: Seq<char>, axis: Option<KnowledgeAxis>, ex: ExerciseData) -> bool {
    if is_meaning_axis(axis) && is_word_key(base_ukey) {
        spec_is_lexical(ex)
    } else if has_prefix(base_ukey, "VERSE:"@) && is_recitation_axis(axis) {
        spec_is_continuity(ex)
    } else {
        true
    }
}

/// Whether the guardrail lets an exercise stand for a node and axis.
pub fn guardrail_allows(base_ukey: &str, axis: Option<KnowledgeAxis>, exercise: &ExerciseData) -> (r:
    bool)
    ensures
        r == spec_guardrail(base_ukey@, axis, *exercise),
{
    let meaning = match axis {
        Some(KnowledgeAxis::Translation) | Some(KnowledgeAxis::Meaning) | Some(
            KnowledgeAxis::Tafsir,
        ) => true,
        _ => false,
    };
    if meaning && (starts_with_str(base_ukey, "WORD:") || starts_with_str(base_ukey, "WORD_INSTANCE:")) {
        return is_lexical_exercise(exercise);
    }
    let recitation = match axis {
        Some(KnowledgeAxis::Memorization) | Some(KnowledgeAxis::ContextualMemorization) | None => true,
        _ => false,
    };
    if starts_with_str(base_ukey, "VERSE:") && recitation {
        return is_continuity_exercise(exercise);
    }
    true
}

/// Law: the translation family is given exactly to the axes about meaning
/// (translation, meaning, tafsir); memorization, contextual memorization and
/// tajweed get the memorization family.
pub proof fn law_family_by_axis(axis: KnowledgeAxis)
    ensures
        (spec_family(axis) == ExerciseFamily::Translation) <==> (axis == KnowledgeAxis::Translation
            || axis == KnowledgeAxis::Meaning || axis == KnowledgeAxis::Tafsir),
        (spec_family(axis) == ExerciseFamily::Memorization) <==> (axis
            == KnowledgeAxis::Memorization || axis == KnowledgeAxis::ContextualMemorization || axis
            == KnowledgeAxis::Tajweed),
{
}

/// Law: for a word (`WORD:` or `WORD_INSTANCE:` key) on the translation,
/// meaning or tafsir axis, the guardrail lets an exercise through exactly
/// when it asks for the word's meaning: an Arabic-to-English choice, a
/// contextual translation or the root.
pub proof fn law_guardrail_word_meaning(base_ukey: Seq<char>, axis: Option<KnowledgeAxis>, ex: ExerciseData)
    requires
        has_prefix(base_ukey, "WORD:"@) || has_prefix(base_ukey, "WORD_INSTANCE:"@),
        axis == Some(KnowledgeAxis::Translation) || axis == Some(KnowledgeAxis::Meaning) || axis
            == Some(KnowledgeAxis::Tafsir),
    ensures
        spec_guardrail(base_ukey, axis, ex) <==> (ex is McqArToEn || ex is ContextualTranslation
            || ex is IdentifyRoot),
{
}

/// Law: for a verse (`VERSE:` key) on the memorization or contextual
/// memorization axis, or with no axis, the guardrail lets an exercise
/// through exactly when it tests the continuity of the recitation.
pub proof fn law_guardrail_verse_recitation(base_ukey: Seq<char>, axis: Option<KnowledgeAxis>, ex: ExerciseData)
    requires
        has_prefix(base_ukey, "VERSE:"@),
        axis == Some(KnowledgeAxis::Memorization) || axis == Some(
            KnowledgeAxis::ContextualMemorization,
        ) || axis is None,
    ensures
        spec_guardrail(base_ukey, axis, ex) <==> (ex is EchoRecall || ex is MissingWordMcq
            || ex is NextWordMcq || ex is AyahChain || ex is ClozeDeletion || ex is FirstLetterHint
            || ex is FullVerseInput),
{
    assert(!(has_prefix(base_ukey, "WORD:"@) || has_prefix(base_ukey, "WORD_INSTANCE:"@))
        || !(axis == Some(KnowledgeAxis::Translation) || axis == Some(KnowledgeAxis::Meaning)
        || axis == Some(KnowledgeAxis::Tafsir)));
}

/// Law: outside those two cases the guardrail lets every exercise through.
pub proof fn law_guardrail_otherwise(base_ukey: Seq<char>, axis: Option<KnowledgeAxis>, ex: ExerciseData)
    requires
        !((has_prefix(base_ukey, "WORD:"@) || has_prefix(base_ukey, "WORD_INSTANCE:"@)) && (axis
            == Some(KnowledgeAxis::Translation) || axis == Some(KnowledgeAxis::Meaning) || axis
            == Some(KnowledgeAxis::Tafsir))),
        !(has_prefix(base_ukey, "VERSE:"@) && (axis == Some(KnowledgeAxis::Memorization) || axis
            == Some(KnowledgeAxis::ContextualMemorization) || axis is None)),
    ensures
        spec_guardrail(base_ukey, axis, ex),
{
}

/// No exercise tests both the meaning of a word and the continuity of a
/// recitation.
pub proof fn law_lexical_and_continuity_disjoint(ex: ExerciseData)
    ensures
        !(spec_is_lexical(ex) && spec_is_continuity(ex)),
{
}

/// The slot of a node lies below the modulo, and depends only on the node.
pub proof fn law_slot_in_range(node_id: i64, modulo: u32)
    requires
        modulo > 0,
    ensures
        0 <= spec_slot(node_id, modulo) < modulo,
{
}

/// A hint comes only with a wrong answer, and no response reveals the
/// answer.
pub proof fn law_response_hint_only_when_wrong(
    ex: AnyExercise,
    answer: Seq<char>,
    grade: Option<SemanticGradeLabel>,
)
    ensures
        spec_response(ex, answer, grade).0 ==> spec_response(ex, answer, grade).2 is None,
        spec_response(ex, answer, grade).1 is None,
{
}

// ---------------------------------------------------------------------------
// Planning an exercise for a node
// ---------------------------------------------------------------------------

/// The generators of exercise data the service can call.
#[derive(Debug, Clone, Copy, PartialEq, Eq, Structural)]
pub enum GeneratorKind {
    McqArToEn,
    ContextualTranslation,
    IdentifyRoot,
    MissingWordMcq,
    NextWordMcq,
    EchoRecall,
    FullVerseInput,
    AyahChain,
}

/// The generators to try for a node, in order: the first that succeeds
/// gives the exercise; when all fail, the last one's error stands. A word
/// gets a lexical exercise picked by its slot (the root exercise falling
/// back to the Arabic-to-English question), a verse a continuity exercise
/// picked by its slot, then echo recall, then full verse input, a chapter an
/// ayah chain.
pub open spec fn spec_plan(base_ukey: Seq<char>, base_node_id: i64) -> Result<Seq<GeneratorKind>, Seq<char>> {
    if is_word_key(base_ukey) {
        let s = spec_slot(base_node_id, 3);
        if s == 0 {
            Ok(seq![GeneratorKind::McqArToEn])
        } else if s == 1 {
            Ok(seq![GeneratorKind::ContextualTranslation])
        } else {
            Ok(seq![GeneratorKind::IdentifyRoot, GeneratorKind::McqArToEn])
        }
    } else if has_prefix(base_ukey, "VERSE:"@) {
        Ok(
            seq![
                if spec_slot(base_node_id, 2) == 0 {
                    GeneratorKind::MissingWordMcq
                } else {
                    GeneratorKind::NextWordMcq
                },
                GeneratorKind::EchoRecall,
                GeneratorKind::FullVerseInput,
            ],
        )
    } else if has_prefix(base_ukey, "CHAPTER:"@) {
        Ok(seq![GeneratorKind::AyahChain])
    } else {
        Err("Cannot determine exercise type for node: "@ + base_ukey)
    }
}

/// The generators to try for a node.
pub fn exercise_plan(base_ukey: &str, base_node_id: i64) -> (r: Result<Vec<GeneratorKind>, ExerciseError>)
    ensures
        match (r, spec_plan(base_ukey@, base_node_id)) {
            (Ok(v), Ok(p)) => v@ == p,
            (Err(e), Err(m)) => e.message@ == m,
            _ => false,
        },
{
    if starts_with_str(base_ukey, "WORD:") || starts_with_str(base_ukey, "WORD_INSTANCE:") {
        let s = deterministic_slot(base_node_id, 3);
        if s == 0 {
            Ok(vec![GeneratorKind::McqArToEn])
        } else if s == 1 {
            Ok(vec![GeneratorKind::ContextualTranslation])
        } else {
            Ok(vec![GeneratorKind::IdentifyRoot, GeneratorKind::McqArToEn])
        }
    } else if starts_with_str(base_ukey, "VERSE:") {
        let first = if deterministic_slot(base_node_id, 2) == 0 {
            GeneratorKind::MissingWordMcq
        } else {
            GeneratorKind::NextWordMcq
        };
        Ok(vec![first, GeneratorKind::EchoRecall, GeneratorKind::FullVerseInput])
    } else if starts_with_str(base_ukey, "CHAPTER:") {
        Ok(vec![GeneratorKind::AyahChain])
    } else {
        Err(ExerciseError { message: concat2("Cannot determine exercise type for node: ", base_ukey) })
    }
}

/// The base key and the axis of a node key: the key without its axis and
/// the axis, for a knowledge node; the key itself and no axis otherwise.
pub open spec fn spec_base_and_axis(ukey: Seq<char>) -> (Seq<char>, Option<KnowledgeAxis>) {
    match spec_knowledge_parts(ukey) {
        Some((b, a)) => (b, Some(a)),
        None => (ukey, None),
    }
}

/// The base key and the axis of a node key.
pub fn base_and_axis(ukey: &str) -> (r: (String, Option<KnowledgeAxis>))
    ensures
        (r.0@, r.1) == spec_base_and_axis(ukey@),
{
    match KnowledgeNode::parse(ukey) {
        Some(k) => (k.base_node_id, Some(k.axis)),
        None => (owned(ukey), None),
    }
}

/// Whether the base of a knowledge node must be looked up by its key: the
/// node has an axis but its ID does not encode the base.
pub fn base_needs_lookup(node_id: i64, has_axis: bool) -> (r: bool)
    ensures
        r == (has_axis && spec_decode_knowledge(node_id as int) is None),
{
    has_axis && decode_knowledge_id(node_id).is_none()
}

/// The node an exercise is generated for: a knowledge node's base, decoded
/// from its ID or else the node found by the base key (the ID itself where
/// none is found); any other node itself.
pub fn base_node_id(node_id: i64, has_axis: bool, found: Option<i64>) -> (r: i64)
    ensures
        r == (if !has_axis {
            node_id
        } else {
            match spec_decode_knowledge(node_id as int) {
                Some((b, _)) => b,
                None => match found {
                    Some(f) => f,
                    None => node_id,
                },
            }
        }),
{
    if !has_axis {
        return node_id;
    }
    match decode_knowledge_id(node_id) {
        Some((b, _)) => b,
        None => match found {
            Some(f) => f,
            None => node_id,
        },
    }
}

/// How an axis is printed for debugging.
pub open spec fn axis_debug(a: Option<KnowledgeAxis>) -> Seq<char> {
    match a {
        None => "None"@,
        Some(KnowledgeAxis::Memorization) => "Some(Memorization)"@,
        Some(KnowledgeAxis::Translation) => "Some(Translation)"@,
        Some(KnowledgeAxis::Tafsir) => "Some(Tafsir)"@,
        Some(KnowledgeAxis::Tajweed) => "Some(Tajweed)"@,
        Some(KnowledgeAxis::ContextualMemorization) => "Some(ContextualMemorization)"@,
        Some(KnowledgeAxis::Meaning) => "Some(Meaning)"@,
    }
}

/// The error for an exercise the guardrail refuses.
pub fn guardrail_message(base_ukey: &str, axis: Option<KnowledgeAxis>, exercise: &ExerciseData) -> (r:
    String)
    ensures
        r@ == "Guardrail violation for node `"@ + base_ukey@ + "` axis "@ + axis_debug(axis)
            + " -> exercise `"@ + exercise.spec_exercise_type_name() + "`"@,
{
    let a = match axis {
        None => "None",
        Some(KnowledgeAxis::Memorization) => "Some(Memorization)",
        Some(KnowledgeAxis::Translation) => "Some(Translation)",
        Some(KnowledgeAxis::Tafsir) => "Some(Tafsir)",
        Some(KnowledgeAxis::Tajweed) => "Some(Tajweed)",
        Some(KnowledgeAxis::ContextualMemorization) => "Some(ContextualMemorization)",
        Some(KnowledgeAxis::Meaning) => "Some(Meaning)",
    };
    let x = concat3("Guardrail violation for node `", base_ukey, "` axis ");
    let y = concat3(x.as_str(), a, " -> exercise `");
    concat3(y.as_str(), exercise.exercise_type_name(), "`")
}

/// The two families of exercises the axis-driven generation hands out.
#[derive(Debug, Clone, Copy, PartialEq, Eq, Structural)]
pub enum ExerciseFamily {
    Memorization,
    Translation,
}

/// The family of exercise for an axis: recitation axes (and tajweed) get a
/// memorization exercise, meaning axes (and tafsir) a translation exercise.
pub open spec fn spec_family(axis: KnowledgeAxis) -> ExerciseFamily {
    match axis {
        KnowledgeAxis::Memorization | KnowledgeAxis::ContextualMemorization
        | KnowledgeAxis::Tajweed => ExerciseFamily::Memorization,
        KnowledgeAxis::Translation | KnowledgeAxis::Meaning | KnowledgeAxis::Tafsir => ExerciseFamily::Translation,
    }
}

/// The family of exercise for an axis.
pub fn family_for_axis(axis: KnowledgeAxis) -> (r: ExerciseFamily)
    ensures
        r == spec_family(axis),
{
    match axis {
        KnowledgeAxis::Memorization | KnowledgeAxis::ContextualMemorization
        | KnowledgeAxis::Tajweed => ExerciseFamily::Memorization,
        KnowledgeAxis::Translation | KnowledgeAxis::Meaning | KnowledgeAxis::Tafsir => ExerciseFamily::Translation,
    }
}

/// The family of exercise for a node key: by its axis, memorization for a
/// key without one.
pub fn family_for_key(ukey: &str) -> (r: ExerciseFamily)
    ensures
        r == match spec_base_and_axis(ukey@).1 {
            Some(a) => spec_family(a),
            None => ExerciseFamily::Memorization,
        },
{
    match KnowledgeNode::parse(ukey) {
        Some(k) => family_for_axis(k.axis),
        None => ExerciseFamily::Memorization,
    }
}

/// Whether a generator makes an exercise on the meaning of a word.
pub open spec fn makes_lexical(g: GeneratorKind) -> bool {
    g == GeneratorKind::McqArToEn || g == GeneratorKind::ContextualTranslation || g
        == GeneratorKind::IdentifyRoot
}

/// Whether a generator makes an exercise on the continuity of a recitation.
pub open spec fn makes_continuity(g: GeneratorKind) -> bool {
    g == GeneratorKind::MissingWordMcq || g == GeneratorKind::NextWordMcq || g
        == GeneratorKind::EchoRecall || g == GeneratorKind::FullVerseInput || g
        == GeneratorKind::AyahChain
}

/// A plan names at least one generator; for a word it names only generators
/// of lexical exercises, for a verse only generators of continuity
/// exercises, so that the guardrail lets their exercises through.
pub proof fn law_plan_fits_guardrail(base_ukey: Seq<char>, base_node_id: i64)
    ensures
        spec_plan(base_ukey, base_node_id) matches Ok(p) ==> p.len() > 0,
        is_word_key(base_ukey) ==> (spec_plan(base_ukey, base_node_id) matches Ok(p) && forall|i: int|
            0 <= i < p.len() ==> makes_lexical(#[trigger] p[i])),
        !is_word_key(base_ukey) && has_prefix(base_ukey, "VERSE:"@) ==> (spec_plan(
            base_ukey,
            base_node_id,
        ) matches Ok(p) && forall|i: int| 0 <= i < p.len() ==> makes_continuity(#[trigger] p[i])),
{
}

} // verus!

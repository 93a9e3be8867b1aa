use iqrah_core::exercises::exercise_data::ExerciseData;
use iqrah_core::exercises::grammar::IdentifyRootExercise;
use iqrah_core::exercises::mcq::McqExercise;
use iqrah_core::exercises::memorization::MemorizationExercise;
use iqrah_core::exercises::service::guardrail_allows;
use iqrah_core::exercises::validator::{AnswerKeys, DefaultValidator};
use iqrah_core::models::KnowledgeAxis;

#[test]
fn validator_test_normalize_arabic() {
    let text = "بِسْمِ ٱللَّهِ";
    let normalized = DefaultValidator::normalize_arabic(text);
    // Should remove diacritics and normalize letters
    assert!(!normalized.contains('\u{064E}')); // No Fatha
    assert!(!normalized.contains('\u{0650}')); // No Kasra
}

#[test]
fn test_normalize_english() {
    let text = "In the name of Allah, the Most Gracious!";
    let normalized = DefaultValidator::normalize_english(text);
    assert_eq!(
        normalized,
        "in the name of allah the most gracious".to_string()
    );
}

#[test]
fn test_normalize_pos() {
    assert_eq!(DefaultValidator::normalize_pos("  NOUN  "), "noun");
    assert_eq!(DefaultValidator::normalize_pos("Verb"), "verb");
}

#[test]
fn memorization_test_normalize_arabic() {
    // Test with diacritics
    let with_tashkeel = "بِسْمِ";
    let without_tashkeel = "بسم";

    assert_eq!(
        MemorizationExercise::normalize_arabic(with_tashkeel),
        MemorizationExercise::normalize_arabic(without_tashkeel)
    );
}

#[test]
fn test_normalize_handles_whitespace() {
    let text1 = "  بسم  ";
    let text2 = "بسم";

    assert_eq!(
        MemorizationExercise::normalize_arabic(text1),
        MemorizationExercise::normalize_arabic(text2)
    );
}

#[test]
fn memorization_tests_test_normalize_arabic() {
    assert_eq!(
        MemorizationExercise::normalize_arabic("بِسْمِ"),
        MemorizationExercise::normalize_arabic("بسم")
    );

    assert_eq!(
        MemorizationExercise::normalize_arabic("ٱللَّهِ"),
        MemorizationExercise::normalize_arabic("الله")
    );

    assert_eq!(MemorizationExercise::normalize_arabic("  test  "), "test");
}

#[test]
fn test_normalize_root() {
    assert_eq!(IdentifyRootExercise::normalize_root("ع-ل-م"), "علم");
    assert_eq!(IdentifyRootExercise::normalize_root("ع ل م"), "علم");
    assert_eq!(IdentifyRootExercise::normalize_root("علم"), "علم");
    assert_eq!(IdentifyRootExercise::normalize_root("  ك-ت-ب  "), "كتب");
}

#[test]
fn test_generate_root_distractors() {
    let distractors = IdentifyRootExercise::generate_root_distractors("ع-ل-م", 3);
    assert_eq!(distractors.len(), 3);
    assert!(!distractors.contains(&"ع-ل-م".to_string()));
}

#[test]
fn test_normalize() {
    assert_eq!(McqExercise::normalize("  Test  "), "test");
    assert_eq!(McqExercise::normalize("TeSt"), "test");
}

#[test]
fn test_generate_translation_distractors() {
    let distractors = McqExercise::generate_translation_distractors("in the name", 3);
    assert_eq!(distractors.len(), 3);
    assert!(!distractors.contains(&"in the name".to_string()));
}

#[test]
fn test_generate_arabic_distractors() {
    let distractors = McqExercise::generate_arabic_distractors("بِسْمِ", 3);
    assert_eq!(distractors.len(), 3);
    assert!(!distractors.contains(&"بِسْمِ".to_string()));
}

#[test]
fn test_axis_guardrail_lexical_axis_rejects_continuity_exercise() {
    let exercise = ExerciseData::NextWordMcq {
        node_id: 11,
        context_position: 1,
        distractor_node_ids: vec![2, 3, 4],
    };
    assert!(!guardrail_allows(
        "WORD:1:1:1",
        Some(KnowledgeAxis::Translation),
        &exercise
    ));
}

#[test]
fn test_axis_guardrail_memorization_verse_requires_continuity() {
    let bad = ExerciseData::McqArToEn {
        node_id: 11,
        distractor_node_ids: vec![2, 3, 4],
    };
    let good = ExerciseData::MissingWordMcq {
        node_id: 11,
        blank_position: 2,
        distractor_node_ids: vec![2, 3, 4],
    };

    assert!(!guardrail_allows(
        "VERSE:1:1",
        Some(KnowledgeAxis::Memorization),
        &bad
    ));
    assert!(guardrail_allows(
        "VERSE:1:1",
        Some(KnowledgeAxis::Memorization),
        &good
    ));
}

#[test]
fn find_mistake_test_placeholder() {
    // Find mistake tests require database setup
    // Tests are integrated via mockall
}

#[test]
fn full_verse_input_test_placeholder() {
    // Full verse input tests require database setup
}

#[test]
fn graph_test_placeholder() {
    // Graph tests require full database setup
    // See graph_tests.rs for comprehensive tests
}

#[test]
fn pos_tagging_test_placeholder() {
    // POS tagging tests require database setup
}

#[test]
fn reverse_cloze_test_placeholder() {
    // Reverse cloze tests require full database setup
    // See reverse_cloze_tests.rs for comprehensive tests
}

#[test]
fn translate_phrase_test_placeholder() {
    // Translate phrase tests require database setup
}

#[test]
fn answer_keys_for_held_answers() {
    let v = DefaultValidator::new();
    let keys = v
        .get_answer_keys(&ExerciseData::FindMistake {
            node_id: 1,
            mistake_position: 3,
            correct_word_node_id: 2,
            incorrect_word_node_id: 4,
        })
        .unwrap();
    assert!(matches!(keys, AnswerKeys::Position { value: 3 }));
    let keys = v
        .get_answer_keys(&ExerciseData::AyahSequence { node_id: 1, correct_sequence: vec![7, 8] })
        .unwrap();
    match keys {
        AnswerKeys::Sequence { values } => assert_eq!(values, vec!["7".to_string(), "8".to_string()]),
        _ => panic!("expected a sequence"),
    }
    let err = v.get_answer_keys(&ExerciseData::Memorization { node_id: 1 }).unwrap_err();
    assert_eq!(err.message, "Exercise type memorization requires async answer key retrieval");
}

use iqrah_core::exercises::exercise_data::ExerciseData;

#[test]
fn exercise_data_test_memorization_variant() {
    let exercise = ExerciseData::Memorization { node_id: 1 };

    assert_eq!(exercise.node_id(), 1);
    assert_eq!(exercise.exercise_type_name(), "memorization");
    assert!(!exercise.is_stateful());
    assert!(exercise.requires_arabic_input());
    assert!(!exercise.requires_english_input());
    assert!(!exercise.is_mcq());
}

#[test]
fn exercise_data_test_mcq_ar_to_en_variant() {
    let exercise = ExerciseData::McqArToEn {
        node_id: 1,
        distractor_node_ids: vec![2, 3, 4],
    };

    assert_eq!(exercise.exercise_type_name(), "mcq_ar_to_en");
    assert!(exercise.is_mcq());
    assert!(!exercise.is_stateful());
    assert!(!exercise.requires_arabic_input());
}

#[test]
fn exercise_data_test_mcq_en_to_ar_variant() {
    let exercise = ExerciseData::McqEnToAr {
        node_id: 1,
        distractor_node_ids: vec![2, 3],
    };

    assert_eq!(exercise.exercise_type_name(), "mcq_en_to_ar");
    assert!(exercise.is_mcq());
    assert!(exercise.requires_arabic_input());
}

#[test]
fn exercise_data_test_translation_variant() {
    let exercise = ExerciseData::Translation { node_id: 1 };

    assert_eq!(exercise.exercise_type_name(), "translation");
    assert!(exercise.requires_english_input());
    assert!(!exercise.requires_arabic_input());
}

#[test]
fn exercise_data_test_contextual_translation_variant() {
    let exercise = ExerciseData::ContextualTranslation {
        node_id: 1,
        verse_key: "1:1".to_string(),
    };

    assert_eq!(exercise.exercise_type_name(), "contextual_translation");
    assert!(exercise.requires_english_input());
}

#[test]
fn exercise_data_test_cloze_deletion_variant() {
    let exercise = ExerciseData::ClozeDeletion {
        node_id: 1,
        blank_position: 3,
    };

    assert_eq!(exercise.exercise_type_name(), "cloze_deletion");
    assert!(exercise.requires_arabic_input());
}

#[test]
fn exercise_data_test_first_letter_hint_variant() {
    let exercise = ExerciseData::FirstLetterHint {
        node_id: 1,
        word_position: 2,
    };

    assert_eq!(exercise.exercise_type_name(), "first_letter_hint");
    assert!(exercise.requires_arabic_input());
}

#[test]
fn exercise_data_test_missing_word_mcq_variant() {
    let exercise = ExerciseData::MissingWordMcq {
        node_id: 1,
        blank_position: 3,
        distractor_node_ids: vec![2, 3],
    };

    assert_eq!(exercise.exercise_type_name(), "missing_word_mcq");
    assert!(exercise.is_mcq());
}

#[test]
fn exercise_data_test_next_word_mcq_variant() {
    let exercise = ExerciseData::NextWordMcq {
        node_id: 1,
        context_position: 2,
        distractor_node_ids: vec![2],
    };

    assert_eq!(exercise.exercise_type_name(), "next_word_mcq");
    assert!(exercise.is_mcq());
}

#[test]
fn exercise_data_test_full_verse_input_variant() {
    let exercise = ExerciseData::FullVerseInput { node_id: 1 };

    assert_eq!(exercise.exercise_type_name(), "full_verse_input");
    assert!(exercise.requires_arabic_input());
}

#[test]
fn exercise_data_test_ayah_chain_variant() {
    let exercise = ExerciseData::AyahChain {
        node_id: 1,
        verse_keys: vec!["1:1".to_string(), "1:2".to_string(), "1:3".to_string()],
        current_index: 0,
        completed_count: 0,
    };

    assert_eq!(exercise.exercise_type_name(), "ayah_chain");
    assert!(exercise.is_stateful());
    assert!(exercise.requires_arabic_input());
}

#[test]
fn exercise_data_test_find_mistake_variant() {
    let exercise = ExerciseData::FindMistake {
        node_id: 1,
        mistake_position: 3,
        correct_word_node_id: 2,
        incorrect_word_node_id: 3,
    };

    assert_eq!(exercise.exercise_type_name(), "find_mistake");
    assert!(!exercise.requires_arabic_input());
    assert!(!exercise.requires_english_input());
}

#[test]
fn exercise_data_test_ayah_sequence_variant() {
    let exercise = ExerciseData::AyahSequence {
        node_id: 1,
        correct_sequence: vec![2, 3, 4],
    };

    assert_eq!(exercise.exercise_type_name(), "ayah_sequence");
}

#[test]
fn test_sequence_recall_variant() {
    let exercise = ExerciseData::SequenceRecall {
        node_id: 1,
        correct_sequence: vec![2, 3],
        options: vec![vec![2, 3], vec![4, 5]],
    };

    assert_eq!(exercise.exercise_type_name(), "sequence_recall");
    assert!(exercise.is_mcq());
}

#[test]
fn test_first_word_recall_variant() {
    let exercise = ExerciseData::FirstWordRecall {
        node_id: 1,
        verse_key: "1:1".to_string(),
    };

    assert_eq!(exercise.exercise_type_name(), "first_word_recall");
    assert!(exercise.requires_arabic_input());
}

#[test]
fn exercise_data_test_identify_root_variant() {
    let exercise = ExerciseData::IdentifyRoot {
        node_id: 1,
        root: "كتب".to_string(),
    };

    assert_eq!(exercise.exercise_type_name(), "identify_root");
    assert!(!exercise.is_mcq());
}

#[test]
fn exercise_data_test_reverse_cloze_variant() {
    let exercise = ExerciseData::ReverseCloze {
        node_id: 1,
        blank_position: 3,
    };

    assert_eq!(exercise.exercise_type_name(), "reverse_cloze");
    assert!(exercise.requires_arabic_input());
}

#[test]
fn exercise_data_test_translate_phrase_variant() {
    let exercise = ExerciseData::TranslatePhrase {
        node_id: 1,
        translator_id: 131,
    };

    assert_eq!(exercise.exercise_type_name(), "translate_phrase");
    assert!(exercise.requires_english_input());
}

#[test]
fn exercise_data_test_pos_tagging_variant() {
    let exercise = ExerciseData::PosTagging {
        node_id: 1,
        correct_pos: "noun".to_string(),
        options: vec![
            "noun".to_string(),
            "verb".to_string(),
            "particle".to_string(),
        ],
    };

    assert_eq!(exercise.exercise_type_name(), "pos_tagging");
    assert!(exercise.is_mcq());
}

#[test]
fn exercise_data_test_cross_verse_connection_variant() {
    let exercise = ExerciseData::CrossVerseConnection {
        node_id: 1,
        related_verse_ids: vec![2, 3],
        connection_theme: "names_of_allah".to_string(),
    };

    assert_eq!(exercise.exercise_type_name(), "cross_verse_connection");
}

#[test]
fn exercise_data_test_all_exercise_types_have_unique_type_names() {
    let exercises = vec![
        ExerciseData::Memorization { node_id: 1 },
        ExerciseData::McqArToEn {
            node_id: 1,
            distractor_node_ids: vec![],
        },
        ExerciseData::McqEnToAr {
            node_id: 1,
            distractor_node_ids: vec![],
        },
        ExerciseData::Translation { node_id: 1 },
        ExerciseData::ContextualTranslation {
            node_id: 1,
            verse_key: "1:1".to_string(),
        },
        ExerciseData::ClozeDeletion {
            node_id: 1,
            blank_position: 1,
        },
        ExerciseData::FirstLetterHint {
            node_id: 1,
            word_position: 1,
        },
        ExerciseData::MissingWordMcq {
            node_id: 1,
            blank_position: 1,
            distractor_node_ids: vec![],
        },
        ExerciseData::NextWordMcq {
            node_id: 1,
            context_position: 1,
            distractor_node_ids: vec![],
        },
        ExerciseData::FullVerseInput { node_id: 1 },
        ExerciseData::AyahChain {
            node_id: 1,
            verse_keys: vec![],
            current_index: 0,
            completed_count: 0,
        },
        ExerciseData::FindMistake {
            node_id: 1,
            mistake_position: 1,
            correct_word_node_id: 2,
            incorrect_word_node_id: 3,
        },
        ExerciseData::AyahSequence {
            node_id: 1,
            correct_sequence: vec![],
        },
        ExerciseData::SequenceRecall {
            node_id: 1,
            correct_sequence: vec![],
            options: vec![],
        },
        ExerciseData::FirstWordRecall {
            node_id: 1,
            verse_key: "1:1".to_string(),
        },
        ExerciseData::IdentifyRoot {
            node_id: 1,
            root: "كتب".to_string(),
        },
        ExerciseData::ReverseCloze {
            node_id: 1,
            blank_position: 1,
        },
        ExerciseData::TranslatePhrase {
            node_id: 1,
            translator_id: 131,
        },
        ExerciseData::PosTagging {
            node_id: 1,
            correct_pos: "noun".to_string(),
            options: vec![],
        },
        ExerciseData::CrossVerseConnection {
            node_id: 1,
            related_verse_ids: vec![],
            connection_theme: "theme".to_string(),
        },
        ExerciseData::EchoRecall {
            ayah_node_ids: vec![1, 2, 3],
        },
    ];

    let mut type_names: Vec<&str> = exercises.iter().map(|e| e.exercise_type_name()).collect();
    let original_len = type_names.len();
    type_names.sort();
    type_names.dedup();

    assert_eq!(
        type_names.len(),
        original_len,
        "All exercise types should have unique type names"
    );
    assert_eq!(original_len, 21, "Expected 21 exercise types");
}

#[test]
fn exercise_data_test_stateful_exercises_identified_correctly() {
    let ayah_chain = ExerciseData::AyahChain {
        node_id: 1,
        verse_keys: vec![],
        current_index: 0,
        completed_count: 0,
    };

    let echo_recall = ExerciseData::EchoRecall {
        ayah_node_ids: vec![1, 2, 3],
    };

    let memorization = ExerciseData::Memorization { node_id: 1 };

    assert!(ayah_chain.is_stateful());
    assert!(echo_recall.is_stateful());
    assert!(!memorization.is_stateful());
}

#[test]
fn exercise_data_test_mcq_exercises_identified_correctly() {
    let mcq_exercises = vec![
        ExerciseData::McqArToEn {
            node_id: 1,
            distractor_node_ids: vec![],
        },
        ExerciseData::McqEnToAr {
            node_id: 1,
            distractor_node_ids: vec![],
        },
        ExerciseData::MissingWordMcq {
            node_id: 1,
            blank_position: 1,
            distractor_node_ids: vec![],
        },
        ExerciseData::NextWordMcq {
            node_id: 1,
            context_position: 1,
            distractor_node_ids: vec![],
        },
        ExerciseData::SequenceRecall {
            node_id: 1,
            correct_sequence: vec![],
            options: vec![],
        },
        ExerciseData::PosTagging {
            node_id: 1,
            correct_pos: "noun".to_string(),
            options: vec![],
        },
    ];

    for exercise in mcq_exercises {
        assert!(
            exercise.is_mcq(),
            "{} should be identified as MCQ",
            exercise.exercise_type_name()
        );
    }

    let non_mcq = ExerciseData::Memorization { node_id: 1 };
    assert!(!non_mcq.is_mcq());
}

#[test]
fn enum_tests_test_memorization_variant() {
    let exercise = ExerciseData::Memorization { node_id: 1 };

    assert_eq!(exercise.node_id(), 1);
    assert_eq!(exercise.exercise_type_name(), "memorization");
    assert!(!exercise.is_stateful());
    assert!(exercise.requires_arabic_input());
    assert!(!exercise.requires_english_input());
    assert!(!exercise.is_mcq());
}

#[test]
fn enum_tests_test_mcq_ar_to_en_variant() {
    let exercise = ExerciseData::McqArToEn {
        node_id: 1,
        distractor_node_ids: vec![2, 3, 4],
    };

    assert_eq!(exercise.exercise_type_name(), "mcq_ar_to_en");
    assert!(exercise.is_mcq());
    assert!(!exercise.is_stateful());
    assert!(!exercise.requires_arabic_input());
}

#[test]
fn enum_tests_test_mcq_en_to_ar_variant() {
    let exercise = ExerciseData::McqEnToAr {
        node_id: 1,
        distractor_node_ids: vec![2, 3],
    };

    assert_eq!(exercise.exercise_type_name(), "mcq_en_to_ar");
    assert!(exercise.is_mcq());
    assert!(exercise.requires_arabic_input());
}

#[test]
fn enum_tests_test_translation_variant() {
    let exercise = ExerciseData::Translation { node_id: 1 };

    assert_eq!(exercise.exercise_type_name(), "translation");
    assert!(exercise.requires_english_input());
    assert!(!exercise.requires_arabic_input());
}

#[test]
fn enum_tests_test_contextual_translation_variant() {
    let exercise = ExerciseData::ContextualTranslation {
        node_id: 1,
        verse_key: "1:1".to_string(),
    };

    assert_eq!(exercise.exercise_type_name(), "contextual_translation");
    assert!(exercise.requires_english_input());
}

#[test]
fn enum_tests_test_cloze_deletion_variant() {
    let exercise = ExerciseData::ClozeDeletion {
        node_id: 1,
        blank_position: 3,
    };

    assert_eq!(exercise.exercise_type_name(), "cloze_deletion");
    assert!(exercise.requires_arabic_input());
}

#[test]
fn enum_tests_test_first_letter_hint_variant() {
    let exercise = ExerciseData::FirstLetterHint {
        node_id: 1,
        word_position: 2,
    };

    assert_eq!(exercise.exercise_type_name(), "first_letter_hint");
    assert!(exercise.requires_arabic_input());
}

#[test]
fn enum_tests_test_missing_word_mcq_variant() {
    let exercise = ExerciseData::MissingWordMcq {
        node_id: 1,
        blank_position: 3,
        distractor_node_ids: vec![2, 3],
    };

    assert_eq!(exercise.exercise_type_name(), "missing_word_mcq");
    assert!(exercise.is_mcq());
}

#[test]
fn enum_tests_test_next_word_mcq_variant() {
    let exercise = ExerciseData::NextWordMcq {
        node_id: 1,
        context_position: 2,
        distractor_node_ids: vec![2],
    };

    assert_eq!(exercise.exercise_type_name(), "next_word_mcq");
    assert!(exercise.is_mcq());
}

#[test]
fn enum_tests_test_full_verse_input_variant() {
    let exercise = ExerciseData::FullVerseInput { node_id: 1 };

    assert_eq!(exercise.exercise_type_name(), "full_verse_input");
    assert!(exercise.requires_arabic_input());
}

#[test]
fn enum_tests_test_ayah_chain_variant() {
    let exercise = ExerciseData::AyahChain {
        node_id: 1,
        verse_keys: vec!["1:1".to_string(), "1:2".to_string(), "1:3".to_string()],
        current_index: 0,
        completed_count: 0,
    };

    assert_eq!(exercise.exercise_type_name(), "ayah_chain");
    assert!(exercise.is_stateful());
    assert!(exercise.requires_arabic_input());
}

#[test]
fn enum_tests_test_find_mistake_variant() {
    let exercise = ExerciseData::FindMistake {
        node_id: 1,
        mistake_position: 3,
        correct_word_node_id: 2,
        incorrect_word_node_id: 3,
    };

    assert_eq!(exercise.exercise_type_name(), "find_mistake");
    assert!(!exercise.requires_arabic_input());
    assert!(!exercise.requires_english_input());
}

#[test]
fn enum_tests_test_ayah_sequence_variant() {
    let exercise = ExerciseData::AyahSequence {
        node_id: 1,
        correct_sequence: vec![2, 3, 4],
    };

    assert_eq!(exercise.exercise_type_name(), "ayah_sequence");
}

#[test]
fn enum_tests_test_identify_root_variant() {
    let exercise = ExerciseData::IdentifyRoot {
        node_id: 1,
        root: "كتب".to_string(),
    };

    assert_eq!(exercise.exercise_type_name(), "identify_root");
    // IdentifyRoot stores answer as text (Arabic root letters)
    // but in practice it could be MCQ or text input depending on implementation
    assert!(!exercise.is_mcq()); // Not currently marked as MCQ in the enum
}

#[test]
fn enum_tests_test_reverse_cloze_variant() {
    let exercise = ExerciseData::ReverseCloze {
        node_id: 1,
        blank_position: 3,
    };

    assert_eq!(exercise.exercise_type_name(), "reverse_cloze");
    assert!(exercise.requires_arabic_input());
}

#[test]
fn enum_tests_test_translate_phrase_variant() {
    let exercise = ExerciseData::TranslatePhrase {
        node_id: 1,
        translator_id: 131,
    };

    assert_eq!(exercise.exercise_type_name(), "translate_phrase");
    assert!(exercise.requires_english_input());
}

#[test]
fn enum_tests_test_pos_tagging_variant() {
    let exercise = ExerciseData::PosTagging {
        node_id: 1,
        correct_pos: "noun".to_string(),
        options: vec![
            "noun".to_string(),
            "verb".to_string(),
            "particle".to_string(),
        ],
    };

    assert_eq!(exercise.exercise_type_name(), "pos_tagging");
    assert!(exercise.is_mcq());
}

#[test]
fn enum_tests_test_cross_verse_connection_variant() {
    let exercise = ExerciseData::CrossVerseConnection {
        node_id: 1,
        related_verse_ids: vec![2, 3],
        connection_theme: "names_of_allah".to_string(),
    };

    assert_eq!(exercise.exercise_type_name(), "cross_verse_connection");
}

#[test]
fn enum_tests_test_all_exercise_types_have_unique_type_names() {
    let exercises = vec![
        ExerciseData::Memorization { node_id: 1 },
        ExerciseData::McqArToEn {
            node_id: 1,
            distractor_node_ids: vec![],
        },
        ExerciseData::McqEnToAr {
            node_id: 1,
            distractor_node_ids: vec![],
        },
        ExerciseData::Translation { node_id: 1 },
        ExerciseData::ContextualTranslation {
            node_id: 1,
            verse_key: "1:1".to_string(),
        },
        ExerciseData::ClozeDeletion {
            node_id: 1,
            blank_position: 1,
        },
        ExerciseData::FirstLetterHint {
            node_id: 1,
            word_position: 1,
        },
        ExerciseData::MissingWordMcq {
            node_id: 1,
            blank_position: 1,
            distractor_node_ids: vec![],
        },
        ExerciseData::NextWordMcq {
            node_id: 1,
            context_position: 1,
            distractor_node_ids: vec![],
        },
        ExerciseData::FullVerseInput { node_id: 1 },
        ExerciseData::AyahChain {
            node_id: 1,
            verse_keys: vec![],
            current_index: 0,
            completed_count: 0,
        },
        ExerciseData::FindMistake {
            node_id: 1,
            mistake_position: 1,
            correct_word_node_id: 2,
            incorrect_word_node_id: 3,
        },
        ExerciseData::AyahSequence {
            node_id: 1,
            correct_sequence: vec![],
        },
        ExerciseData::IdentifyRoot {
            node_id: 1,
            root: "كتب".to_string(),
        },
        ExerciseData::ReverseCloze {
            node_id: 1,
            blank_position: 1,
        },
        ExerciseData::TranslatePhrase {
            node_id: 1,
            translator_id: 131,
        },
        ExerciseData::PosTagging {
            node_id: 1,
            correct_pos: "noun".to_string(),
            options: vec![],
        },
        ExerciseData::CrossVerseConnection {
            node_id: 1,
            related_verse_ids: vec![],
            connection_theme: "theme".to_string(),
        },
    ];

    let mut type_names: Vec<&str> = exercises.iter().map(|e| e.exercise_type_name()).collect();
    let original_len = type_names.len();
    type_names.sort();
    type_names.dedup();

    assert_eq!(
        type_names.len(),
        original_len,
        "All exercise types should have unique type names"
    );
    assert_eq!(original_len, 18, "Expected 18 exercise types");
}

#[test]
fn enum_tests_test_stateful_exercises_identified_correctly() {
    let ayah_chain = ExerciseData::AyahChain {
        node_id: 1,
        verse_keys: vec![],
        current_index: 0,
        completed_count: 0,
    };

    let memorization = ExerciseData::Memorization { node_id: 1 };

    assert!(ayah_chain.is_stateful());
    assert!(!memorization.is_stateful());
}

#[test]
fn enum_tests_test_mcq_exercises_identified_correctly() {
    let mcq_exercises = vec![
        ExerciseData::McqArToEn {
            node_id: 1,
            distractor_node_ids: vec![],
        },
        ExerciseData::McqEnToAr {
            node_id: 1,
            distractor_node_ids: vec![],
        },
        ExerciseData::MissingWordMcq {
            node_id: 1,
            blank_position: 1,
            distractor_node_ids: vec![],
        },
        ExerciseData::NextWordMcq {
            node_id: 1,
            context_position: 1,
            distractor_node_ids: vec![],
        },
        ExerciseData::PosTagging {
            node_id: 1,
            correct_pos: "noun".to_string(),
            options: vec![],
        },
    ];

    for exercise in mcq_exercises {
        assert!(
            exercise.is_mcq(),
            "{} should be identified as MCQ",
            exercise.exercise_type_name()
        );
    }

    let non_mcq = ExerciseData::Memorization { node_id: 1 };
    assert!(!non_mcq.is_mcq());
}

#[test]
fn test_generate_memorization() {
    // Synchronous test - no async needed
    let node_id = 1;
    let exercise = ExerciseData::Memorization { node_id };
    assert_eq!(exercise.node_id(), node_id);
}

#[test]
fn test_generate_translation() {
    let node_id = 1;
    let exercise = ExerciseData::Translation { node_id };
    assert_eq!(exercise.node_id(), node_id);
}

#[test]
fn test_generate_full_verse_input() {
    let node_id = 1;
    let exercise = ExerciseData::FullVerseInput { node_id };
    assert_eq!(exercise.node_id(), node_id);
}

use iqrah_core::errors::NodeIdError;
use iqrah_core::exercises::ayah_chain::AyahChainExercise;
use iqrah_core::exercises::exercise_data::ExerciseData;
use iqrah_core::exercises::generators::{
    add_chapter_distractors, add_fallback_distractors, adjacent_verses, blank_position,
    chain_data, connection_data, find_mistake_data, linked_verses, node_verse, pick_ids,
    pos_tagging_data, replacement_positions, resolve_verse_key, sequence_data,
    sequence_recall_data, sequence_source, word_location, word_place, word_ref, BlankKind,
    EdgeTarget, SequenceSource, WordLocation, WordRef,
};
use iqrah_core::exercises::mcq::McqExercise;
use iqrah_core::exercises::memorization::MemorizationExercise;
use iqrah_core::exercises::memorization_ayah::MemorizationAction;
use iqrah_core::exercises::service::{
    base_and_axis, base_node_id, base_needs_lookup, deterministic_slot, exercise_plan,
    family_for_axis, family_for_key, guardrail_allows, guardrail_message, is_continuity_exercise,
    is_lexical_exercise, AnyExercise, ExerciseFamily, ExerciseService, GeneratorKind,
};
use iqrah_core::exercises::translation::TranslationExercise;
use iqrah_core::exercises::types::{Exercise, ExerciseType, SemanticGradeLabel};
use iqrah_core::import::footnotes::extract_footnotes;
use iqrah_core::import::translators::{missing_language_message, TranslatorImportStats};
use iqrah_core::models::{EdgeType, KnowledgeAxis, Verse, Word};
use iqrah_core::node_id::{encode_knowledge, encode_verse};
use iqrah_core::placement::ArabicLevel;

fn verse(n: i32, text: &str) -> Verse {
    Verse {
        key: format!("1:{}", n),
        chapter_number: 1,
        verse_number: n,
        text_uthmani: text.to_string(),
        text_simple: None,
        juz: 1,
        page: 1,
    }
}

fn word(position: i32, text: &str) -> Word {
    Word {
        id: 300 + position as i64,
        verse_key: "1:1".to_string(),
        position,
        text_uthmani: text.to_string(),
        text_simple: None,
        transliteration: None,
    }
}

#[test]
fn service_response_gives_hint_only_when_wrong() {
    let service = ExerciseService::new(());
    let mcq = McqExercise::from_ar_to_en("WORD:1".to_string(), "رب", Some("lord".to_string()));
    let ex = AnyExercise::Mcq(mcq);
    let right = service.check_answer(&ex, "Lord", None);
    assert!(right.is_correct);
    assert!(right.hint.is_none());
    assert!(right.correct_answer.is_none());
    assert_eq!(right.options.as_ref().unwrap().len(), 4);
    assert!(right.semantic_grade.is_none());
    let wrong = service.check_answer(&ex, "king", None);
    assert!(!wrong.is_correct);
    assert!(wrong.hint.unwrap().starts_with("It's not: "));

    let tr = AnyExercise::Translation(TranslationExercise::from_texts(1, "رب".to_string(), Some("lord".to_string())));
    let graded = service.check_answer(&tr, "the lord", Some(SemanticGradeLabel::Partial));
    assert!(graded.is_correct);
    assert_eq!(graded.semantic_grade, Some("Partial".to_string()));
    assert!(graded.options.is_none());
    let ungraded = service.check_answer(&tr, "the lord", None);
    assert!(!ungraded.is_correct);
    assert_eq!(ungraded.hint, Some("Starts with: lord".to_string()));
    assert_eq!(service.get_hint(&tr), Some("Starts with: lord".to_string()));
    assert_eq!(tr.get_type_name(), "translation");

    let memo = ExerciseType::Memorization(AnyExercise::Memorization(MemorizationExercise::from_texts(
        1,
        "بسم".to_string(),
        None,
    )));
    assert_eq!(memo.get_type_name(), "memorization");
    assert_eq!(memo.as_exercise().get_type_name(), "memorization");
}

#[test]
fn deterministic_slot_is_absolute_value_modulo() {
    assert_eq!(deterministic_slot(7, 3), 1);
    assert_eq!(deterministic_slot(-7, 3), 1);
    assert_eq!(deterministic_slot(i64::MIN, 3), (9223372036854775808u64 % 3) as u32);
    assert_eq!(deterministic_slot(5, 0), 0);
    for id in -20i64..20 {
        assert!(deterministic_slot(id, 4) < 4);
        assert_eq!(deterministic_slot(id, 4), deterministic_slot(id, 4));
    }
}

#[test]
fn guardrail_and_kinds() {
    let mcq = ExerciseData::McqArToEn { node_id: 1, distractor_node_ids: vec![] };
    let cloze = ExerciseData::ClozeDeletion { node_id: 1, blank_position: 2 };
    let memo = ExerciseData::Memorization { node_id: 1 };
    assert!(is_lexical_exercise(&mcq));
    assert!(!is_continuity_exercise(&mcq));
    assert!(is_continuity_exercise(&cloze));
    assert!(guardrail_allows("WORD_INSTANCE:1:1:1", Some(KnowledgeAxis::Meaning), &mcq));
    assert!(!guardrail_allows("WORD_INSTANCE:1:1:1", Some(KnowledgeAxis::Tafsir), &cloze));
    assert!(!guardrail_allows("VERSE:1:1", None, &memo));
    assert!(guardrail_allows("VERSE:1:1", Some(KnowledgeAxis::Translation), &memo));
    assert!(guardrail_allows("CHAPTER:1", None, &memo));
    assert_eq!(
        guardrail_message("VERSE:1:1", Some(KnowledgeAxis::Memorization), &memo),
        "Guardrail violation for node `VERSE:1:1` axis Some(Memorization) -> exercise `memorization`"
    );
    assert_eq!(
        guardrail_message("VERSE:1:1", None, &cloze),
        "Guardrail violation for node `VERSE:1:1` axis None -> exercise `cloze_deletion`"
    );
}

#[test]
fn exercise_plan_by_key_and_slot() {
    assert_eq!(exercise_plan("WORD:1", 3).unwrap(), vec![GeneratorKind::McqArToEn]);
    assert_eq!(exercise_plan("WORD:1", 4).unwrap(), vec![GeneratorKind::ContextualTranslation]);
    assert_eq!(
        exercise_plan("WORD_INSTANCE:1:1:1", 5).unwrap(),
        vec![GeneratorKind::IdentifyRoot, GeneratorKind::McqArToEn]
    );
    assert_eq!(
        exercise_plan("VERSE:1:1", 2).unwrap(),
        vec![GeneratorKind::MissingWordMcq, GeneratorKind::EchoRecall, GeneratorKind::FullVerseInput]
    );
    assert_eq!(exercise_plan("VERSE:1:1", 3).unwrap()[0], GeneratorKind::NextWordMcq);
    assert_eq!(exercise_plan("CHAPTER:1", 3).unwrap(), vec![GeneratorKind::AyahChain]);
    assert_eq!(
        exercise_plan("ROOT:x", 3).unwrap_err().message,
        "Cannot determine exercise type for node: ROOT:x"
    );
    let (b, a) = base_and_axis("VERSE:1:1:tafsir");
    assert_eq!(b, "VERSE:1:1");
    assert_eq!(a, Some(KnowledgeAxis::Tafsir));
    let (b, a) = base_and_axis("VERSE:1:1");
    assert_eq!(b, "VERSE:1:1");
    assert_eq!(a, None);
    let base = encode_verse(1, 1);
    let k = encode_knowledge(base, KnowledgeAxis::Translation);
    assert!(!base_needs_lookup(k, true));
    assert!(base_needs_lookup(base, true));
    assert!(!base_needs_lookup(base, false));
    assert_eq!(base_node_id(k, true, None), base);
    assert_eq!(base_node_id(base, true, Some(77)), 77);
    assert_eq!(base_node_id(base, true, None), base);
    assert_eq!(base_node_id(k, false, Some(77)), k);
    assert_eq!(family_for_axis(KnowledgeAxis::Tajweed), ExerciseFamily::Memorization);
    assert_eq!(family_for_axis(KnowledgeAxis::Tafsir), ExerciseFamily::Translation);
    assert_eq!(family_for_key("WORD:1:meaning"), ExerciseFamily::Translation);
    assert_eq!(family_for_key("WORD:1"), ExerciseFamily::Memorization);
}

#[test]
fn ayah_chain_runs_to_completion() {
    let verses = vec![verse(1, "بِسْمِ"), verse(2, "ٱلْحَمْدُ لِلَّهِ")];
    let mut chain = AyahChainExercise::from_verses(10, 1, verses).unwrap();
    assert_eq!(chain.current_verse_ref(), Some("1:1".to_string()));
    assert_eq!(chain.generate_question(), "Ayah Chain: 1/2\n\nType verse 1:1:");
    assert_eq!(chain.get_hint(), Some("Hint: First word is 'بِسْمِ' (1 words total)".to_string()));
    assert!(chain.check_answer("بسم", None));
    assert_eq!(chain.submit_answer("بسم").unwrap(), true);
    assert_eq!(chain.submit_answer("الحمد لله").unwrap(), true);
    let p = chain.progress();
    assert!(p.is_complete);
    assert_eq!(p.completed_count, 2);
    assert_eq!(p.total_verses, 2);
    assert!(p.current_verse_key.is_none());
    assert!(p.started_at.secs > 0);
    assert_eq!(chain.generate_question(), "\u{1F389} Chain Complete! You successfully typed all 2 verses!");
    assert_eq!(chain.submit_answer("x").unwrap_err().message, "Exercise already complete");
    chain.reset();
    assert_eq!(chain.progress().completed_count, 0);
    assert_eq!(chain.current_verse_ref(), Some("1:1".to_string()));
}

#[test]
fn ayah_chain_breaks_on_mistake() {
    let verses = vec![verse(1, "بِسْمِ"), verse(2, "ٱلْحَمْدُ")];
    let mut chain = AyahChainExercise::from_verses(10, 1, verses).unwrap();
    assert_eq!(chain.submit_answer("خطأ").unwrap(), false);
    let m = chain.get_last_mistake().unwrap();
    assert_eq!(m.verse_key, "1:1");
    assert_eq!(m.user_input, "خطأ");
    assert_eq!(m.expected, "بِسْمِ");
    assert!(chain.current_verse().is_none());
    assert!(!chain.check_answer("بسم", None));
    assert_eq!(chain.generate_question(), "Chain broken. You completed 0/2 verses.");
    assert_eq!(chain.submit_answer("بسم").unwrap_err().message, "Chain already broken by mistake");
    chain.reset();
    assert!(chain.get_last_mistake().is_none());
    assert_eq!(chain.get_type_name(), "ayah_chain");
}

#[test]
fn ayah_chain_construction_errors() {
    assert_eq!(AyahChainExercise::chapter_of("CHAPTER:2").unwrap(), 2);
    assert_eq!(
        AyahChainExercise::chapter_of("VERSE:1:1").unwrap_err().message,
        "Invalid chapter node ID: VERSE:1:1"
    );
    assert_eq!(
        AyahChainExercise::from_verses(1, 9, vec![]).unwrap_err().message,
        "No verses found for chapter 9"
    );
    let all: Vec<Verse> = (1..=7).map(|n| verse(n, "t")).collect();
    let range = AyahChainExercise::verses_in_range(all, 3, 5);
    let keys: Vec<String> = range.iter().map(|v| v.key.clone()).collect();
    assert_eq!(keys, vec!["1:3", "1:4", "1:5"]);
    assert_eq!(
        AyahChainExercise::from_range(1, 1, 8, 9, vec![]).unwrap_err().message,
        "No verses found for chapter 1 range 8:9"
    );
}

#[test]
fn generator_positions_and_locations() {
    for _ in 0..30 {
        let p = blank_position(BlankKind::ClozeDeletion, 6, "1:1").unwrap();
        assert!((2..=5).contains(&p));
        let p = blank_position(BlankKind::FirstLetterHint, 6, "1:1").unwrap();
        assert!((1..=6).contains(&p));
        let p = blank_position(BlankKind::ReverseCloze, 6, "1:1").unwrap();
        assert!((2..=6).contains(&p));
        let p = blank_position(BlankKind::NextWordMcq, 6, "1:1").unwrap();
        assert!((1..=5).contains(&p));
    }
    assert_eq!(blank_position(BlankKind::ClozeDeletion, 3, "1:1").unwrap(), 2);
    assert_eq!(
        blank_position(BlankKind::MissingWordMcq, 3, "1:1").unwrap_err().message,
        "Verse too short for missing word MCQ (need at least 4 words)"
    );
    assert_eq!(
        blank_position(BlankKind::FirstLetterHint, 0, "2:3").unwrap_err().message,
        "No words found for verse: 2:3"
    );
    assert_eq!(
        word_location("WORD_INSTANCE:1:2:3").unwrap(),
        WordLocation::At { chapter: 1, verse: 2, position: 3 }
    );
    assert_eq!(word_location("WORD:42").unwrap(), WordLocation::ById { word_id: 42 });
    assert_eq!(
        word_location("VERSE:1:1").unwrap_err().message,
        "Invalid word ukey format: VERSE:1:1"
    );
    assert_eq!(word_place(5, &word(4, "x")).unwrap(), (1, 1, 4));
    assert_eq!(
        word_ref("WORD_INSTANCE:1:2:3").unwrap(),
        WordRef::InVerse { verse_key: "1:2".to_string(), position: 3 }
    );
    assert_eq!(word_ref("WORD:7").unwrap(), WordRef::ById { word_id: 7 });
    assert_eq!(resolve_verse_key("VERSE:3:4", 0).unwrap(), "3:4");
    assert_eq!(resolve_verse_key("x", encode_verse(2, 9)).unwrap(), "2:9");
    assert_eq!(resolve_verse_key("x", 5).unwrap_err().message, "Invalid verse node ID: x");
    assert_eq!(node_verse(encode_verse(2, 9), "x").unwrap(), (2, 9));
    assert_eq!(node_verse(5, "VERSE:3:4").unwrap(), (3, 4));
}

#[test]
fn generator_sequence_recall_options() {
    let nums: Vec<i32> = (1..=7).collect();
    match sequence_recall_data(9, "VERSE:1:1", 1, 1, &nums).unwrap() {
        ExerciseData::SequenceRecall { node_id, correct_sequence, options } => {
            assert_eq!(node_id, 9);
            assert_eq!(correct_sequence, vec![encode_verse(1, 2)]);
            let got: Vec<i64> = options.iter().map(|o| o[0]).collect();
            assert_eq!(got, vec![encode_verse(1, 1), encode_verse(1, 2), encode_verse(1, 3), encode_verse(1, 4)]);
        }
        _ => panic!("wrong variant"),
    }
    match sequence_recall_data(9, "VERSE:1:7", 1, 7, &nums).unwrap() {
        ExerciseData::SequenceRecall { correct_sequence, options, .. } => {
            assert_eq!(correct_sequence, vec![encode_verse(1, 6)]);
            let got: Vec<i64> = options.iter().map(|o| o[0]).collect();
            assert_eq!(got, vec![encode_verse(1, 3), encode_verse(1, 4), encode_verse(1, 5), encode_verse(1, 6)]);
        }
        _ => panic!("wrong variant"),
    }
    assert_eq!(
        sequence_recall_data(9, "VERSE:1:1", 1, 1, &vec![1]).unwrap_err().message,
        "Cannot determine sequence continuation for VERSE:1:1"
    );
    assert_eq!(
        sequence_recall_data(9, "VERSE:1:1", 1, 1, &vec![]).unwrap_err().message,
        "No verses found for chapter 1"
    );
}

#[test]
fn generator_cross_verse_steps() {
    let targets = vec![
        EdgeTarget { id: 5, ukey: "VERSE:1:2".to_string(), edge_type: EdgeType::Dependency },
        EdgeTarget { id: 6, ukey: "WORD:3".to_string(), edge_type: EdgeType::Knowledge },
        EdgeTarget { id: 5, ukey: "VERSE:1:2:memorization".to_string(), edge_type: EdgeType::Knowledge },
        EdgeTarget { id: 9, ukey: "VERSE:1:3".to_string(), edge_type: EdgeType::Knowledge },
        EdgeTarget { id: 1, ukey: "VERSE:1:1".to_string(), edge_type: EdgeType::Knowledge },
    ];
    let (ids, theme) = linked_verses(1, &targets);
    assert_eq!(ids, vec![5, 9]);
    assert_eq!(theme, Some("Dependency link".to_string()));
    assert_eq!(adjacent_verses(1, &vec![1, 2, 3]), vec![2, 3]);
    assert_eq!(adjacent_verses(4, &vec![1, 2, 3, 4, 5]), vec![2, 3, 5]);
    let verses: Vec<Verse> = (1..=7).map(|n| verse(n, "t")).collect();
    let correct = encode_verse(1, 2);
    let mut d = Vec::new();
    assert!(!add_chapter_distractors(&mut d, &verses, correct));
    assert_eq!(d, vec![encode_verse(1, 1), encode_verse(1, 3)]);
    let other: Vec<Verse> = (1..=4).map(|n| Verse { key: format!("2:{}", n), chapter_number: 2, ..verse(n, "t") }).collect();
    assert!(add_chapter_distractors(&mut d, &other, correct));
    assert_eq!(d, vec![encode_verse(1, 1), encode_verse(1, 3), encode_verse(2, 1)]);
    let mut d2 = vec![encode_verse(1, 7)];
    assert!(add_fallback_distractors(&mut d2, &verses, correct));
    assert_eq!(d2, vec![encode_verse(1, 7), encode_verse(1, 6), encode_verse(1, 5)]);
    match connection_data(1, &vec![5, 9], &d, None).unwrap() {
        ExerciseData::CrossVerseConnection { related_verse_ids, connection_theme, .. } => {
            assert_eq!(related_verse_ids[0], 5);
            assert_eq!(related_verse_ids.len(), 4);
            assert_eq!(&related_verse_ids[1..], &d[..]);
            assert_eq!(connection_theme, "Graph connection");
        }
        _ => panic!("wrong variant"),
    }
    assert!(connection_data(1, &vec![], &d, None).is_err());
}

#[test]
fn generator_other_steps() {
    let words = vec![word(1, "a"), word(2, "b"), word(3, "a")];
    assert_eq!(replacement_positions(&words, "a"), vec![2]);
    let ids = pick_ids(vec![1, 2, 3, 4, 5], 3);
    assert_eq!(ids.len(), 3);
    assert!(ids.iter().all(|i| (1..=5).contains(i)));
    match find_mistake_data(1, 2, 30, &vec![40, 41], 1).unwrap() {
        ExerciseData::FindMistake { incorrect_word_node_id, correct_word_node_id, .. } => {
            assert!(incorrect_word_node_id == 40 || incorrect_word_node_id == 41);
            assert_eq!(correct_word_node_id, 30);
        }
        _ => panic!("wrong variant"),
    }
    assert_eq!(
        find_mistake_data(1, 2, 30, &vec![], 4).unwrap_err().message,
        "No suitable replacement words found in chapter 4"
    );
    assert_eq!(sequence_source("CHAPTER:3").unwrap(), SequenceSource::Chapter { chapter: 3 });
    assert_eq!(
        sequence_source("VERSE:2:5").unwrap(),
        SequenceSource::Verse { verse_key: "2:5".to_string(), chapter: 2, verse: 5 }
    );
    assert!(sequence_source("WORD:1").is_err());
    assert!(sequence_data(1, vec![1], true).is_err());
    assert!(sequence_data(1, vec![1, 2], true).is_ok());
    assert_eq!(
        sequence_data(1, vec![1, 2], false).unwrap_err().message,
        "Verse too short for word sequence exercise"
    );
    match pos_tagging_data(3, "noun".to_string()) {
        ExerciseData::PosTagging { options, correct_pos, .. } => {
            assert_eq!(correct_pos, "noun");
            let mut o = options.clone();
            o.sort();
            assert_eq!(o, vec!["noun", "particle", "pronoun", "verb"]);
        }
        _ => panic!("wrong variant"),
    }
    let verses: Vec<Verse> = (1..=2).map(|n| verse(n, "t")).collect();
    match chain_data(4, &verses, "none".to_string()).unwrap() {
        ExerciseData::AyahChain { verse_keys, .. } => assert_eq!(verse_keys, vec!["1:1", "1:2"]),
        _ => panic!("wrong variant"),
    }
    assert_eq!(chain_data(4, &vec![], "none".to_string()).unwrap_err().message, "none");
}

#[test]
fn footnotes_are_extracted_as_json() {
    let (main, notes) = extract_footnotes("In the name[[of God]] of Allah[[\"the\" One]]");
    assert_eq!(main, "In the name of Allah");
    assert_eq!(notes, Some("[\"of God\",\"\\\"the\\\" One\"]".to_string()));
    let (main, notes) = extract_footnotes("plain [text]");
    assert_eq!(main, "plain [text]");
    assert_eq!(notes, None);
    let (_, notes) = extract_footnotes("a[[x\ny]]");
    assert_eq!(notes, Some("[\"x\\ny\"]".to_string()));
}

#[test]
fn translator_import_stats() {
    let mut s = TranslatorImportStats::new();
    s.record_import(114);
    s.record_failure("Sahih", "boom");
    assert_eq!(s.translators_imported, 1);
    assert_eq!(s.translations_imported, 114);
    assert_eq!(s.errors, vec!["Failed to import translator 'Sahih': boom"]);
    assert_eq!(
        missing_language_message("xx"),
        "Language 'xx' not found. Please import languages first."
    );
}

#[test]
fn small_types() {
    assert_eq!(MemorizationAction::from_str("tap"), Some(MemorizationAction::Tap));
    assert_eq!(MemorizationAction::from_str("long_press"), Some(MemorizationAction::LongPress));
    assert_eq!(MemorizationAction::from_str("Press"), None);
    assert_eq!(ArabicLevel::default(), ArabicLevel::NoArabic);
    assert_eq!(NodeIdError::InvalidChapter(0).message(), "Invalid chapter number: 0 (must be 1-114)");
    assert_eq!(NodeIdError::Malformed("x".to_string()).message(), "Malformed node ID: x");
}

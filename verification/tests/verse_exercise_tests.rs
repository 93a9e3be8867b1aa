use iqrah_core::exercises::ayah_sequence::AyahSequenceExercise;
use iqrah_core::exercises::find_mistake::FindMistakeExercise;
use iqrah_core::exercises::full_verse_input::FullVerseInputExercise;
use iqrah_core::exercises::graph::CrossVerseConnectionExercise;
use iqrah_core::exercises::grammar::IdentifyRootExercise;
use iqrah_core::exercises::mcq::{McqExercise, McqType};
use iqrah_core::exercises::pos_tagging::PosTaggingExercise;
use iqrah_core::exercises::reverse_cloze::ReverseClozeExercise;
use iqrah_core::exercises::translate_phrase::{PhraseTarget, TranslatePhraseExercise};
use iqrah_core::exercises::translation::{ContextualTranslationExercise, TranslationExercise};
use iqrah_core::exercises::types::{Exercise, SemanticGradeLabel};
use iqrah_core::models::{MorphologySegment, Verse, Word};

fn verse(n: i32, text: &str) -> Verse {
    Verse {
        key: format!("1:{}", n),
        chapter_number: 1,
        verse_number: n,
        text_uthmani: text.to_string(),
        text_simple: None,
        juz: 1,
        page: 1,
    }
}

fn word(position: i32, text: &str) -> Word {
    Word {
        id: 200 + position as i64,
        verse_key: "1:2".to_string(),
        position,
        text_uthmani: text.to_string(),
        text_simple: None,
        transliteration: None,
    }
}

fn seg(root: Option<&str>, pos: Option<&str>) -> MorphologySegment {
    MorphologySegment {
        segment_id: 1,
        word_id: 1,
        position: 1,
        lemma_id: None,
        root_id: root.map(|s| s.to_string()),
        pos_tag: pos.map(|s| s.to_string()),
    }
}

#[test]
fn translation_exercise_defaults_and_grades() {
    let ex = TranslationExercise::from_texts(3, "رب".to_string(), None);
    assert_eq!(ex.get_translation(), "[Translation not available]");
    assert_eq!(ex.generate_question(), "What does 'رب' mean?");
    assert_eq!(ex.get_hint(), Some("Starts with: [Translation".to_string()));
    let ex = TranslationExercise::from_texts(3, "رب".to_string(), Some("the Lord".to_string()));
    assert!(ex.check_answer("lord", Some(SemanticGradeLabel::Partial)));
    assert!(ex.check_answer("lord", Some(SemanticGradeLabel::Excellent)));
    assert!(!ex.check_answer("lord", Some(SemanticGradeLabel::Incorrect)));
    assert!(!ex.check_answer("lord", None));
    assert_eq!(ex.get_type_name(), "translation");
}

#[test]
fn contextual_translation_distractors() {
    let mut d: Vec<String> = Vec::new();
    assert!(!ContextualTranslationExercise::add_distractor(&mut d, "mercy", "mercy"));
    assert!(!ContextualTranslationExercise::add_distractor(&mut d, "lord", "mercy"));
    assert!(!ContextualTranslationExercise::add_distractor(&mut d, "lord", "mercy"));
    assert_eq!(d, vec!["lord"]);
    let filled = ContextualTranslationExercise::finish_distractors(d, "mercy");
    assert_eq!(filled, vec!["lord", "those", "it"]);
    let stock = ContextualTranslationExercise::finish_distractors(vec![], "mercy");
    assert_eq!(stock, vec!["the one", "those", "it"]);

    let (k, c) = ContextualTranslationExercise::verse_of_word("WORD_INSTANCE:2:5:1").unwrap();
    assert_eq!(k, "2:5");
    assert_eq!(c, "2");
    assert_eq!(ContextualTranslationExercise::chapter_number("2").unwrap(), 2);
    assert_eq!(
        ContextualTranslationExercise::chapter_number("x").unwrap_err().message,
        "invalid digit found in string"
    );

    let ex = ContextualTranslationExercise::from_parts(
        9,
        "verse".to_string(),
        "word".to_string(),
        "the mercy".to_string(),
        &filled,
    );
    assert_eq!(ex.get_options().len(), 4);
    assert_eq!(ex.get_correct_answer(), "the mercy");
    assert!(ex.get_options().iter().any(|o| o == "the mercy"));
    assert!(ex.check_answer("  The Mercy ", None));
    assert_eq!(ex.get_hint(), Some("Starts with: T".to_string()));
    assert_eq!(
        ex.generate_question(),
        "In the verse:\n\nverse\n\nWhat does 'word' mean in this context?"
    );
}

#[test]
fn mcq_questions() {
    let ex = McqExercise::from_ar_to_en("WORD:5".to_string(), "رب", Some("The Lord".to_string()));
    assert_eq!(ex.generate_question(), "What does 'رب' mean?");
    assert_eq!(ex.get_options().len(), 4);
    assert!(ex.get_options().iter().any(|o| o == "The Lord"));
    assert!(ex.check_answer(" the lord ", None));
    assert_eq!(ex.get_mcq_type(), McqType::ArToEn);
    assert_eq!(ex.get_type_name(), "mcq_ar_to_en");
    assert_eq!(ex.get_node_id(), "WORD:5");
    let hint = ex.get_hint().unwrap();
    assert!(hint.starts_with("It's not: "));
    assert_ne!(hint, "It's not: The Lord");

    let lower = McqExercise::generate_translation_distractors("The Merciful", 3);
    assert_eq!(lower, vec!["the compassionate", "the lord", "the sustainer"]);

    let ex = McqExercise::from_en_to_ar("WORD:5".to_string(), "رَبِّ".to_string(), None);
    assert_eq!(ex.generate_question(), "Which Arabic word means '[Translation not available]'?");
    assert_eq!(ex.get_type_name(), "mcq_en_to_ar");
    assert!(ex.get_options().iter().any(|o| o == "رَبِّ"));
}

#[test]
fn identify_root_exercise() {
    let segs = vec![seg(None, Some("noun")), seg(Some("ك-ت-ب"), None), seg(Some("x"), None)];
    assert_eq!(IdentifyRootExercise::first_root_id(&segs), Some("ك-ت-ب".to_string()));
    assert_eq!(IdentifyRootExercise::first_root_id(&vec![]), None);
    let ex = IdentifyRootExercise::from_parts(8, "يكتبون".to_string(), "ك-ت-ب".to_string());
    assert_eq!(ex.get_options().len(), 4);
    assert!(ex.get_options().iter().any(|o| o == "ك-ت-ب"));
    assert_eq!(ex.get_correct_root(), "ك-ت-ب");
    assert_eq!(ex.get_hint(), Some("3-letter root".to_string()));
    assert!(ex.check_answer("ك ت ب", None));
    assert_eq!(ex.generate_question(), "What is the root of 'يكتبون'?");
}

#[test]
fn pos_tagging_options() {
    let mut o = PosTaggingExercise::generate_options("noun");
    o.sort();
    assert_eq!(o, vec!["noun", "particle", "pronoun", "verb"]);
    let mut o = PosTaggingExercise::generate_options("adverb");
    o.sort();
    assert_eq!(o, vec!["adverb", "noun", "particle", "verb"]);
    let ex = PosTaggingExercise::from_parts(1, "w".to_string(), "v".to_string(), "Verb".to_string());
    assert_eq!(ex.get_correct_pos(), "Verb");
    assert_eq!(ex.get_hint(), Some("Hint: This word describes an action or state.".to_string()));
    assert!(ex.check_answer(" verb ", None));
    let q = ex.generate_question();
    assert!(q.starts_with("In the verse:\n\nv\n\nWhat part of speech is the word \"w\"?\n\nOptions:\n1. "));
    assert!(q.contains("\n4. "));
    assert_eq!(PosTaggingExercise::first_pos_tag(&vec![seg(Some("r"), Some("verb"))]), Some("verb".to_string()));
}

#[test]
fn reverse_cloze_steps() {
    let place = ReverseClozeExercise::place_of("WORD_INSTANCE:1:2:3").unwrap();
    assert_eq!(place.chapter, "1");
    assert_eq!(place.verse, "2");
    assert_eq!(place.position, 3);
    let words = vec![word(1, "a"), word(2, "b"), word(3, "c"), word(4, "d")];
    assert_eq!(ReverseClozeExercise::locate_next(&words, &place).unwrap(), 3);
    let last = ReverseClozeExercise::place_of("WORD_INSTANCE:1:2:4").unwrap();
    assert_eq!(
        ReverseClozeExercise::locate_next(&words, &last).unwrap_err().message,
        "No next word found for 1:2 position 4 (end of verse)"
    );
    assert_eq!(ReverseClozeExercise::next_word_key(&place, 4), "WORD_INSTANCE:1:2:4");
    let ex = ReverseClozeExercise::from_parts(1, "c".to_string(), "a b c d".to_string(), "دَ".to_string(), &place);
    assert_eq!(ex.get_next_word(), "دَ");
    assert_eq!(ex.get_hint(), Some("Starts with: د".to_string()));
    assert_eq!(ex.generate_question(), "After the word:\n\nc\n\nWhat comes next?");
    assert!(ReverseClozeExercise::place_of("WORD:1").is_err());
}

#[test]
fn translate_phrase_targets() {
    assert_eq!(
        TranslatePhraseExercise::target_of("VERSE:2:255").unwrap(),
        PhraseTarget::Verse { verse_key: "2:255".to_string() }
    );
    assert_eq!(
        TranslatePhraseExercise::target_of("WORD_INSTANCE:02:7:1").unwrap(),
        PhraseTarget::Word { verse_key: "2:7".to_string(), position: 1 }
    );
    assert_eq!(
        TranslatePhraseExercise::target_of("CHAPTER:1").unwrap_err().message,
        "Unsupported node type for translation exercise: CHAPTER:1"
    );
    assert_eq!(
        TranslatePhraseExercise::target_of("VERSE:1").unwrap_err().message,
        "Invalid verse node ID format: VERSE:1"
    );
    let ex = TranslatePhraseExercise::from_parts(5, "ar".to_string(), "In the name of God".to_string(), Some("1:1".to_string()));
    assert_eq!(ex.get_hint(), Some("Starts with: In the name...".to_string()));
    assert!(ex.check_answer("in the NAME of god!", None));
    assert_eq!(ex.get_verse_key(), Some("1:1"));
    assert_eq!(ex.get_correct_translation(), "In the name of God");
    assert_eq!(ex.get_arabic_text(), "ar");
    let short = TranslatePhraseExercise::from_parts(5, "ar".to_string(), "Praise".to_string(), None);
    assert_eq!(short.get_hint(), Some("Starts with: Praise...".to_string()));
    assert_eq!(short.get_verse_key(), None);
}

#[test]
fn full_verse_input_exercise() {
    assert_eq!(FullVerseInputExercise::numbers_of("VERSE:2:255").unwrap(), (2, 255));
    assert_eq!(
        FullVerseInputExercise::numbers_of("VERSE:2").unwrap_err().message,
        "Invalid verse node ID format: VERSE:2"
    );
    assert_eq!(FullVerseInputExercise::chapter_key(2), "CHAPTER:2");
    let ex = FullVerseInputExercise::from_parts(1, 1, 1, "بِسْمِ ٱللَّهِ".to_string(), "Al-Fatiha".to_string());
    assert_eq!(ex.get_verse_key(), "1:1");
    assert_eq!(ex.generate_question(), "Type the complete verse:\n\nAl-Fatiha, verse 1");
    assert_eq!(ex.get_hint(), Some("Starts with: بسم".to_string()));
    assert!(ex.check_answer("بسم الله", None));
}

#[test]
fn find_mistake_exercise() {
    assert_eq!(FindMistakeExercise::verse_of("VERSE:1:2").unwrap(), ("1:2".to_string(), 1));
    assert_eq!(
        FindMistakeExercise::verse_of("CHAPTER:1").unwrap_err().message,
        "Invalid verse node ID: CHAPTER:1"
    );
    assert_eq!(
        FindMistakeExercise::verse_of("VERSE:12").unwrap_err().message,
        "Invalid verse key format: 12"
    );
    for _ in 0..20 {
        let p = FindMistakeExercise::pick_position(6).unwrap();
        assert!((2..=5).contains(&p));
    }
    assert_eq!(FindMistakeExercise::pick_position(3).unwrap(), 2);
    assert!(FindMistakeExercise::pick_position(2).is_err());
    let candidates = vec!["x".to_string(), "y".to_string()];
    for _ in 0..10 {
        let w = FindMistakeExercise::pick_replacement(&candidates, 1).unwrap();
        assert!(w == "x" || w == "y");
    }
    assert_eq!(
        FindMistakeExercise::pick_replacement(&vec![], 3).unwrap_err().message,
        "No suitable replacement words found in chapter 3"
    );
    let words = vec![word(1, "a"), word(2, "b"), word(3, "c")];
    let ex = FindMistakeExercise::from_parts(1, "1:2".to_string(), "a b c".to_string(), &words, 2, "z".to_string())
        .unwrap();
    assert_eq!(ex.get_modified_verse(), "a z c");
    assert_eq!(ex.get_mistake_position(), 2);
    assert_eq!(ex.get_correct_word(), "b");
    assert_eq!(ex.get_incorrect_word(), "z");
    assert!(ex.check_answer(" 2 ", None));
    assert!(!ex.check_answer("3", None));
    assert!(!ex.check_answer("two", None));
    assert!(ex.check_position(2));
    assert_eq!(
        ex.generate_question(),
        "Find the mistake in this verse:\n\na z c\n\nWhich word is incorrect? (Indicate position 1-3)"
    );
    assert_eq!(ex.get_hint(), Some("This verse is from 1:2. Try to recall what it should say.".to_string()));
    assert_eq!(FindMistakeExercise::build_modified_verse(&words, 3, "q").unwrap(), "a b q");
    assert_eq!(
        FindMistakeExercise::from_parts(1, "1:2".to_string(), "".to_string(), &words, 9, "z".to_string())
            .unwrap_err()
            .message,
        "Word not found at position 9"
    );
}

#[test]
fn ayah_sequence_exercise() {
    let verses: Vec<Verse> = (1..=7).map(|n| verse(n, &format!("t{}", n))).collect();
    assert_eq!(AyahSequenceExercise::numbers_of("1:3").unwrap(), (1, 3));
    assert_eq!(AyahSequenceExercise::find_next(&verses, 1, 3).unwrap(), 3);
    assert_eq!(
        AyahSequenceExercise::find_next(&verses, 1, 7).unwrap_err().message,
        "No next verse found for 1:7 (end of chapter)"
    );
    let mut c = AyahSequenceExercise::distractor_candidates(&verses, "1:3", "1:4");
    c.sort();
    assert_eq!(c, vec!["1:1", "1:2", "1:5", "1:6", "1:7"]);
    assert!(AyahSequenceExercise::check_distractors(vec![]).is_err());
    let d = vec![
        ("1:1".to_string(), "t1".to_string()),
        ("1:5".to_string(), "t5".to_string()),
        ("1:6".to_string(), "t6".to_string()),
    ];
    let d = AyahSequenceExercise::check_distractors(d).unwrap();
    let ex = AyahSequenceExercise::from_parts(13, "t3".to_string(), "1:3".to_string(), "1:4".to_string(), "t4".to_string(), &d);
    assert_eq!(ex.get_options().len(), 4);
    assert!(ex.get_options().iter().any(|(k, t)| k == "1:4" && t == "t4"));
    assert!(ex.check_answer(" 1:4 ", None));
    assert!(ex.check_answer("t4", None));
    assert!(!ex.check_answer("1:5", None));
    assert_eq!(ex.get_hint(), Some("It's verse 4".to_string()));
    assert_eq!(ex.get_correct_verse_key(), "1:4");
}

#[test]
fn cross_verse_connection_exercise() {
    let ids = vec!["VERSE:2:1".to_string(), "WORD:3".to_string(), "VERSE:3:4".to_string()];
    assert_eq!(CrossVerseConnectionExercise::connected_keys(&ids), vec!["2:1", "3:4"]);
    assert_eq!(CrossVerseConnectionExercise::distractor_chapters(2), vec![1, 3, 112, 113, 114]);
    assert_eq!(CrossVerseConnectionExercise::source_chapter("2:5").unwrap(), 2);
    let verses: Vec<Verse> = (1..=7).map(|n| verse(n, "t")).collect();
    assert_eq!(CrossVerseConnectionExercise::fallback_keys(&verses, "1:1"), vec!["1:2"]);
    let exclude = vec!["1:2".to_string()];
    assert_eq!(CrossVerseConnectionExercise::chapter_candidates(&verses, &exclude), vec!["1:1", "1:3"]);
    assert_eq!(
        CrossVerseConnectionExercise::fallback_candidates(&verses, "1:6", &exclude),
        vec!["1:7", "1:5", "1:4", "1:3"]
    );
    assert_eq!(
        CrossVerseConnectionExercise::first_connected(&vec![], "1:1").unwrap_err().message,
        "No connected verses found for: 1:1"
    );
    let d = vec![
        ("1:1".to_string(), "a".to_string()),
        ("2:1".to_string(), "b".to_string()),
        ("3:1".to_string(), "c".to_string()),
        ("4:1".to_string(), "d".to_string()),
    ];
    let ex = CrossVerseConnectionExercise::from_parts(
        "VERSE:1:1".to_string(),
        "x".to_string(),
        "1:1".to_string(),
        "1:2".to_string(),
        "y".to_string(),
        d,
    );
    assert_eq!(ex.get_options().len(), 4);
    assert!(!ex.get_options().iter().any(|(k, _)| k == "4:1"));
    assert_eq!(ex.get_hint(), Some("The connected verse is from Surah 1".to_string()));
    assert!(ex.check_answer("y", None));
    assert_eq!(ex.get_node_id(), "VERSE:1:1");
}

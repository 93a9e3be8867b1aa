use iqrah_core::decimal::parse_i32_text;
use iqrah_core::exercises::memorization::{
    ClozeDeletionExercise, FirstLetterHintExercise, MemorizationExercise, MissingWordMcqExercise,
    NextWordDifficulty, NextWordMcqExercise, parse_word_target, text_node_id,
};
use iqrah_core::exercises::types::{Exercise, SemanticGradeLabel};
use iqrah_core::models::{KnowledgeAxis, Word};
use iqrah_core::node_id::{encode_knowledge, encode_word_instance};

fn word(position: i32, text: &str) -> Word {
    Word {
        id: 100 + position as i64,
        verse_key: "1:1".to_string(),
        position,
        text_uthmani: text.to_string(),
        text_simple: None,
        transliteration: None,
    }
}

fn fatiha_1() -> Vec<Word> {
    vec![
        word(1, "بِسْمِ"),
        word(2, "ٱللَّهِ"),
        word(3, "ٱلرَّحْمَٰنِ"),
        word(4, "ٱلرَّحِيمِ"),
    ]
}

#[test]
fn parse_i32_text_matches_std_messages() {
    assert_eq!(parse_i32_text("42"), Ok(42));
    assert_eq!(parse_i32_text("-7"), Ok(-7));
    assert_eq!(parse_i32_text("+9"), Ok(9));
    assert_eq!(parse_i32_text("").unwrap_err(), "cannot parse integer from empty string");
    assert_eq!(parse_i32_text("+").unwrap_err(), "invalid digit found in string");
    assert_eq!(parse_i32_text("12a").unwrap_err(), "invalid digit found in string");
    assert_eq!(parse_i32_text("2147483648").unwrap_err(), "number too large to fit in target type");
    assert_eq!(parse_i32_text("-2147483649").unwrap_err(), "number too small to fit in target type");
    assert_eq!(parse_i32_text("99999999999x").unwrap_err(), "number too large to fit in target type");
    for s in ["0", "17", "-300", "abc", "", "-", "2147483647", "-2147483648", "4x"] {
        let ours = parse_i32_text(s).map_err(|e| e.to_string());
        let std = s.parse::<i32>().map_err(|e| e.to_string());
        assert_eq!(ours, std, "parsing {:?}", s);
    }
}

#[test]
fn text_node_id_resolves_knowledge_nodes() {
    let base = encode_word_instance(1, 1, 2);
    let k = encode_knowledge(base, KnowledgeAxis::Memorization);
    assert_eq!(text_node_id(k), base);
    assert_eq!(text_node_id(base), base);
}

#[test]
fn word_target_reads_verse_and_position() {
    let (k, p) = parse_word_target("WORD_INSTANCE:1:2:3").unwrap();
    assert_eq!(k, "1:2");
    assert_eq!(p, 3);
    assert_eq!(
        parse_word_target("WORD:12").unwrap_err().message,
        "Invalid word node ID format: WORD:12"
    );
    assert_eq!(
        parse_word_target("WORD_INSTANCE:1:2:x").unwrap_err().message,
        "Invalid position in word ID: WORD_INSTANCE:1:2:x"
    );
}

#[test]
fn memorization_context_and_hints() {
    assert_eq!(MemorizationExercise::context_key("WORD:1:2:3"), Some("VERSE:1:2".to_string()));
    assert_eq!(MemorizationExercise::context_key("WORD:12"), None);
    assert_eq!(MemorizationExercise::context_key("VERSE:1:2"), None);

    let ex = MemorizationExercise::from_texts(5, "بسم".to_string(), None);
    assert_eq!(ex.get_word_text(), "بسم");
    assert_eq!(ex.get_hint(), Some("First character: ب".to_string()));
    assert_eq!(ex.generate_question(), "Recall the word");
    assert_eq!(ex.get_type_name(), "memorization");
    assert!(ex.check_answer("x", Some(SemanticGradeLabel::Excellent)));
    assert!(!ex.check_answer("x", Some(SemanticGradeLabel::Partial)));
    assert!(!ex.check_answer("x", None));

    let with_context = MemorizationExercise::from_texts(5, "بسم".to_string(), Some("بسم الله".to_string()));
    assert_eq!(with_context.get_hint(), Some("Verse context: بسم الله".to_string()));
    let empty = MemorizationExercise::from_texts(5, String::new(), None);
    assert_eq!(empty.get_hint(), None);
}

#[test]
fn normalize_arabic_folds_and_squeezes() {
    assert_eq!(MemorizationExercise::normalize_arabic("  ٱللَّهِ \t أكبر  "), "الله اكبر");
    assert_eq!(MemorizationExercise::normalize_arabic("رحمة"), "رحمه");
    assert_eq!(MemorizationExercise::normalize_arabic("هدى"), "هدي");
}

#[test]
fn next_word_mcq_from_words() {
    let words = fatiha_1();
    let d = NextWordMcqExercise::generate_distractors_from_verse(&words, "ٱلرَّحِيمِ", 3);
    assert_eq!(d, vec!["بِسْمِ", "ٱللَّهِ", "ٱلرَّحْمَٰنِ"]);
    let two = NextWordMcqExercise::generate_distractors_from_verse(&words, "ٱلرَّحِيمِ", 2);
    assert_eq!(two.len(), 2);

    let ex = NextWordMcqExercise::from_words(11, "1:1".to_string(), &words, NextWordDifficulty::Easy, &d)
        .unwrap();
    assert_eq!(ex.generate_question(), "بِسْمِ ٱللَّهِ ٱلرَّحْمَٰنِ _____");
    let mut opts: Vec<String> = ex.get_options().to_vec();
    opts.sort();
    let mut expected = vec![
        "ٱلرَّحِيمِ".to_string(),
        "بِسْمِ".to_string(),
        "ٱللَّهِ".to_string(),
        "ٱلرَّحْمَٰنِ".to_string(),
    ];
    expected.sort();
    assert_eq!(opts, expected);
    assert!(ex.check_answer("الرحيم", None));
    assert!(!ex.check_answer("الله", None));
    assert_eq!(ex.get_hint(), Some("First letter: ٱ".to_string()));
    assert_eq!(ex.get_difficulty(), NextWordDifficulty::Easy);
    assert_eq!(ex.get_type_name(), "next_word_mcq");

    let err = NextWordMcqExercise::from_words(11, "1:9".to_string(), &vec![], NextWordDifficulty::Easy, &d)
        .unwrap_err();
    assert_eq!(err.message, "No words found for verse: 1:9");
}

#[test]
fn next_word_distractors_from_pool_pad_with_placeholders() {
    let pool = vec!["a".to_string(), "b".to_string(), "a".to_string()];
    let d = NextWordMcqExercise::generate_distractors_from_pool(&pool, "a", 3);
    assert_eq!(d.len(), 3);
    assert_eq!(d[0], "b");
    assert_eq!(d[1], "[Option 2]");
    assert_eq!(d[2], "[Option 3]");
    let none = NextWordMcqExercise::generate_distractors_from_pool(&vec![], "a", 3);
    assert_eq!(none, vec!["[Option 1]", "[Option 2]", "[Option 3]"]);
}

#[test]
fn verse_key_of_strips_verse_prefix() {
    assert_eq!(NextWordMcqExercise::verse_key_of("VERSE:2:255"), "2:255");
    assert_eq!(NextWordMcqExercise::verse_key_of("2:255"), "2:255");
}

#[test]
fn missing_word_mcq_from_words() {
    let words = fatiha_1();
    let ex = MissingWordMcqExercise::from_words(7, "1:1", &words, 2).unwrap();
    assert_eq!(ex.generate_question(), "بِسْمِ _____ ٱلرَّحْمَٰنِ ٱلرَّحِيمِ");
    let opts = ex.get_options();
    assert_eq!(opts.len(), 4);
    assert!(opts.iter().any(|o| o == "ٱللَّهِ"));
    for o in opts {
        assert!(words.iter().any(|w| &w.text_uthmani == o));
    }
    assert!(ex.check_answer("الله", None));
    assert_eq!(ex.get_type_name(), "missing_word_mcq");

    let short = vec![word(1, "a"), word(2, "b")];
    let ex2 = MissingWordMcqExercise::from_words(7, "1:1", &short, 1).unwrap();
    let opts2 = ex2.get_options();
    assert!(opts2.iter().any(|o| o == "[Option 2]"));
    assert!(opts2.iter().any(|o| o == "[Option 3]"));

    assert_eq!(
        MissingWordMcqExercise::from_words(7, "1:1", &words, 9).unwrap_err().message,
        "Word at position 9 not found"
    );
    assert_eq!(
        MissingWordMcqExercise::from_words(7, "1:1", &vec![], 1).unwrap_err().message,
        "No words found for verse: 1:1"
    );
}

#[test]
fn cloze_deletion_letters_and_hint() {
    let words = vec![word(1, "abc"), word(2, "xyz"), word(3, "q")];
    let ex = ClozeDeletionExercise::from_words(3, "1:1", &words, 1, true).unwrap();
    let mut letters: Vec<char> = ex.get_hint_letters().unwrap().to_vec();
    letters.sort();
    assert_eq!(letters, vec!['a', 'b', 'c']);
    assert!(ex.generate_question().starts_with("_____ xyz q\nAvailable letters: "));
    assert_eq!(ex.get_hint(), Some("Starts with 'a' and ends with 'c'".to_string()));

    let plain = ClozeDeletionExercise::from_words(3, "1:1", &words, 3, false).unwrap();
    assert!(plain.get_hint_letters().is_none());
    assert_eq!(plain.generate_question(), "abc xyz _____");
    assert_eq!(plain.get_hint(), Some("First letter: q".to_string()));
    assert!(plain.check_answer(" q ", None));
    assert_eq!(plain.get_type_name(), "cloze_deletion");
}

#[test]
fn first_letter_hint_exercise() {
    let words = fatiha_1();
    let ex = FirstLetterHintExercise::from_words(4, "1:1", &words, 2).unwrap();
    assert_eq!(ex.get_first_letter(), 'ٱ');
    assert_eq!(ex.generate_question(), "بِسْمِ ٱـ_____ ٱلرَّحْمَٰنِ ٱلرَّحِيمِ");
    assert_eq!(ex.get_hint(), Some("Word length: 4 letters".to_string()));
    assert!(ex.check_answer("الله", None));
    assert_eq!(ex.get_type_name(), "first_letter_hint");

    let blank = vec![word(1, "")];
    assert_eq!(
        FirstLetterHintExercise::from_words(4, "1:1", &blank, 1).unwrap_err().message,
        "Empty word text"
    );
}

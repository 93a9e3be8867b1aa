use iqrah_core::models::{KnowledgeAxis, NodeType, PackageType, ReviewGrade};
use iqrah_core::node_id::{
    chapter, decode_chapter, decode_knowledge_id, decode_type, decode_verse, decode_word,
    decode_word_instance, encode_chapter, encode_knowledge, encode_verse, encode_word,
    encode_word_instance, from_ukey, knowledge, node_type, parse_chapter, parse_knowledge,
    parse_verse, parse_word, parse_word_instance, to_ukey, validate, verse, word, word_instance,
};

#[test]
fn test_build_chapter() {
    assert_eq!(chapter(1), "CHAPTER:1");
    assert_eq!(chapter(114), "CHAPTER:114");
}

#[test]
fn test_build_verse() {
    assert_eq!(verse(1, 1), "VERSE:1:1");
    assert_eq!(verse(2, 286), "VERSE:2:286");
}

#[test]
fn test_build_word() {
    assert_eq!(word(123), "WORD:123");
}

#[test]
fn test_build_word_instance() {
    assert_eq!(word_instance(1, 1, 3), "WORD_INSTANCE:1:1:3");
}

#[test]
fn test_build_knowledge() {
    assert_eq!(
        knowledge("VERSE:1:1", KnowledgeAxis::Memorization),
        "VERSE:1:1:memorization"
    );
}

#[test]
fn test_encode_decode_chapter() {
    let id = encode_chapter(114);
    assert_eq!(decode_type(id), Some(NodeType::Chapter));
    assert_eq!(decode_chapter(id), Some(114));
}

#[test]
fn test_encode_decode_verse() {
    let id = encode_verse(2, 255);
    assert_eq!(decode_type(id), Some(NodeType::Verse));
    assert_eq!(decode_verse(id), Some((2, 255)));
}

#[test]
fn test_encode_decode_word() {
    let id = encode_word(123456);
    assert_eq!(decode_type(id), Some(NodeType::Word));
    assert_eq!(decode_word(id), Some(123456));
}

#[test]
fn test_encode_decode_word_instance() {
    let id = encode_word_instance(2, 255, 5);
    assert_eq!(decode_type(id), Some(NodeType::WordInstance));
    assert_eq!(decode_word_instance(id), Some((2, 255, 5)));
}

#[test]
fn test_encode_decode_knowledge() {
    // 1. Create a base node (VERSE:2:255)
    let _base_ukey = "VERSE:2:255";
    let base_id = encode_verse(2, 255);
    let axis = KnowledgeAxis::Translation;

    // 2. Encode knowledge node
    let k_id = encode_knowledge(base_id, axis);
    assert_eq!(decode_type(k_id), Some(NodeType::Knowledge));

    // 3. Decode components
    let (decoded_base_id, decoded_axis) = decode_knowledge_id(k_id).unwrap();
    assert_eq!(decoded_base_id, base_id);
    assert!(matches!(decoded_axis, KnowledgeAxis::Translation));

    // 4. Verify UKEY round trip
    let k_ukey = to_ukey(k_id).unwrap();
    assert_eq!(k_ukey, "VERSE:2:255:translation");

    // 5. Verify parsing round trip
    let parsed_id = from_ukey(&k_ukey).unwrap();
    assert_eq!(parsed_id, k_id);
}

#[test]
fn test_knowledge_node_complex_base() {
    // Test with WordInstance as base (uses more bits)
    let base_ukey = "WORD_INSTANCE:114:6:5";
    let base_id = encode_word_instance(114, 6, 5);
    let axis = KnowledgeAxis::Tajweed;

    let k_id = encode_knowledge(base_id, axis);
    let (decoded_base, decoded_axis) = decode_knowledge_id(k_id).unwrap();

    assert_eq!(decoded_base, base_id);
    assert_eq!(to_ukey(decoded_base).unwrap(), base_ukey);
    assert!(matches!(decoded_axis, KnowledgeAxis::Tajweed));
}

#[test]
fn test_parse_chapter() {
    assert_eq!(parse_chapter("CHAPTER:1").unwrap(), 1);
    assert_eq!(parse_chapter("CHAPTER:114").unwrap(), 114);
    assert!(parse_chapter("CHAPTER:115").is_err());
    assert!(parse_chapter("VERSE:1:1").is_err());
}

#[test]
fn test_parse_verse() {
    assert_eq!(parse_verse("VERSE:1:1").unwrap(), (1, 1));
    assert_eq!(parse_verse("VERSE:2:286").unwrap(), (2, 286));
    assert!(parse_verse("VERSE:1").is_err());
    assert!(parse_verse("CHAPTER:1").is_err());
    assert!(parse_verse("1:1").is_err()); // Unprefixed format not supported
}

#[test]
fn test_parse_word() {
    assert_eq!(parse_word("WORD:123").unwrap(), 123);
    assert!(parse_word("VERSE:1:1").is_err());
}

#[test]
fn test_parse_word_instance() {
    assert_eq!(
        parse_word_instance("WORD_INSTANCE:1:1:3").unwrap(),
        (1, 1, 3)
    );
    assert!(parse_word_instance("WORD:123").is_err());
}

#[test]
fn test_parse_knowledge() {
    let (base, axis) = parse_knowledge("VERSE:1:1:memorization").unwrap();
    assert_eq!(base, "VERSE:1:1");
    assert!(matches!(axis, KnowledgeAxis::Memorization));

    let (base, axis) = parse_knowledge("WORD_INSTANCE:1:1:3:translation").unwrap();
    assert_eq!(base, "WORD_INSTANCE:1:1:3");
    assert!(matches!(axis, KnowledgeAxis::Translation));
}

#[test]
fn test_node_type_detection() {
    assert!(matches!(node_type("CHAPTER:1").unwrap(), NodeType::Chapter));
    assert!(matches!(node_type("VERSE:1:1").unwrap(), NodeType::Verse));
    assert!(node_type("1:1").is_err()); // Unprefixed format not supported
    assert!(matches!(node_type("WORD:123").unwrap(), NodeType::Word));
    assert!(matches!(
        node_type("WORD_INSTANCE:1:1:3").unwrap(),
        NodeType::WordInstance
    ));
    assert!(matches!(
        node_type("VERSE:1:1:memorization").unwrap(),
        NodeType::Knowledge
    ));
}

#[test]
fn test_roundtrip() {
    // Build then parse should return original values
    let chapter_id = chapter(5);
    assert_eq!(parse_chapter(&chapter_id).unwrap(), 5);

    let verse_id = verse(2, 255);
    assert_eq!(parse_verse(&verse_id).unwrap(), (2, 255));

    let word_id = word(999);
    assert_eq!(parse_word(&word_id).unwrap(), 999);
}

#[test]
fn test_validate_happy_path() {
    assert!(validate("CHAPTER:1").is_ok());
    assert!(validate("VERSE:114:6").is_ok());
    assert!(validate("WORD:12345").is_ok());
    assert!(validate("WORD_INSTANCE:2:286:1").is_ok());
    assert!(validate("VERSE:1:1:memorization").is_ok());
}

#[test]
fn test_validate_error_cases() {
    // Malformed
    assert!(validate("CHAPTER").is_err());
    assert!(validate("VERSE:1").is_err());
    assert!(validate("WORD:").is_err());
    assert!(validate("WORD_INSTANCE:1:1").is_err());
    assert!(validate("VERSE:1:1:").is_err());
    assert!(validate("VERSE:1:1:unknown_axis").is_err());

    // Invalid chapter/verse numbers
    assert!(validate("CHAPTER:0").is_err());
    assert!(validate("CHAPTER:115").is_err());
    assert!(validate("VERSE:0:1").is_err());
    assert!(validate("VERSE:1:0").is_err());

    // Unprefixed
    assert!(validate("1:1").is_err());
}

#[test]
fn node_type_names_read_back() {
    assert_eq!(NodeType::from("verse".to_string()), NodeType::Verse);
    assert_eq!(NodeType::from("knowledge".to_string()), NodeType::Knowledge);
    assert_eq!(NodeType::from("something else".to_string()), NodeType::WordInstance);
    assert_eq!(NodeType::Lemma.name(), "lemma");
    assert_eq!(NodeType::from(NodeType::Root.name()), NodeType::Root);
}

#[test]
fn package_type_names_parse_back() {
    for p in [
        PackageType::VerseTranslation,
        PackageType::WordTranslation,
        PackageType::TextVariant,
        PackageType::VerseRecitation,
        PackageType::WordAudio,
        PackageType::Transliteration,
    ] {
        assert_eq!(PackageType::parse(p.as_str()), Ok(p));
    }
    assert_eq!(PackageType::WordAudio.as_str(), "word_audio");
    assert_eq!(PackageType::parse("audio"), Err("Invalid package type: audio".to_string()));
}

#[test]
fn review_grades_read_from_numbers() {
    assert_eq!(ReviewGrade::from(1u8), ReviewGrade::Again);
    assert_eq!(ReviewGrade::from(4u8), ReviewGrade::Easy);
    assert_eq!(ReviewGrade::from(9u8), ReviewGrade::Good);
    for g in [ReviewGrade::Again, ReviewGrade::Hard, ReviewGrade::Good, ReviewGrade::Easy] {
        assert_eq!(ReviewGrade::from(g.value()), g);
    }
}

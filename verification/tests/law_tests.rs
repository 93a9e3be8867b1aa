use iqrah_core::exercises::ayah_sequence::AyahSequenceExercise;
use iqrah_core::exercises::generators::{adjacent_verse_key, related_verses};
use iqrah_core::models::Verse;
use iqrah_core::node_id::encode_verse;
use iqrah_core::normalize::normalize_arabic;

fn verse(n: i32) -> Verse {
    Verse {
        key: format!("1:{}", n),
        chapter_number: 1,
        verse_number: n,
        text_uthmani: format!("v{}", n),
        text_simple: None,
        juz: 1,
        page: 1,
    }
}

#[test]
fn ayah_sequence_options_are_four_different_verses() {
    let verses: Vec<Verse> = (1..=7).map(verse).collect();
    let candidates = AyahSequenceExercise::distractor_candidates(&verses, "1:1", "1:2");
    assert_eq!(candidates.len(), 5);
    assert!(!candidates.iter().any(|k| k == "1:1" || k == "1:2"));
    let texts: Vec<Option<String>> = candidates.iter().take(3).map(|k| Some(format!("text {}", k))).collect();
    let d = AyahSequenceExercise::pick_distractors(&candidates, &texts).unwrap();
    assert_eq!(d.len(), 3);
    let ex = AyahSequenceExercise::from_parts(11, "v1".to_string(), "1:1".to_string(), "1:2".to_string(), "v2".to_string(), &d);
    let mut keys: Vec<&String> = ex.get_options().iter().map(|(k, _)| k).collect();
    assert_eq!(keys.len(), 4);
    assert_eq!(keys.iter().filter(|k| k.as_str() == "1:2").count(), 1);
    assert!(!keys.iter().any(|k| k.as_str() == "1:1"));
    keys.sort();
    keys.dedup();
    assert_eq!(keys.len(), 4);
}

#[test]
fn pick_distractors_needs_three_texts() {
    let candidates = vec!["1:3".to_string(), "1:4".to_string(), "1:5".to_string(), "1:6".to_string()];
    let texts = vec![Some("a".to_string()), None, Some("c".to_string())];
    let err = AyahSequenceExercise::pick_distractors(&candidates, &texts).unwrap_err();
    assert_eq!(err.message, "Not enough verses in chapter to generate 3 distractors");
    let texts = vec![Some("a".to_string()), Some("b".to_string()), Some("c".to_string())];
    let d = AyahSequenceExercise::pick_distractors(&candidates, &texts).unwrap();
    assert_eq!(
        d,
        vec![
            ("1:3".to_string(), "a".to_string()),
            ("1:4".to_string(), "b".to_string()),
            ("1:5".to_string(), "c".to_string()),
        ]
    );
}

#[test]
fn related_verses_fall_back_to_neighbours() {
    let (ids, theme) = related_verses(vec![9, 8], Some("Knowledge link".to_string()), 1, &vec![2, 3], &vec![]);
    assert_eq!(ids, vec![9, 8]);
    assert_eq!(theme, Some("Knowledge link".to_string()));
    let (ids, theme) = related_verses(vec![], None, 1, &vec![2, 3], &vec![Some(77), None]);
    assert_eq!(ids, vec![77, encode_verse(1, 3)]);
    assert_eq!(theme, Some("Adjacent verses".to_string()));
    assert_eq!(adjacent_verse_key(2, 255), "VERSE:2:255");
}

#[test]
fn arabic_normal_form_is_stable_and_clean() {
    let text = "  بِسْمِ   ٱللَّهِ\tٱلرَّحْمَٰنِ  ";
    let once = normalize_arabic(text);
    assert_eq!(normalize_arabic(&once), once);
    assert!(!once.starts_with(' ') && !once.ends_with(' '));
    assert!(!once.contains("  "));
    assert!(!once.chars().any(|c| ('\u{064B}'..='\u{0658}').contains(&c) || c == '\u{0671}' || c == '\u{0670}'));
}

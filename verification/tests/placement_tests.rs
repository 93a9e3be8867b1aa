use iqrah_core::placement::{
    placement_counts, verse_placement, InitialPlacementSummary, SurahPlacementResult,
    VersePlacement,
};

fn surah(chapter_id: i32, known: usize, partial: usize, total: usize, vocab: usize) -> SurahPlacementResult {
    SurahPlacementResult {
        chapter_id,
        verses_known: known,
        verses_partial: partial,
        verses_total: total,
        vocab_initialized: vocab,
    }
}

#[test]
fn summary_totals_follow_the_surahs_added() {
    let mut summary = InitialPlacementSummary::new();
    assert_eq!(summary.surahs_count(), 0);
    assert_eq!(summary.verses_initialized, 0);
    assert!(!summary.global_modifiers_applied);

    summary.add_surah_result(surah(1, 5, 2, 7, 20));
    summary.add_surah_result(surah(112, 3, 0, 4, 9));

    assert_eq!(summary.surahs_count(), 2);
    assert_eq!(summary.verses_initialized, 10);
    assert_eq!(summary.vocab_nodes_initialized, 29);
    assert_eq!(summary.surahs_processed[1].chapter_id, 112);
}

#[test]
fn verses_are_known_then_partial_then_untouched() {
    assert_eq!(verse_placement(0, 2, 3), VersePlacement::Known);
    assert_eq!(verse_placement(1, 2, 3), VersePlacement::Known);
    assert_eq!(verse_placement(2, 2, 3), VersePlacement::Partial);
    assert_eq!(verse_placement(4, 2, 3), VersePlacement::Partial);
    assert_eq!(verse_placement(5, 2, 3), VersePlacement::Untouched);
    assert_eq!(verse_placement(0, 0, 0), VersePlacement::Untouched);
}

#[test]
fn placement_counts_are_capped_by_the_verses() {
    // Half of 7 verses memorized, at the partial threshold.
    assert_eq!(placement_counts(7, 3, 1, true), (3, 1));
    // Below the partial threshold nothing is partly known.
    assert_eq!(placement_counts(7, 1, 0, false), (1, 0));
    // Shares beyond the surah are capped.
    assert_eq!(placement_counts(4, 9, 9, true), (4, 0));
    assert_eq!(placement_counts(10, 8, 4, true), (8, 2));
}

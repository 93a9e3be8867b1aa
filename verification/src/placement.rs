use vstd::prelude::*;

verus! {

/// How well a learner reads Arabic, from not at all to near-native.
#[derive(Debug, Clone, Copy, PartialEq, Eq, Structural)]
pub enum ArabicLevel {
    /// Cannot read Arabic at all.
    NoArabic,
    /// Reads letters with vowel marks, slowly.
    BasicReading,
    /// Reads at moderate speed, with some hesitation.
    ComfortableReading,
    /// Reads well, with little hesitation.
    FluentReading,
    /// Reads with near-native fluency.
    NativeLike,
}

impl Default for ArabicLevel {
    /// A learner who does not read Arabic.
    fn default() -> (r: Self)
        ensures
            r == ArabicLevel::NoArabic,
    {
        ArabicLevel::NoArabic
    }
}

/// What the initial placement did for one surah.
#[derive(Debug, Clone)]
pub struct SurahPlacementResult {
    /// The chapter number (1 to 114).
    pub chapter_id: i32,
    /// The verses marked as fully known.
    pub verses_known: usize,
    /// The verses marked as partly known.
    pub verses_partial: usize,
    /// The verses of the surah.
    pub verses_total: usize,
    /// The vocabulary nodes set up for the surah.
    pub vocab_initialized: usize,
}


/// The verses counted as initialized by one surah's placement: the known and
/// the partly known ones.
pub open spec fn initialized_of(r: SurahPlacementResult) -> int {
    r.verses_known + r.verses_partial
}

/// The verses initialized over a sequence of surah results.
pub open spec fn total_initialized(rs: Seq<SurahPlacementResult>) -> int
    decreases rs.len(),
{
    if rs.len() == 0 {
        0
    } else {
        total_initialized(rs.drop_last()) + initialized_of(rs.last())
    }
}

/// The vocabulary nodes initialized over a sequence of surah results.
pub open spec fn total_vocab(rs: Seq<SurahPlacementResult>) -> int
    decreases rs.len(),
{
    if rs.len() == 0 {
        0
    } else {
        total_vocab(rs.drop_last()) + rs.last().vocab_initialized
    }
}

/// The counts of an initial placement: what was set up, surah by surah.
#[derive(Debug, Clone)]
pub struct InitialPlacementSummary {
    /// The verses initialized, known or partly known.
    pub verses_initialized: usize,
    /// The vocabulary nodes initialized.
    pub vocab_nodes_initialized: usize,
    /// What was done for each surah, in the order processed.
    pub surahs_processed: Vec<SurahPlacementResult>,
    /// Whether the learner's reading fluency modified the placement.
    pub global_modifiers_applied: bool,
}

impl InitialPlacementSummary {
    /// The totals agree with the surahs processed.
    pub open spec fn totals_agree(&self) -> bool {
        &&& self.verses_initialized == total_initialized(self.surahs_processed@)
        &&& self.vocab_nodes_initialized == total_vocab(self.surahs_processed@)
    }

    /// An empty summary.
    pub fn new() -> (r: Self)
        ensures
            r.verses_initialized == 0,
            r.vocab_nodes_initialized == 0,
            r.surahs_processed@.len() == 0,
            !r.global_modifiers_applied,
            r.totals_agree(),
    {
        InitialPlacementSummary {
            verses_initialized: 0,
            vocab_nodes_initialized: 0,
            surahs_processed: Vec::new(),
            global_modifiers_applied: false,
        }
    }

    /// Adds one surah's result: its known and partly known verses to the
    /// verses initialized, its vocabulary to the vocabulary initialized.
    pub fn add_surah_result(&mut self, result: SurahPlacementResult)
        requires
            old(self).verses_initialized + result.verses_known + result.verses_partial <= usize::MAX,
            old(self).vocab_nodes_initialized + result.vocab_initialized <= usize::MAX,
        ensures
            final(self).verses_initialized == old(self).verses_initialized + result.verses_known
                + result.verses_partial,
            final(self).vocab_nodes_initialized == old(self).vocab_nodes_initialized
                + result.vocab_initialized,
            final(self).surahs_processed@ == old(self).surahs_processed@.push(result),
            final(self).global_modifiers_applied == old(self).global_modifiers_applied,
            old(self).totals_agree() ==> final(self).totals_agree(),
    {
        let ghost before = self.surahs_processed@;
        self.verses_initialized = self.verses_initialized + (result.verses_known
            + result.verses_partial);
        self.vocab_nodes_initialized = self.vocab_nodes_initialized + result.vocab_initialized;
        self.surahs_processed.push(result);
        assert(self.surahs_processed@.drop_last() =~= before);
    }

    /// The number of surahs processed.
    pub fn surahs_count(&self) -> (r: usize)
        ensures
            r == self.surahs_processed@.len(),
    {
        self.surahs_processed.len()
    }
}

/// Where a verse lands in a surah's placement.
#[derive(Debug, Clone, Copy, PartialEq, Eq, Structural)]
pub enum VersePlacement {
    /// Marked as fully known.
    Known,
    /// Marked as partly known.
    Partial,
    /// Left new.
    Untouched,
}

/// The placement of the verse at `rank` in the shuffled order: the first
/// `n_known` are known, the next `n_partial` partly known, the rest new.
pub open spec fn placement_at(rank: int, n_known: int, n_partial: int) -> VersePlacement {
    if rank < n_known {
        VersePlacement::Known
    } else if rank < n_known + n_partial {
        VersePlacement::Partial
    } else {
        VersePlacement::Untouched
    }
}

/// The placement of the verse at `rank` in the shuffled order.
pub fn verse_placement(rank: usize, n_known: usize, n_partial: usize) -> (r: VersePlacement)
    ensures
        r == placement_at(rank as int, n_known as int, n_partial as int),
{
    if rank < n_known {
        VersePlacement::Known
    } else if rank - n_known < n_partial {
        VersePlacement::Partial
    } else {
        VersePlacement::Untouched
    }
}

/// How many of a surah's `total` verses are known and how many partly known,
/// from the scaled shares the caller computed (`known_share` of the verses,
/// and `partial_share` where the memorization reaches the partial
/// threshold): the known ones are at most all verses, the partly known ones
/// at most the rest, and none below the threshold.
pub fn placement_counts(total: usize, known_share: usize, partial_share: usize, reaches_partial: bool)
    -> (r: (usize, usize))
    ensures
        r.0 == (if known_share <= total { known_share } else { total }),
        r.1 == (if !reaches_partial {
            0
        } else if partial_share <= total - r.0 {
            partial_share as int
        } else {
            total - r.0
        }),
        r.0 + r.1 <= total,
{
    let n_known = if known_share <= total { known_share } else { total };
    let n_partial = if !reaches_partial {
        0
    } else if partial_share <= total - n_known {
        partial_share
    } else {
        total - n_known
    };
    (n_known, n_partial)
}

} // verus!

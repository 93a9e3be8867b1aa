use vstd::prelude::*;
use crate::decimal::{dec, format_i64, format_u64, int_parse, int_str, parse_i32_text};
use crate::errors::fault_message;
use crate::exercises::exercise_data::ExerciseData;
use crate::exercises::types::{ExerciseError, opt_view};
use crate::exercises::verse_words::{
    colon_join, colon_key, find_word_at, first_at, has_word_at, key_parts, split_key,
};
use crate::models::{EdgeType, Verse, Word, spec_base_id};
use crate::node_id::{
    decode_verse, parse_verse, parse_word, spec_decode_verse, spec_encode_verse, spec_parse_verse,
    spec_parse_word,
};
use crate::rng::{random_index, shuffle, views_of};
use crate::text::{concat2, concat3, has_prefix, owned, starts_with_str, string_of, strip_prefix_str};

verus! {

// ---------------------------------------------------------------------------
// Where an exercise points
// ---------------------------------------------------------------------------

/// The verse key of a verse exercise: the key after `VERSE:`, else the verse
/// encoded in the node ID, else the error.
pub open spec fn verse_key_for(base: Seq<char>, node_id: i64) -> Result<Seq<char>, Seq<char>> {
    if has_prefix(base, "VERSE:"@) {
        Ok(base.subrange(6, base.len() as int))
    } else {
        match spec_decode_verse(node_id as int) {
            Some((c, v)) => Ok(colon_join(dec(c as nat), dec(v as nat))),
            None => Err("Invalid verse node ID: "@ + base),
        }
    }
}

fn num_u64(n: u64) -> (r: String)
    ensures
        r@ == dec(n as nat),
{
    string_of(&format_u64(n))
}

fn num_i64(n: i64) -> (r: String)
    ensures
        r@ == int_str(n as int),
{
    string_of(&format_i64(n))
}

/// The verse key of a verse exercise.
pub fn resolve_verse_key(base: &str, node_id: i64) -> (r: Result<String, ExerciseError>)
    ensures
        match (r, verse_key_for(base@, node_id)) {
            (Ok(k), Ok(k2)) => k@ == k2,
            (Err(e), Err(m)) => e.message@ == m,
            _ => false,
        },
{
    match strip_prefix_str(base, "VERSE:") {
        Some(k) => {
            proof {
                reveal_strlit("VERSE:");
            }
            Ok(k)
        },
        None => match decode_verse(node_id) {
            Some((c, v)) => {
                let cs = num_u64(c as u64);
                let vs = num_u64(v as u64);
                Ok(colon_key(cs.as_str(), vs.as_str()))
            },
            None => Err(ExerciseError { message: concat2("Invalid verse node ID: ", base) }),
        },
    }
}

/// Where a word exercise's word is: at a position of a verse given by
/// chapter and verse numbers, or a word known by its ID.
#[derive(Debug, Clone, Copy, PartialEq, Eq, Structural)]
pub enum WordLocation {
    At { chapter: i32, verse: i32, position: i32 },
    ById { word_id: i64 },
}

/// Where a word key points: a key of four parts gives the numbers, a
/// `WORD:` key the word's ID.
pub open spec fn word_location_of(base: Seq<char>) -> Result<WordLocation, Seq<char>> {
    let p = key_parts(base);
    if p.len() == 4 {
        match (
            int_parse(p[1], i32::MIN as int, i32::MAX as int),
            int_parse(p[2], i32::MIN as int, i32::MAX as int),
            int_parse(p[3], i32::MIN as int, i32::MAX as int),
        ) {
            (Err(m), _, _) => Err(m),
            (Ok(_), Err(m), _) => Err(m),
            (Ok(_), Ok(_), Err(m)) => Err(m),
            (Ok(c), Ok(v), Ok(n)) => Ok(
                WordLocation::At { chapter: c as i32, verse: v as i32, position: n as i32 },
            ),
        }
    } else if has_prefix(base, "WORD:"@) {
        match spec_parse_word(base) {
            Ok(id) => Ok(WordLocation::ById { word_id: id }),
            Err(f) => Err(fault_message(f)),
        }
    } else {
        Err("Invalid word ukey format: "@ + base)
    }
}

fn parse_part(s: &str) -> (r: Result<i32, ExerciseError>)
    ensures
        match (r, int_parse(s@, i32::MIN as int, i32::MAX as int)) {
            (Ok(n), Ok(m)) => n as int == m,
            (Err(e), Err(m)) => e.message@ == m,
            _ => false,
        },
{
    match parse_i32_text(s) {
        Ok(n) => Ok(n),
        Err(m) => Err(ExerciseError { message: m }),
    }
}

/// Reads where a word key points.
pub fn word_location(base: &str) -> (r: Result<WordLocation, ExerciseError>)
    ensures
        match (r, word_location_of(base@)) {
            (Ok(l), Ok(l2)) => l == l2,
            (Err(e), Err(m)) => e.message@ == m,
            _ => false,
        },
{
    let parts = split_key(base);
    if parts.len() == 4 {
        let chapter = parse_part(parts[1].as_str())?;
        let verse = parse_part(parts[2].as_str())?;
        let position = parse_part(parts[3].as_str())?;
        return Ok(WordLocation::At { chapter, verse, position });
    }
    if starts_with_str(base, "WORD:") {
        match parse_word(base) {
            Ok(id) => Ok(WordLocation::ById { word_id: id }),
            Err(e) => Err(ExerciseError { message: e.message() }),
        }
    } else {
        Err(ExerciseError { message: concat2("Invalid word ukey format: ", base) })
    }
}

/// The chapter, verse and position of a word looked up by its ID, read from
/// its verse key `chapter:verse`.
pub open spec fn place_of_word(word_id: i64, w: Word) -> Result<(i32, i32, i32), Seq<char>> {
    let p = key_parts(w.verse_key@);
    if p.len() != 2 {
        Err("Invalid verse key `"@ + w.verse_key@ + "` for word "@ + int_str(word_id as int))
    } else {
        match (
            int_parse(p[0], i32::MIN as int, i32::MAX as int),
            int_parse(p[1], i32::MIN as int, i32::MAX as int),
        ) {
            (Err(m), _) => Err(m),
            (Ok(_), Err(m)) => Err(m),
            (Ok(c), Ok(v)) => Ok((c as i32, v as i32, w.position)),
        }
    }
}

/// The chapter, verse and position of a word looked up by its ID.
pub fn word_place(word_id: i64, w: &Word) -> (r: Result<(i32, i32, i32), ExerciseError>)
    ensures
        match (r, place_of_word(word_id, *w)) {
            (Ok(t), Ok(t2)) => t == t2,
            (Err(e), Err(m)) => e.message@ == m,
            _ => false,
        },
{
    let parts = split_key(w.verse_key.as_str());
    if parts.len() != 2 {
        let a = concat3("Invalid verse key `", w.verse_key.as_str(), "` for word ");
        let n = num_i64(word_id);
        return Err(ExerciseError { message: concat2(a.as_str(), n.as_str()) });
    }
    let c = parse_part(parts[0].as_str())?;
    let v = parse_part(parts[1].as_str())?;
    Ok((c, v, w.position))
}

/// Where a word of a grammar exercise is: at a position of a verse, or a
/// word known by its ID.
#[derive(Debug, Clone, PartialEq)]
pub enum WordRef {
    InVerse { verse_key: String, position: i32 },
    ById { word_id: i64 },
}

/// Where a grammar exercise's word key points: `WORD_INSTANCE:c:v:p` (four
/// parts) gives the verse key and position, `WORD:` the word's ID.
pub open spec fn word_ref_of(base: Seq<char>) -> Result<(Seq<char>, i32, i64, bool), Seq<char>> {
    let p = key_parts(base);
    if has_prefix(base, "WORD_INSTANCE:"@) {
        if p.len() != 4 {
            Err("Invalid word node ID format: "@ + base)
        } else {
            match int_parse(p[3], i32::MIN as int, i32::MAX as int) {
                Ok(n) => Ok((colon_join(p[1], p[2]), n as i32, 0, true)),
                Err(m) => Err(m),
            }
        }
    } else if has_prefix(base, "WORD:"@) {
        match spec_parse_word(base) {
            Ok(id) => Ok((Seq::<char>::empty(), 0, id, false)),
            Err(f) => Err(fault_message(f)),
        }
    } else {
        Err("Invalid word node ID format: "@ + base)
    }
}

/// Reads where a grammar exercise's word key points.
pub fn word_ref(base: &str) -> (r: Result<WordRef, ExerciseError>)
    ensures
        match (r, word_ref_of(base@)) {
            (Ok(WordRef::InVerse { verse_key, position }), Ok((k, n, _, true))) => verse_key@ == k
                && position == n,
            (Ok(WordRef::ById { word_id }), Ok((_, _, id, false))) => word_id == id,
            (Err(e), Err(m)) => e.message@ == m,
            _ => false,
        },
{
    if starts_with_str(base, "WORD_INSTANCE:") {
        let parts = split_key(base);
        if parts.len() != 4 {
            return Err(ExerciseError { message: concat2("Invalid word node ID format: ", base) });
        }
        let position = parse_part(parts[3].as_str())?;
        Ok(WordRef::InVerse { verse_key: colon_key(parts[1].as_str(), parts[2].as_str()), position })
    } else if starts_with_str(base, "WORD:") {
        match parse_word(base) {
            Ok(id) => Ok(WordRef::ById { word_id: id }),
            Err(e) => Err(ExerciseError { message: e.message() }),
        }
    } else {
        Err(ExerciseError { message: concat2("Invalid word node ID format: ", base) })
    }
}

/// The chapter and verse of a verse exercise: decoded from its node ID, else
/// parsed from its key.
pub open spec fn verse_of_node(node_id: i64, base: Seq<char>) -> Result<(u8, u16), Seq<char>> {
    match spec_decode_verse(node_id as int) {
        Some(cv) => Ok(cv),
        None => match spec_parse_verse(base) {
            Ok(cv) => Ok(cv),
            Err(f) => Err(fault_message(f)),
        },
    }
}

/// The chapter and verse of a verse exercise.
pub fn node_verse(node_id: i64, base: &str) -> (r: Result<(u8, u16), ExerciseError>)
    ensures
        match (r, verse_of_node(node_id, base@)) {
            (Ok(t), Ok(t2)) => t == t2,
            (Err(e), Err(m)) => e.message@ == m,
            _ => false,
        },
{
    match decode_verse(node_id) {
        Some(cv) => Ok(cv),
        None => match parse_verse(base) {
            Ok(cv) => Ok(cv),
            Err(e) => Err(ExerciseError { message: e.message() }),
        },
    }
}

// ---------------------------------------------------------------------------
// Blank positions
// ---------------------------------------------------------------------------

/// The exercises that pick a word position of a verse at random.
#[derive(Debug, Clone, Copy, PartialEq, Eq, Structural)]
pub enum BlankKind {
    ClozeDeletion,
    FirstLetterHint,
    MissingWordMcq,
    NextWordMcq,
    ReverseCloze,
    FindMistake,
}

/// Why a verse of `n` words is refused for an exercise, if it is.
pub open spec fn blank_error(kind: BlankKind, n: int, verse_key: Seq<char>) -> Option<Seq<char>> {
    match kind {
        BlankKind::ClozeDeletion => if n < 3 {
            Some("Verse too short for cloze deletion (need at least 3 words)"@)
        } else {
            None
        },
        BlankKind::FirstLetterHint => if n == 0 {
            Some("No words found for verse: "@ + verse_key)
        } else {
            None
        },
        BlankKind::MissingWordMcq => if n < 4 {
            Some("Verse too short for missing word MCQ (need at least 4 words)"@)
        } else {
            None
        },
        BlankKind::NextWordMcq => if n < 3 {
            Some("Verse too short for next word MCQ (need at least 3 words)"@)
        } else {
            None
        },
        BlankKind::ReverseCloze => if n < 3 {
            Some("Verse too short for reverse cloze (need at least 3 words)"@)
        } else {
            None
        },
        BlankKind::FindMistake => if n < 3 {
            Some("Verse too short for Find the Mistake (need at least 3 words)"@)
        } else {
            None
        },
    }
}

/// The positions an exercise picks from in a verse of `n` words (both ends
/// included).
pub open spec fn blank_range(kind: BlankKind, n: int) -> (int, int) {
    match kind {
        BlankKind::ClozeDeletion => if n > 3 {
            (2, n - 1)
        } else {
            (2, 2)
        },
        BlankKind::FirstLetterHint => (1, n),
        BlankKind::MissingWordMcq => (2, n - 1),
        BlankKind::NextWordMcq => (1, n - 1),
        BlankKind::ReverseCloze => (2, n),
        BlankKind::FindMistake => if n > 3 {
            (2, n - 1)
        } else {
            (2, 2)
        },
    }
}

/// Picks a word position at random for an exercise on a verse of
/// `word_count` words, or refuses the verse.
pub fn blank_position(kind: BlankKind, word_count: usize, verse_key: &str) -> (r: Result<
    i32,
    ExerciseError,
>)
    requires
        word_count < i32::MAX,
    ensures
        match r {
            Ok(p) => blank_error(kind, word_count as int, verse_key@) is None && blank_range(
                kind,
                word_count as int,
            ).0 <= p <= blank_range(kind, word_count as int).1,
            Err(e) => blank_error(kind, word_count as int, verse_key@) == Some(e.message@),
        },
{
    let n = word_count;
    match kind {
        BlankKind::ClozeDeletion => {
            if n < 3 {
                return Err(
                    ExerciseError {
                        message: owned("Verse too short for cloze deletion (need at least 3 words)"),
                    },
                );
            }
            if n > 3 {
                Ok(random_index(2, n) as i32)
            } else {
                Ok(2)
            }
        },
        BlankKind::FirstLetterHint => {
            if n == 0 {
                return Err(ExerciseError { message: concat2("No words found for verse: ", verse_key) });
            }
            Ok(random_index(1, n + 1) as i32)
        },
        BlankKind::MissingWordMcq => {
            if n < 4 {
                return Err(
                    ExerciseError {
                        message: owned("Verse too short for missing word MCQ (need at least 4 words)"),
                    },
                );
            }
            Ok(random_index(2, n) as i32)
        },
        BlankKind::NextWordMcq => {
            if n < 3 {
                return Err(
                    ExerciseError {
                        message: owned("Verse too short for next word MCQ (need at least 3 words)"),
                    },
                );
            }
            Ok(random_index(1, n) as i32)
        },
        BlankKind::ReverseCloze => {
            if n < 3 {
                return Err(
                    ExerciseError {
                        message: owned("Verse too short for reverse cloze (need at least 3 words)"),
                    },
                );
            }
            Ok(random_index(2, n + 1) as i32)
        },
        BlankKind::FindMistake => {
            if n < 3 {
                return Err(
                    ExerciseError {
                        message: owned("Verse too short for Find the Mistake (need at least 3 words)"),
                    },
                );
            }
            if n > 3 {
                Ok((random_index(1, n - 1) + 1) as i32)
            } else {
                Ok(2)
            }
        },
    }
}

// ---------------------------------------------------------------------------
// Distractor node IDs
// ---------------------------------------------------------------------------

/// The positions of the words other than the one at `position`, in order.
pub open spec fn positions_except(words: Seq<Word>, position: i32) -> Seq<i32>
    decreases words.len(),
{
    if words.len() == 0 {
        Seq::<i32>::empty()
    } else {
        let r = positions_except(words.drop_last(), position);
        if words.last().position == position {
            r
        } else {
            r.push(words.last().position)
        }
    }
}

/// The positions of the words other than the one at `position`.
pub fn other_positions(words: &Vec<Word>, position: i32) -> (r: Vec<i32>)
    ensures
        r@ == positions_except(words@, position),
{
    let mut r: Vec<i32> = Vec::new();
    let mut i: usize = 0;
    while i < words.len()
        invariant
            i <= words.len(),
            r@ == positions_except(words@.subrange(0, i as int), position),
        decreases words.len() - i,
    {
        assert(words@.subrange(0, i + 1).drop_last() =~= words@.subrange(0, i as int));
        if words[i].position != position {
            r.push(words[i].position);
        }
        i = i + 1;
    }
    assert(words@.subrange(0, words@.len() as int) =~= words@);
    r
}

/// The positions of the first `n` words.
pub fn first_positions(words: &Vec<Word>, n: usize) -> (r: Vec<i32>)
    ensures
        r@ == crate::exercises::verse_words::take_at_most(words@, n as int).map_values(
            |w: Word| w.position,
        ),
{
    let mut r: Vec<i32> = Vec::new();
    let end: usize = if n < words.len() { n } else { words.len() };
    let mut i: usize = 0;
    while i < end
        invariant
            i <= end,
            end == (if n < words.len() { n as int } else { words.len() as int }),
            r@ == words@.subrange(0, i as int).map_values(|w: Word| w.position),
        decreases end - i,
    {
        r.push(words[i].position);
        assert(words@.subrange(0, i + 1).map_values(|w: Word| w.position) =~= words@.subrange(
            0,
            i as int,
        ).map_values(|w: Word| w.position).push(words@[i as int].position));
        i = i + 1;
    }
    assert(words@.subrange(0, end as int) =~= crate::exercises::verse_words::take_at_most(
        words@,
        n as int,
    ));
    r
}

/// Up to `count` of the IDs, picked at random.
pub fn pick_ids(ids: Vec<i64>, count: usize) -> (r: Vec<i64>)
    ensures
        r@.len() == (if count < ids@.len() { count as int } else { ids@.len() as int }),
        forall|i: int| 0 <= i < r@.len() ==> ids@.contains(#[trigger] r@[i]),
{
    let mut d = ids;
    let ghost orig = d@;
    shuffle(&mut d);
    proof {
        assert(views_of(orig) =~= orig);
        assert(views_of(d@) =~= d@);
        d@.to_multiset_ensures();
        orig.to_multiset_ensures();
        assert forall|i: int| 0 <= i < d@.len() implies orig.contains(#[trigger] d@[i]) by {
            assert(d@.contains(d@[i]));
            crate::rng::lemma_same_items(d@, orig, d@[i]);
        }
    }
    let ghost shuffled = d@;
    d.truncate(count);
    proof {
        assert forall|i: int| 0 <= i < d@.len() implies orig.contains(#[trigger] d@[i]) by {
            assert(d@[i] == shuffled[i]);
        }
    }
    d
}

// ---------------------------------------------------------------------------
// Sequence recall
// ---------------------------------------------------------------------------

/// The largest of a non-empty sequence of verse numbers.
pub open spec fn max_of(s: Seq<i32>) -> int
    decreases s.len(),
{
    if s.len() <= 1 {
        s[0] as int
    } else {
        let m = max_of(s.drop_last());
        if s.last() > m {
            s.last() as int
        } else {
            m
        }
    }
}

/// The verse a sequence question asks for: the next one, or, from the last
/// verse, the previous one; none for a chapter of one verse.
pub open spec fn continuation(current: int, max: int) -> Option<int> {
    if current < max {
        Some(current + 1)
    } else if current > 1 {
        Some(current - 1)
    } else {
        None
    }
}

/// The verse numbers offered: up to three below the answer (from 1 on) and
/// up to three above it (up to the chapter's last), in ascending order, the
/// first four kept.
pub open spec fn recall_numbers(correct: int, max: int) -> Seq<int> {
    let lows = Seq::new(3, |i: int| correct - 3 + i).filter(|n: int| n >= 1);
    let highs = Seq::new(3, |i: int| correct + 1 + i).filter(|n: int| n <= max);
    crate::exercises::verse_words::take_at_most(lows + seq![correct] + highs, 4)
}

fn push_if(v: &mut Vec<i64>, n: i64, keep: bool)
    ensures
        final(v)@ == (if keep {
            old(v)@.push(n)
        } else {
            old(v)@
        }),
{
    if keep {
        v.push(n);
    }
}

/// The largest verse number.
pub fn max_verse_number(numbers: &Vec<i32>) -> (r: i32)
    requires
        numbers@.len() > 0,
    ensures
        r as int == max_of(numbers@),
{
    let mut m = numbers[0];
    let mut i: usize = 1;
    assert(numbers@.subrange(0, 1).len() == 1);
    while i < numbers.len()
        invariant
            1 <= i <= numbers.len(),
            m as int == max_of(numbers@.subrange(0, i as int)),
        decreases numbers.len() - i,
    {
        assert(numbers@.subrange(0, i + 1).drop_last() =~= numbers@.subrange(0, i as int));
        if numbers[i] > m {
            m = numbers[i];
        }
        i = i + 1;
    }
    assert(numbers@.subrange(0, numbers@.len() as int) =~= numbers@);
    m
}

/// A sequence-recall question for a verse of a chapter whose verse numbers
/// have been looked up: the verse to recall and the verses offered, each as
/// its encoded ID.
pub fn sequence_recall_data(
    node_id: i64,
    base_ukey: &str,
    chapter: u8,
    verse: u16,
    verse_numbers: &Vec<i32>,
) -> (r: Result<ExerciseData, ExerciseError>)
    ensures
        match r {
            Ok(ExerciseData::SequenceRecall { node_id: n, correct_sequence, options }) => {
                let max = max_of(verse_numbers@);
                let c = continuation(verse as int, max);
                &&& verse_numbers@.len() > 0
                &&& n == node_id
                &&& c is Some
                &&& correct_sequence@ == seq![spec_encode_verse(chapter as int, (c->0 as u16) as int) as i64]
                &&& options@.len() == recall_numbers(c->0, max).len()
                &&& forall|i: int|
                    0 <= i < options@.len() ==> #[trigger] options@[i]@ == seq![
                        spec_encode_verse(chapter as int, (recall_numbers(c->0, max)[i] as u16) as int)
                            as i64,
                    ]
            },
            Ok(_) => false,
            Err(e) => if verse_numbers@.len() == 0 {
                e.message@ == "No verses found for chapter "@ + dec(chapter as nat)
            } else {
                continuation(verse as int, max_of(verse_numbers@)) is None && e.message@
                    == "Cannot determine sequence continuation for "@ + base_ukey@
            },
        },
{
    if verse_numbers.len() == 0 {
        let c = num_u64(chapter as u64);
        return Err(ExerciseError { message: concat2("No verses found for chapter ", c.as_str()) });
    }
    let max = max_verse_number(verse_numbers) as i64;
    let current = verse as i64;
    let correct: i64 = if current < max {
        current + 1
    } else if current > 1 {
        current - 1
    } else {
        return Err(
            ExerciseError { message: concat2("Cannot determine sequence continuation for ", base_ukey) },
        );
    };
    let ghost nums = recall_numbers(correct as int, max as int);
    let mut numbers: Vec<i64> = Vec::new();
    let ghost lows = Seq::new(3, |i: int| correct - 3 + i).filter(|n: int| n >= 1);
    let ghost highs = Seq::new(3, |i: int| correct + 1 + i).filter(|n: int| n <= max);
    proof {
        reveal_with_fuel(Seq::filter, 4);
        let l = Seq::new(3, |i: int| correct - 3 + i);
        assert(l.drop_last().drop_last().drop_last() =~= Seq::<int>::empty());
        let h = Seq::new(3, |i: int| correct + 1 + i);
        assert(h.drop_last().drop_last().drop_last() =~= Seq::<int>::empty());
    }
    push_if(&mut numbers, correct - 3, correct - 3 >= 1);
    push_if(&mut numbers, correct - 2, correct - 2 >= 1);
    push_if(&mut numbers, correct - 1, correct - 1 >= 1);
    numbers.push(correct);
    push_if(&mut numbers, correct + 1, correct + 1 <= max);
    push_if(&mut numbers, correct + 2, correct + 2 <= max);
    push_if(&mut numbers, correct + 3, correct + 3 <= max);
    proof {
        let l = Seq::new(3, |i: int| correct - 3 + i);
        let h = Seq::new(3, |i: int| correct + 1 + i);
        assert(l.drop_last().drop_last() =~= seq![correct - 3]);
        assert(l.drop_last() =~= seq![correct - 3, correct - 2]);
        assert(h.drop_last().drop_last() =~= seq![correct + 1]);
        assert(h.drop_last() =~= seq![correct + 1, correct + 2]);
        assert(numbers@.map_values(|n: i64| n as int) =~= lows + seq![correct as int] + highs);
    }
    numbers.truncate(4);
    proof {
        assert(numbers@.map_values(|n: i64| n as int) =~= nums);
    }
    let mut options: Vec<Vec<i64>> = Vec::new();
    let mut i: usize = 0;
    while i < numbers.len()
        invariant
            i <= numbers.len(),
            numbers@.map_values(|n: i64| n as int) == nums,
            options@.len() == i,
            forall|j: int|
                0 <= j < i ==> #[trigger] options@[j]@ == seq![
                    spec_encode_verse(chapter as int, (nums[j] as u16) as int) as i64,
                ],
        decreases numbers.len() - i,
    {
        let n = numbers[i];
        assert(nums[i as int] == n as int);
        let id = crate::node_id::encode_verse(chapter, n as u16);
        let one: Vec<i64> = vec![id];
        options.push(one);
        i = i + 1;
    }
    let id = crate::node_id::encode_verse(chapter, correct as u16);
    let correct_sequence: Vec<i64> = vec![id];
    Ok(ExerciseData::SequenceRecall { node_id, correct_sequence, options })
}

// ---------------------------------------------------------------------------
// Cross-verse connection
// ---------------------------------------------------------------------------

/// An edge's target node, as looked up: its ID, its key and the edge's type.
#[derive(Debug, Clone)]
pub struct EdgeTarget {
    pub id: i64,
    pub ukey: String,
    pub edge_type: EdgeType,
}

/// Whether a target is a verse other than the node itself.
pub open spec fn links_verse(node_id: i64, t: EdgeTarget) -> bool {
    has_prefix(spec_base_id(t.ukey@), "VERSE:"@) && t.id != node_id
}

/// The IDs of the targets that are other verses, in order.
pub open spec fn linked_ids(node_id: i64, ts: Seq<EdgeTarget>) -> Seq<i64>
    decreases ts.len(),
{
    if ts.len() == 0 {
        Seq::<i64>::empty()
    } else {
        let r = linked_ids(node_id, ts.drop_last());
        if links_verse(node_id, ts.last()) {
            r.push(ts.last().id)
        } else {
            r
        }
    }
}

/// The items of `s`, each only where it first occurs.
pub open spec fn distinct_first(s: Seq<i64>) -> Seq<i64>
    decreases s.len(),
{
    if s.len() == 0 {
        Seq::<i64>::empty()
    } else {
        let r = distinct_first(s.drop_last());
        if r.contains(s.last()) {
            r
        } else {
            r.push(s.last())
        }
    }
}

/// The name of the link an edge type makes.
pub open spec fn link_name(t: EdgeType) -> Seq<char> {
    match t {
        EdgeType::Knowledge => "Knowledge link"@,
        EdgeType::Dependency => "Dependency link"@,
    }
}

/// The theme of a connection: the link of the first target that is another
/// verse.
pub open spec fn link_theme(node_id: i64, ts: Seq<EdgeTarget>) -> Option<Seq<char>>
    decreases ts.len(),
{
    if ts.len() == 0 {
        None
    } else if links_verse(node_id, ts[0]) {
        Some(link_name(ts[0].edge_type))
    } else {
        link_theme(node_id, ts.drop_first())
    }
}

fn contains_id(v: &Vec<i64>, x: i64) -> (r: bool)
    ensures
        r == v@.contains(x),
{
    let mut i: usize = 0;
    while i < v.len()
        invariant
            i <= v.len(),
            forall|j: int| 0 <= j < i ==> v@[j] != x,
        decreases v.len() - i,
    {
        if v[i] == x {
            return true;
        }
        i = i + 1;
    }
    false
}

/// The verses the node's edges lead to (each once, in order) and the theme
/// of the first such link.
pub fn linked_verses(node_id: i64, targets: &Vec<EdgeTarget>) -> (r: (Vec<i64>, Option<String>))
    ensures
        r.0@ == distinct_first(linked_ids(node_id, targets@)),
        opt_view(r.1) == link_theme(node_id, targets@),
{
    let mut ids: Vec<i64> = Vec::new();
    let mut theme: Option<String> = None;
    let mut i: usize = 0;
    assert(targets@.subrange(0, 0) =~= Seq::<EdgeTarget>::empty());
    assert(targets@.subrange(0, targets@.len() as int) =~= targets@);
    while i < targets.len()
        invariant
            i <= targets.len(),
            ids@ == distinct_first(linked_ids(node_id, targets@.subrange(0, i as int))),
            link_theme(node_id, targets@) == (match theme {
                Some(t) => Some(t@),
                None => link_theme(node_id, targets@.subrange(i as int, targets@.len() as int)),
            }),
        decreases targets.len() - i,
    {
        let ghost pre = targets@.subrange(0, i as int);
        let ghost rest = targets@.subrange(i as int, targets@.len() as int);
        proof {
            assert(targets@.subrange(0, i + 1).drop_last() =~= pre);
            assert(targets@.subrange(0, i + 1).last() == targets@[i as int]);
            assert(rest[0] == targets@[i as int]);
            assert(rest.drop_first() =~= targets@.subrange(i + 1, targets@.len() as int));
        }
        let t = &targets[i];
        let base = crate::models::base_id_of(t.ukey.as_str());
        let is_link = starts_with_str(base.as_str(), "VERSE:") && t.id != node_id;
        let ghost lids = linked_ids(node_id, targets@.subrange(0, i + 1));
        proof {
            assert(is_link == links_verse(node_id, targets@[i as int]));
            assert(lids.len() >= 0);
        }
        if is_link {
            assert(lids == linked_ids(node_id, pre).push(t.id));
            assert(lids.drop_last() =~= linked_ids(node_id, pre));
            assert(lids.last() == t.id);
            if !contains_id(&ids, t.id) {
                ids.push(t.id);
            }
            assert(distinct_first(lids) == ids@);
            if theme.is_none() {
                assert(link_theme(node_id, rest) == Some(link_name(t.edge_type)));
                theme = Some(
                    match t.edge_type {
                        EdgeType::Knowledge => owned("Knowledge link"),
                        EdgeType::Dependency => owned("Dependency link"),
                    },
                );
            }
        } else {
            assert(lids == linked_ids(node_id, pre));
        }
        i = i + 1;
    }
    proof {
        assert(targets@.subrange(i as int, targets@.len() as int).len() == 0);
    }
    (ids, theme)
}

/// The neighbouring verse numbers that the chapter has: two before and two
/// after, in ascending order.
pub open spec fn adjacent_numbers(verse: int, present: Seq<i32>) -> Seq<int> {
    seq![verse - 2, verse - 1, verse + 1, verse + 2].filter(
        |n: int| n >= 1 && present.map_values(|p: i32| p as int).contains(n),
    )
}

fn contains_i32(v: &Vec<i32>, x: i64) -> (r: bool)
    ensures
        r == v@.map_values(|p: i32| p as int).contains(x as int),
{
    let ghost m = v@.map_values(|p: i32| p as int);
    let mut i: usize = 0;
    while i < v.len()
        invariant
            i <= v.len(),
            m == v@.map_values(|p: i32| p as int),
            forall|j: int| 0 <= j < i ==> m[j] != x as int,
        decreases v.len() - i,
    {
        if v[i] as i64 == x {
            assert(m[i as int] == x as int);
            return true;
        }
        i = i + 1;
    }
    false
}

proof fn lemma_in_i32(present: Seq<i32>, n: int)
    requires
        present.map_values(|p: i32| p as int).contains(n),
    ensures
        i32::MIN <= n <= i32::MAX,
{
    let m = present.map_values(|p: i32| p as int);
    let j = choose|j: int| 0 <= j < m.len() && m[j] == n;
    assert(m[j] == present[j] as int);
}

/// The neighbouring verses the chapter has, when no edge links the verse.
pub fn adjacent_verses(verse: i32, present: &Vec<i32>) -> (r: Vec<i32>)
    ensures
        r@.map_values(|n: i32| n as int) == adjacent_numbers(verse as int, present@),
{
    let mut r: Vec<i32> = Vec::new();
    let v = verse as i64;
    let ghost cands = seq![v - 2, v - 1, v + 1, v + 2];
    proof {
        reveal_with_fuel(Seq::filter, 5);
        assert(cands.drop_last() =~= seq![v - 2, v - 1, v + 1]);
        assert(cands.drop_last().drop_last() =~= seq![v - 2, v - 1]);
        assert(cands.drop_last().drop_last().drop_last() =~= seq![v - 2]);
        assert(cands.drop_last().drop_last().drop_last().drop_last() =~= Seq::<int>::empty());
    }
    if v - 2 >= 1 && contains_i32(present, v - 2) {
        proof {
            lemma_in_i32(present@, v - 2);
        }
        r.push((v - 2) as i32);
    }
    if v - 1 >= 1 && contains_i32(present, v - 1) {
        proof {
            lemma_in_i32(present@, v - 1);
        }
        r.push((v - 1) as i32);
    }
    if v + 1 >= 1 && contains_i32(present, v + 1) {
        proof {
            lemma_in_i32(present@, v + 1);
        }
        r.push((v + 1) as i32);
    }
    if v + 2 >= 1 && contains_i32(present, v + 2) {
        proof {
            lemma_in_i32(present@, v + 2);
        }
        r.push((v + 2) as i32);
    }
    assert(r@.map_values(|n: i32| n as int) =~= adjacent_numbers(verse as int, present@));
    r
}

/// The ID of a neighbouring verse: its node's ID where one was found, else
/// the encoded verse.
pub fn verse_id_or_encoded(found: Option<i64>, chapter: i32, verse: i32) -> (r: i64)
    ensures
        r == match found {
            Some(id) => id,
            None => spec_encode_verse((chapter as u8) as int, (verse as u16) as int) as i64,
        },
{
    match found {
        Some(id) => id,
        None => crate::node_id::encode_verse(chapter as u8, verse as u16),
    }
}

/// The node key of verse `verse` of chapter `chapter`: `VERSE:chapter:verse`.
pub fn adjacent_verse_key(chapter: i32, verse: i32) -> (r: String)
    ensures
        r@ == "VERSE:"@ + int_str(chapter as int) + ":"@ + int_str(verse as int),
{
    let c = string_of(&format_i64(chapter as i64));
    let v = string_of(&format_i64(verse as i64));
    let a = concat3("VERSE:", c.as_str(), ":");
    concat2(a.as_str(), v.as_str())
}

/// The IDs of the neighbouring verses `numbers` of a chapter: the node ID
/// looked up for each (`found`, by position) where there is one, else the
/// encoded verse.
pub open spec fn adjacent_ids(chapter: i32, numbers: Seq<i32>, found: Seq<Option<i64>>) -> Seq<i64> {
    Seq::new(
        numbers.len(),
        |i: int|
            match (if i < found.len() { found[i] } else { None }) {
                Some(id) => id,
                None => spec_encode_verse((chapter as u8) as int, (numbers[i] as u16) as int) as i64,
            },
    )
}

/// The verses a connection exercise is about, and its theme: the linked
/// verses and the link's theme when there are linked verses; otherwise the
/// neighbouring verses (`adjacent`, with the node IDs `found` for them),
/// under the theme "Adjacent verses".
pub fn related_verses(
    linked: Vec<i64>,
    link_theme: Option<String>,
    chapter: i32,
    adjacent: &Vec<i32>,
    found: &Vec<Option<i64>>,
) -> (r: (Vec<i64>, Option<String>))
    ensures
        linked@.len() > 0 ==> r.0@ == linked@ && opt_view(r.1) == opt_view(link_theme),
        linked@.len() == 0 ==> r.0@ == adjacent_ids(chapter, adjacent@, found@) && opt_view(r.1)
            == Some("Adjacent verses"@),
{
    if linked.len() > 0 {
        return (linked, link_theme);
    }
    let mut ids: Vec<i64> = Vec::new();
    let mut i: usize = 0;
    while i < adjacent.len()
        invariant
            i <= adjacent.len(),
            ids@ == adjacent_ids(chapter, adjacent@, found@).subrange(0, i as int),
        decreases adjacent.len() - i,
    {
        let f = if i < found.len() { found[i] } else { None };
        let id = verse_id_or_encoded(f, chapter, adjacent[i]);
        let ghost before = ids@;
        ids.push(id);
        assert(ids@ =~= adjacent_ids(chapter, adjacent@, found@).subrange(0, i + 1));
        i = i + 1;
    }
    assert(ids@ =~= adjacent_ids(chapter, adjacent@, found@));
    (ids, Some(owned("Adjacent verses")))
}

/// The encoded IDs of verses.
pub open spec fn encoded_ids(verses: Seq<Verse>) -> Seq<i64> {
    verses.map_values(
        |v: Verse| spec_encode_verse((v.chapter_number as u8) as int, (v.verse_number as u16) as int) as i64,
    )
}

/// Distractors taken from a chapter: its verses' IDs other than the right
/// one, added in order until there are three.
pub open spec fn fill_from(d: Seq<i64>, ids: Seq<i64>, correct: i64) -> Seq<i64>
    decreases ids.len(),
{
    if ids.len() == 0 || d.len() >= 3 {
        d
    } else {
        fill_from(if ids[0] != correct { d.push(ids[0]) } else { d }, ids.drop_first(), correct)
    }
}

/// Distractors taken, as a last resort, from the source chapter: IDs other
/// than the right one and not yet taken, added in order until there are
/// three.
pub open spec fn fill_new_from(d: Seq<i64>, ids: Seq<i64>, correct: i64) -> Seq<i64>
    decreases ids.len(),
{
    if ids.len() == 0 || d.len() >= 3 {
        d
    } else {
        fill_new_from(
            if ids[0] != correct && !d.contains(ids[0]) {
                d.push(ids[0])
            } else {
                d
            },
            ids.drop_first(),
            correct,
        )
    }
}

fn encode_of(v: &Verse) -> (r: i64)
    ensures
        r == spec_encode_verse((v.chapter_number as u8) as int, (v.verse_number as u16) as int),
{
    crate::node_id::encode_verse(v.chapter_number as u8, v.verse_number as u16)
}

/// Adds distractors from the first three verses of a chapter. Tells whether
/// there are three.
pub fn add_chapter_distractors(distractors: &mut Vec<i64>, verses: &Vec<Verse>, correct_id: i64) -> (full:
    bool)
    ensures
        final(distractors)@ == fill_from(
            old(distractors)@,
            encoded_ids(crate::exercises::verse_words::take_at_most(verses@, 3)),
            correct_id,
        ),
        full == (final(distractors)@.len() >= 3),
{
    let ghost ids = encoded_ids(crate::exercises::verse_words::take_at_most(verses@, 3));
    let end: usize = if verses.len() < 3 { verses.len() } else { 3 };
    let mut i: usize = 0;
    assert(ids.subrange(0, ids.len() as int) =~= ids);
    while i < end && distractors.len() < 3
        invariant
            i <= end,
            end == ids.len(),
            end <= verses.len(),
            ids == encoded_ids(crate::exercises::verse_words::take_at_most(verses@, 3)),
            fill_from(old(distractors)@, ids, correct_id) == fill_from(
                distractors@,
                ids.subrange(i as int, ids.len() as int),
                correct_id,
            ),
        decreases end - i,
    {
        let id = encode_of(&verses[i]);
        let ghost rest = ids.subrange(i as int, ids.len() as int);
        assert(rest[0] == id);
        assert(rest.drop_first() =~= ids.subrange(i + 1, ids.len() as int));
        if id != correct_id {
            distractors.push(id);
        }
        i = i + 1;
    }
    assert(fill_from(distractors@, ids.subrange(i as int, ids.len() as int), correct_id) == distractors@);
    distractors.len() >= 3
}

/// Adds distractors from the last five verses of the source chapter, last
/// first. Tells whether there are three.
pub fn add_fallback_distractors(distractors: &mut Vec<i64>, verses: &Vec<Verse>, correct_id: i64) -> (full:
    bool)
    ensures
        final(distractors)@ == fill_new_from(
            old(distractors)@,
            crate::exercises::verse_words::take_at_most(encoded_ids(verses@).reverse(), 5),
            correct_id,
        ),
        full == (final(distractors)@.len() >= 3),
{
    let ghost ids = crate::exercises::verse_words::take_at_most(encoded_ids(verses@).reverse(), 5);
    let n = verses.len();
    let end: usize = if n < 5 { n } else { 5 };
    let mut i: usize = 0;
    assert(ids.subrange(0, ids.len() as int) =~= ids);
    while i < end && distractors.len() < 3
        invariant
            i <= end,
            end == ids.len(),
            end <= n,
            n == verses@.len(),
            ids == crate::exercises::verse_words::take_at_most(encoded_ids(verses@).reverse(), 5),
            fill_new_from(old(distractors)@, ids, correct_id) == fill_new_from(
                distractors@,
                ids.subrange(i as int, ids.len() as int),
                correct_id,
            ),
        decreases end - i,
    {
        let id = encode_of(&verses[n - 1 - i]);
        let ghost rest = ids.subrange(i as int, ids.len() as int);
        assert(rest[0] == id);
        assert(rest.drop_first() =~= ids.subrange(i + 1, ids.len() as int));
        if id != correct_id && !contains_id(distractors, id) {
            distractors.push(id);
        }
        i = i + 1;
    }
    assert(fill_new_from(distractors@, ids.subrange(i as int, ids.len() as int), correct_id) == distractors@);
    distractors.len() >= 3
}

/// The connection exercise: the first linked verse as the answer, then up
/// to three distractors, with the theme (by default "Graph connection").
pub fn connection_data(
    node_id: i64,
    related: &Vec<i64>,
    distractors: &Vec<i64>,
    theme: Option<String>,
) -> (r: Result<ExerciseData, ExerciseError>)
    ensures
        match r {
            Ok(ExerciseData::CrossVerseConnection { node_id: n, related_verse_ids, connection_theme }) => {
                &&& related@.len() > 0
                &&& n == node_id
                &&& related_verse_ids@ == seq![related@[0]] + crate::exercises::verse_words::take_at_most(
                    distractors@,
                    3,
                )
                &&& connection_theme@ == match theme {
                    Some(t) => t@,
                    None => "Graph connection"@,
                }
            },
            Ok(_) => false,
            Err(e) => related@.len() == 0 && e.message@
                == "Not enough related verses for connection exercise"@,
        },
{
    if related.len() == 0 {
        return Err(
            ExerciseError { message: owned("Not enough related verses for connection exercise") },
        );
    }
    let mut ids: Vec<i64> = vec![related[0]];
    let mut i: usize = 0;
    let end: usize = if distractors.len() < 3 { distractors.len() } else { 3 };
    while i < end
        invariant
            i <= end,
            end == (if distractors@.len() < 3 { distractors@.len() as int } else { 3 }),
            ids@ == seq![related@[0]] + distractors@.subrange(0, i as int),
        decreases end - i,
    {
        ids.push(distractors[i]);
        assert(distractors@.subrange(0, i + 1) =~= distractors@.subrange(0, i as int).push(distractors@[i as int]));
        i = i + 1;
    }
    assert(distractors@.subrange(0, end as int) =~= crate::exercises::verse_words::take_at_most(
        distractors@,
        3,
    ));
    let connection_theme = match theme {
        Some(t) => t,
        None => owned("Graph connection"),
    };
    Ok(ExerciseData::CrossVerseConnection { node_id, related_verse_ids: ids, connection_theme })
}

// ---------------------------------------------------------------------------
// Find the mistake, sequences, parts of speech, roots, chains
// ---------------------------------------------------------------------------

/// The index of the first word at `position`, or the error naming it.
pub fn word_index_at(words: &Vec<Word>, position: i32) -> (r: Result<usize, ExerciseError>)
    ensures
        match r {
            Ok(i) => first_at(words@, position, i as int),
            Err(e) => !has_word_at(words@, position) && e.message@ == "Word not found at position "@
                + int_str(position as int),
        },
{
    match find_word_at(words, position) {
        Some(i) => Ok(i),
        None => {
            let n = num_i64(position as i64);
            Err(ExerciseError { message: concat2("Word not found at position ", n.as_str()) })
        },
    }
}

/// The positions of the words whose text differs from `text`, in order.
pub open spec fn positions_with_other_text(words: Seq<Word>, text: Seq<char>) -> Seq<i32>
    decreases words.len(),
{
    if words.len() == 0 {
        Seq::<i32>::empty()
    } else {
        let r = positions_with_other_text(words.drop_last(), text);
        if words.last().text_uthmani@ == text {
            r
        } else {
            r.push(words.last().position)
        }
    }
}

/// The positions of the words whose text differs from `text`: the
/// candidates for the wrong word.
pub fn replacement_positions(words: &Vec<Word>, text: &str) -> (r: Vec<i32>)
    ensures
        r@ == positions_with_other_text(words@, text@),
{
    let mut r: Vec<i32> = Vec::new();
    let mut i: usize = 0;
    while i < words.len()
        invariant
            i <= words.len(),
            r@ == positions_with_other_text(words@.subrange(0, i as int), text@),
        decreases words.len() - i,
    {
        assert(words@.subrange(0, i + 1).drop_last() =~= words@.subrange(0, i as int));
        if !crate::text::str_eq(words[i].text_uthmani.as_str(), text) {
            r.push(words[i].position);
        }
        i = i + 1;
    }
    assert(words@.subrange(0, words@.len() as int) =~= words@);
    r
}

/// The chapter and verse numbers of a verse key as word keys take them:
/// each read as a small unsigned number, 1 where it does not read.
pub open spec fn small_numbers(key: Seq<char>) -> (u8, u16) {
    let p = key_parts(key);
    (
        match crate::decimal::parse_unsigned(p[0], 255) {
            Some(n) => n as u8,
            None => 1u8,
        },
        match crate::decimal::parse_unsigned(p[1], 65535) {
            Some(n) => n as u16,
            None => 1u16,
        },
    )
}

/// The chapter and verse numbers of a verse key `chapter:verse`, 1 where a
/// part does not read.
pub fn key_small_numbers(key: &str) -> (r: (u8, u16))
    requires
        key_parts(key@).len() >= 2,
    ensures
        r == small_numbers(key@),
{
    let parts = split_key(key);
    let c = crate::text::chars_of(parts[0].as_str());
    let v = crate::text::chars_of(parts[1].as_str());
    let cn = match crate::decimal::parse_u8(&c) {
        Some(n) => n,
        None => 1,
    };
    let vn = match crate::decimal::parse_u16(&v) {
        Some(n) => n,
        None => 1,
    };
    (cn, vn)
}

/// The find-the-mistake exercise: the wrong word's node chosen at random
/// among the candidates.
pub fn find_mistake_data(
    node_id: i64,
    mistake_position: i32,
    correct_word_node_id: i64,
    candidates: &Vec<i64>,
    chapter: i32,
) -> (r: Result<ExerciseData, ExerciseError>)
    ensures
        match r {
            Ok(
                ExerciseData::FindMistake {
                    node_id: n,
                    mistake_position: p,
                    correct_word_node_id: c,
                    incorrect_word_node_id: w,
                },
            ) => n == node_id && p == mistake_position && c == correct_word_node_id
                && candidates@.contains(w),
            Ok(_) => false,
            Err(e) => candidates@.len() == 0 && e.message@
                == "No suitable replacement words found in chapter "@ + int_str(chapter as int),
        },
{
    match crate::rng::choose_one(candidates) {
        Some(w) => Ok(
            ExerciseData::FindMistake {
                node_id,
                mistake_position,
                correct_word_node_id,
                incorrect_word_node_id: w,
            },
        ),
        None => {
            let n = num_i64(chapter as i64);
            Err(
                ExerciseError {
                    message: concat2("No suitable replacement words found in chapter ", n.as_str()),
                },
            )
        },
    }
}

/// What a sequence exercise orders: the verses of a chapter, or the words of
/// a verse.
#[derive(Debug, Clone, PartialEq)]
pub enum SequenceSource {
    Chapter { chapter: i32 },
    Verse { verse_key: String, chapter: i32, verse: i32 },
}

/// What a sequence exercise's key names.
pub open spec fn sequence_source_of(base: Seq<char>) -> Result<(bool, int, Seq<char>, int), Seq<char>> {
    if has_prefix(base, "CHAPTER:"@) {
        match int_parse(base.subrange(8, base.len() as int), i32::MIN as int, i32::MAX as int) {
            Ok(c) => Ok((true, c, Seq::<char>::empty(), 0)),
            Err(m) => Err(m),
        }
    } else if has_prefix(base, "VERSE:"@) {
        let k = base.subrange(6, base.len() as int);
        let p = key_parts(k);
        match (
            int_parse(p[0], i32::MIN as int, i32::MAX as int),
            int_parse(p[1], i32::MIN as int, i32::MAX as int),
        ) {
            (Err(m), _) => Err(m),
            (Ok(_), Err(m)) => Err(m),
            (Ok(c), Ok(v)) => Ok((false, c, k, v)),
        }
    } else {
        Err("Invalid node ID format for sequence exercise: "@ + base)
    }
}

/// Reads what a sequence exercise's key names. A verse key must hold a
/// colon.
pub fn sequence_source(base: &str) -> (r: Result<SequenceSource, ExerciseError>)
    requires
        has_prefix(base@, "VERSE:"@) ==> key_parts(base@.subrange(6, base@.len() as int)).len() >= 2,
    ensures
        match (r, sequence_source_of(base@)) {
            (Ok(SequenceSource::Chapter { chapter }), Ok((true, c, _, _))) => chapter as int == c,
            (Ok(SequenceSource::Verse { verse_key, chapter, verse }), Ok((false, c, k, v))) => verse_key@
                == k && chapter as int == c && verse as int == v,
            (Err(e), Err(m)) => e.message@ == m,
            _ => false,
        },
{
    match strip_prefix_str(base, "CHAPTER:") {
        Some(rest) => {
            proof {
                reveal_strlit("CHAPTER:");
            }
            let chapter = parse_part(rest.as_str())?;
            return Ok(SequenceSource::Chapter { chapter });
        },
        None => {},
    }
    match strip_prefix_str(base, "VERSE:") {
        Some(k) => {
            proof {
                reveal_strlit("VERSE:");
            }
            let parts = split_key(k.as_str());
            let chapter = parse_part(parts[0].as_str())?;
            let verse = parse_part(parts[1].as_str())?;
            Ok(SequenceSource::Verse { verse_key: k, chapter, verse })
        },
        None => Err(
            ExerciseError {
                message: concat2("Invalid node ID format for sequence exercise: ", base),
            },
        ),
    }
}

/// The sequence exercise over the IDs found: at least two verses, or at
/// least three words.
pub fn sequence_data(node_id: i64, ids: Vec<i64>, of_verses: bool) -> (r: Result<
    ExerciseData,
    ExerciseError,
>)
    ensures
        match r {
            Ok(ExerciseData::AyahSequence { node_id: n, correct_sequence }) => n == node_id
                && correct_sequence@ == ids@ && ids@.len() >= (if of_verses { 2int } else { 3int }),
            Ok(_) => false,
            Err(e) => if of_verses {
                ids@.len() < 2 && e.message@ == "Not enough verses for sequence exercise"@
            } else {
                ids@.len() < 3 && e.message@ == "Verse too short for word sequence exercise"@
            },
        },
{
    if of_verses && ids.len() < 2 {
        return Err(ExerciseError { message: owned("Not enough verses for sequence exercise") });
    }
    if !of_verses && ids.len() < 3 {
        return Err(ExerciseError { message: owned("Verse too short for word sequence exercise") });
    }
    Ok(ExerciseData::AyahSequence { node_id, correct_sequence: ids })
}

/// The options of a part-of-speech exercise before they are shuffled: the
/// right one, then the other parts of speech as far as four.
pub open spec fn pos_data_list(c: Seq<char>) -> Seq<Seq<char>> {
    crate::exercises::verse_words::take_at_most(
        seq![c] + crate::exercises::pos_tagging::other_pos(
            crate::exercises::pos_tagging::pos_candidates(),
            c,
        ),
        4,
    )
}

/// The part-of-speech exercise: the right part of speech and up to three
/// others, in an order left to chance.
pub fn pos_tagging_data(node_id: i64, correct_pos: String) -> (r: ExerciseData)
    ensures
        match r {
            ExerciseData::PosTagging { node_id: n, correct_pos: c, options } => n == node_id && c@
                == correct_pos@ && crate::text::string_views(options@).to_multiset()
                == pos_data_list(correct_pos@).to_multiset(),
            _ => false,
        },
{
    let mut options = crate::exercises::pos_tagging::PosTaggingExercise::options_before_padding(
        correct_pos.as_str(),
    );
    let ghost before = options@;
    shuffle(&mut options);
    proof {
        assert(views_of(before) =~= crate::text::string_views(before));
        assert(views_of(options@) =~= crate::text::string_views(options@));
    }
    ExerciseData::PosTagging { node_id, correct_pos, options }
}

/// The root exercise for a word whose root has been looked up.
pub fn root_id_for(segs: &Vec<crate::models::MorphologySegment>, word_id: i64) -> (r: Result<
    String,
    ExerciseError,
>)
    ensures
        match r {
            Ok(root) => crate::exercises::grammar::first_root(segs@) == Some(root@),
            Err(e) => crate::exercises::grammar::first_root(segs@) is None && e.message@
                == "No root_id found for word ID "@ + int_str(word_id as int),
        },
{
    match crate::exercises::grammar::IdentifyRootExercise::first_root_id(segs) {
        Some(r) => Ok(r),
        None => {
            let n = num_i64(word_id);
            Err(ExerciseError { message: concat2("No root_id found for word ID ", n.as_str()) })
        },
    }
}

/// The chain exercise over the keys of the verses found.
pub fn chain_data(node_id: i64, verses: &Vec<Verse>, empty_message: String) -> (r: Result<
    ExerciseData,
    ExerciseError,
>)
    ensures
        match r {
            Ok(ExerciseData::AyahChain { node_id: n, verse_keys, current_index, completed_count }) => {
                &&& verses@.len() > 0
                &&& n == node_id
                &&& crate::text::string_views(verse_keys@) == crate::exercises::verse_words::keys_of(verses@)
                &&& current_index == 0
                &&& completed_count == 0
            },
            Ok(_) => false,
            Err(e) => verses@.len() == 0 && e.message@ == empty_message@,
        },
{
    if verses.len() == 0 {
        return Err(ExerciseError { message: empty_message });
    }
    let keys = crate::exercises::verse_words::verse_keys_except_none(verses, verses.len());
    proof {
        assert(crate::exercises::verse_words::take_at_most(
            crate::exercises::verse_words::keys_of(verses@),
            verses@.len() as int,
        ) == crate::exercises::verse_words::keys_of(verses@));
    }
    Ok(ExerciseData::AyahChain { node_id, verse_keys: keys, current_index: 0, completed_count: 0 })
}

} // verus!

use vstd::prelude::*;
use crate::decimal::{format_i64, int_parse, int_str, parse_i32_text};
use crate::exercises::types::{Exercise, ExerciseError, SemanticGradeLabel, opt_view};
use crate::exercises::verse_words::{
    colon_join, colon_key, first_char_hint, join_texts, key_parts, labelled_first_char,
    mark_word, marked_verse, pick_padded, picked_from, split_key, strings_except, take_at_most,
    texts_except, texts_of, word_texts, word_texts_elsewhere, texts_elsewhere, find_word_at,
    first_at, has_word_at,
};
use crate::models::Word;
use crate::node_id::{decode_knowledge_id, spec_decode_knowledge};
use crate::normalize::{arabic_normal_form, normalize_arabic as normalize_arabic_text};
use crate::rng::{lemma_same_items, shuffle, views_of};
use crate::text::{
    char_string, chars_of, concat2, concat3, has_prefix, join, owned, starts_with_str, str_eq,
    string_of, string_views,
};

verus! {

// ---------------------------------------------------------------------------
// Shared pieces
// ---------------------------------------------------------------------------

/// The node whose text an exercise shows: the base of a knowledge node ID,
/// the ID itself otherwise.
pub open spec fn text_node_of(id: i64) -> i64 {
    match spec_decode_knowledge(id as int) {
        Some((b, _)) => b,
        None => id,
    }
}

/// The node whose text an exercise shows.
pub fn text_node_id(node_id: i64) -> (r: i64)
    ensures
        r == text_node_of(node_id),
{
    match decode_knowledge_id(node_id) {
        Some((b, _)) => b,
        None => node_id,
    }
}

/// Where a word exercise points: the verse key and the word's position, read
/// from a word key `KIND:chapter:verse:position` (more parts are ignored).
pub open spec fn word_target(base: Seq<char>) -> Result<(Seq<char>, i32), Seq<char>> {
    let p = key_parts(base);
    if p.len() < 4 {
        Err("Invalid word node ID format: "@ + base)
    } else {
        match int_parse(p[3], i32::MIN as int, i32::MAX as int) {
            Ok(n) => Ok((colon_join(p[1], p[2]), n as i32)),
            Err(_) => Err("Invalid position in word ID: "@ + base),
        }
    }
}

/// Reads the verse key and the word position from a word key.
pub fn parse_word_target(base: &str) -> (r: Result<(String, i32), ExerciseError>)
    ensures
        match (r, word_target(base@)) {
            (Ok((k, n)), Ok((k2, n2))) => k@ == k2 && n == n2,
            (Err(e), Err(m)) => e.message@ == m,
            _ => false,
        },
{
    let parts = split_key(base);
    if parts.len() < 4 {
        return Err(ExerciseError { message: concat2("Invalid word node ID format: ", base) });
    }
    match parse_i32_text(parts[3].as_str()) {
        Ok(n) => Ok((colon_key(parts[1].as_str(), parts[2].as_str()), n)),
        Err(_) => Err(ExerciseError { message: concat2("Invalid position in word ID: ", base) }),
    }
}

/// Whether the Arabic answer matches the expected text once both are
/// normalized.
pub open spec fn arabic_match(answer: Seq<char>, expected: Seq<char>) -> bool {
    arabic_normal_form(answer) == arabic_normal_form(expected)
}

fn same_arabic(answer: &str, expected: &str) -> (r: bool)
    ensures
        r == arabic_match(answer@, expected@),
{
    let a = normalize_arabic_text(answer);
    let b = normalize_arabic_text(expected);
    str_eq(a.as_str(), b.as_str())
}

/// Puts the right answer in front of the distractors and shuffles them.
pub(crate) fn shuffled_options(correct: &str, distractors: &Vec<String>) -> (r: Vec<String>)
    ensures
        string_views(r@).to_multiset() == (seq![correct@] + string_views(distractors@)).to_multiset(),
        string_views(r@).contains(correct@),
{
    let mut options: Vec<String> = Vec::new();
    options.push(owned(correct));
    let mut i: usize = 0;
    while i < distractors.len()
        invariant
            i <= distractors.len(),
            string_views(options@) == seq![correct@] + string_views(distractors@).subrange(0, i as int),
        decreases distractors.len() - i,
    {
        let ghost before = options@;
        options.push(owned(distractors[i].as_str()));
        proof {
            assert(string_views(options@) =~= string_views(before).push(distractors@[i as int]@));
            assert(string_views(distractors@).subrange(0, i + 1) =~= string_views(
                distractors@,
            ).subrange(0, i as int).push(distractors@[i as int]@));
        }
        i = i + 1;
    }
    assert(string_views(distractors@).subrange(0, distractors@.len() as int) =~= string_views(
        distractors@,
    ));
    let ghost before = options@;
    shuffle(&mut options);
    proof {
        assert(views_of(before) =~= string_views(before));
        assert(views_of(options@) =~= string_views(options@));
        assert(string_views(before)[0] == correct@);
        lemma_same_items(views_of(options@), views_of(before), correct@);
    }
    options
}

// ---------------------------------------------------------------------------
// Recall of a word
// ---------------------------------------------------------------------------

/// Recall of a word's exact Arabic text, graded by meaning.
#[derive(Debug)]
pub struct MemorizationExercise {
    pub node_id: i64,
    word_text: String,
    verse_context: Option<String>,
}

/// The key of the verse that gives a word its context: for a `WORD:` key of
/// at least three parts, `VERSE:` followed by its second and third parts.
pub open spec fn context_verse_key(ukey: Seq<char>) -> Option<Seq<char>> {
    if has_prefix(ukey, "WORD:"@) && key_parts(ukey).len() >= 3 {
        Some("VERSE:"@ + colon_join(key_parts(ukey)[1], key_parts(ukey)[2]))
    } else {
        None
    }
}

impl MemorizationExercise {
    /// The node ID of the exercise.
    pub closed spec fn node_view(&self) -> i64 {
        self.node_id
    }

    /// The word's text.
    pub closed spec fn word_view(&self) -> Seq<char> {
        self.word_text@
    }

    /// The text of the verse around the word, where it was found.
    pub closed spec fn context_view(&self) -> Option<Seq<char>> {
        opt_view(self.verse_context)
    }

    /// The key of the verse whose text gives the word its context.
    pub fn context_key(ukey: &str) -> (r: Option<String>)
        ensures
            opt_view(r) == context_verse_key(ukey@),
    {
        if !starts_with_str(ukey, "WORD:") {
            return None;
        }
        let parts = split_key(ukey);
        if parts.len() < 3 {
            return None;
        }
        let k = colon_key(parts[1].as_str(), parts[2].as_str());
        Some(concat2("VERSE:", k.as_str()))
    }

    /// The exercise for a word whose text (and, where found, the text of its
    /// verse) has been looked up.
    pub fn from_texts(node_id: i64, word_text: String, verse_context: Option<String>) -> (r: Self)
        ensures
            r.node_view() == node_id,
            r.word_view() == word_text@,
            r.context_view() == opt_view(verse_context),
    {
        MemorizationExercise { node_id, word_text, verse_context }
    }

    /// Normalizes Arabic text for comparison: drops the diacritics, folds the
    /// letter variants and collapses white space.
    pub fn normalize_arabic(text: &str) -> (r: String)
        ensures
            r@ == arabic_normal_form(text@),
    {
        normalize_arabic_text(text)
    }

    /// The word's text.
    pub fn get_word_text(&self) -> (r: &str)
        ensures
            r@ == self.word_view(),
    {
        self.word_text.as_str()
    }

    /// The node ID of the exercise.
    pub fn get_node_id(&self) -> (r: i64)
        ensures
            r == self.node_view(),
    {
        self.node_id
    }
}

/// The hint of a recall exercise: the verse around the word, else the word's
/// first character.
pub open spec fn recall_hint(context: Option<Seq<char>>, word: Seq<char>) -> Option<Seq<char>> {
    match context {
        Some(v) => Some("Verse context: "@ + v),
        None => first_char_hint("First character: "@, word),
    }
}

impl Exercise for MemorizationExercise {
    open spec fn valid(&self) -> bool {
        true
    }

    fn generate_question(&self) -> (r: String)
        ensures
            r@ == "Recall the word"@,
    {
        owned("Recall the word")
    }

    /// Only an excellent grade counts for the exact wording of the Quran.
    fn check_answer(&self, answer: &str, grade: Option<SemanticGradeLabel>) -> (r: bool)
        ensures
            r == (grade == Some(SemanticGradeLabel::Excellent)),
    {
        match grade {
            Some(SemanticGradeLabel::Excellent) => true,
            _ => false,
        }
    }

    fn get_hint(&self) -> (r: Option<String>)
        ensures
            opt_view(r) == recall_hint(self.context_view(), self.word_view()),
    {
        match &self.verse_context {
            Some(v) => Some(concat2("Verse context: ", v.as_str())),
            None => labelled_first_char("First character: ", self.word_text.as_str()),
        }
    }

    fn get_type_name(&self) -> (r: &'static str)
        ensures
            r@ == "memorization"@,
    {
        "memorization"
    }
}

// ---------------------------------------------------------------------------
// The next word of a verse, chosen among options
// ---------------------------------------------------------------------------

/// Where the distractors of a next-word question come from.
#[derive(Debug, Clone, Copy, PartialEq, Eq, Structural)]
pub enum NextWordDifficulty {
    /// Other words of the same verse.
    Easy,
    /// Words of other verses of the same chapter.
    Medium,
    /// Words that look or sound alike; for now, as `Medium`.
    Hard,
}

/// The last word of a verse, to be chosen among four options.
#[derive(Debug)]
pub struct NextWordMcqExercise {
    node_id: i64,
    verse_key: String,
    verse_prefix: String,
    correct_answer: String,
    options: Vec<String>,
    difficulty: NextWordDifficulty,
}

/// The verse key of a verse node key: the key without `VERSE:`, or the key
/// itself when it lacks that prefix.
pub open spec fn verse_key_in(base: Seq<char>) -> Seq<char> {
    if has_prefix(base, "VERSE:"@) {
        base.subrange(6, base.len() as int)
    } else {
        base
    }
}

impl NextWordMcqExercise {
    pub closed spec fn node_view(&self) -> i64 {
        self.node_id
    }

    /// The verse key, such as `1:1`.
    pub closed spec fn verse_key_view(&self) -> Seq<char> {
        self.verse_key@
    }

    /// The verse without its last word.
    pub closed spec fn prefix_view(&self) -> Seq<char> {
        self.verse_prefix@
    }

    /// The last word of the verse.
    pub closed spec fn answer_view(&self) -> Seq<char> {
        self.correct_answer@
    }

    /// The options, in the order shown.
    pub closed spec fn options_view(&self) -> Seq<Seq<char>> {
        string_views(self.options@)
    }

    pub closed spec fn difficulty_view(&self) -> NextWordDifficulty {
        self.difficulty
    }

    /// The verse key of a verse node key.
    pub fn verse_key_of(base: &str) -> (r: String)
        ensures
            r@ == verse_key_in(base@),
    {
        match crate::text::strip_prefix_str(base, "VERSE:") {
            Some(k) => {
                proof {
                    reveal_strlit("VERSE:");
                }
                k
            },
            None => owned(base),
        }
    }

    /// At most `count` texts of the verse other than the right answer, in
    /// the verse's order.
    pub fn generate_distractors_from_verse(words: &Vec<Word>, correct: &str, count: usize) -> (r:
        Vec<String>)
        ensures
            string_views(r@) == take_at_most(texts_except(texts_of(words@), correct@), count as int),
    {
        let texts = word_texts(words);
        let mut d = strings_except(&texts, correct);
        d.truncate(count);
        d
    }

    /// The distractors drawn from the words of other verses: `count` of them
    /// at random among the texts other than the right answer, placeholders
    /// where there are too few.
    pub fn generate_distractors_from_pool(pool: &Vec<String>, correct: &str, count: usize) -> (r:
        Vec<String>)
        requires
            count < i64::MAX,
        ensures
            picked_from(
                string_views(r@),
                texts_except(string_views(pool@), correct@),
                count as int,
            ),
    {
        let d = strings_except(pool, correct);
        pick_padded(d, count)
    }

    /// The exercise for a verse whose words have been looked up, with the
    /// distractors chosen for its difficulty. Fails when the verse has no
    /// words.
    pub fn from_words(
        node_id: i64,
        verse_key: String,
        words: &Vec<Word>,
        difficulty: NextWordDifficulty,
        distractors: &Vec<String>,
    ) -> (r: Result<Self, ExerciseError>)
        ensures
            match r {
                Ok(e) => {
                    &&& words@.len() > 0
                    &&& e.node_view() == node_id
                    &&& e.verse_key_view() == verse_key@
                    &&& e.answer_view() == words@.last().text_uthmani@
                    &&& e.prefix_view() == join(texts_of(words@.drop_last()), " "@)
                    &&& e.options_view().to_multiset() == (seq![e.answer_view()] + string_views(
                        distractors@,
                    )).to_multiset()
                    &&& e.options_view().contains(e.answer_view())
                    &&& e.difficulty_view() == difficulty
                },
                Err(err) => words@.len() == 0 && err.message@ == "No words found for verse: "@
                    + verse_key@,
            },
    {
        if words.len() == 0 {
            return Err(ExerciseError { message: concat2("No words found for verse: ", verse_key.as_str()) });
        }
        let correct_answer = owned(words[words.len() - 1].text_uthmani.as_str());
        let mut texts = word_texts(words);
        let ghost full = texts@;
        texts.pop();
        proof {
            assert(string_views(full).len() == words@.len());
            assert(texts@ =~= full.subrange(0, full.len() - 1));
            assert forall|j: int| 0 <= j < texts@.len() implies string_views(texts@)[j] == texts_of(
                words@.drop_last(),
            )[j] by {
                assert(string_views(full)[j] == texts_of(words@)[j]);
            }
            assert(string_views(texts@) =~= texts_of(words@.drop_last()));
        }
        let verse_prefix = join_texts(&texts, " ");
        let options = shuffled_options(correct_answer.as_str(), distractors);
        Ok(NextWordMcqExercise {
            node_id,
            verse_key,
            verse_prefix,
            correct_answer,
            options,
            difficulty,
        })
    }

    /// The options, in the order shown.
    pub fn get_options(&self) -> (r: &[String])
        ensures
            string_views(r@) == self.options_view(),
    {
        self.options.as_slice()
    }

    /// Where the distractors come from.
    pub fn get_difficulty(&self) -> (r: NextWordDifficulty)
        ensures
            r == self.difficulty_view(),
    {
        self.difficulty
    }

    /// The node ID of the exercise.
    pub fn get_node_id(&self) -> (r: i64)
        ensures
            r == self.node_view(),
    {
        self.node_id
    }
}

impl Exercise for NextWordMcqExercise {
    open spec fn valid(&self) -> bool {
        true
    }

    fn generate_question(&self) -> (r: String)
        ensures
            r@ == self.prefix_view() + " _____"@,
    {
        concat2(self.verse_prefix.as_str(), " _____")
    }

    fn check_answer(&self, answer: &str, grade: Option<SemanticGradeLabel>) -> (r: bool)
        ensures
            r == arabic_match(answer@, self.answer_view()),
    {
        same_arabic(answer, self.correct_answer.as_str())
    }

    fn get_hint(&self) -> (r: Option<String>)
        ensures
            opt_view(r) == first_char_hint("First letter: "@, self.answer_view()),
    {
        labelled_first_char("First letter: ", self.correct_answer.as_str())
    }

    fn get_type_name(&self) -> (r: &'static str)
        ensures
            r@ == "next_word_mcq"@,
    {
        "next_word_mcq"
    }
}

// ---------------------------------------------------------------------------
// A missing word inside a verse
// ---------------------------------------------------------------------------

/// Why a verse's word could not be located: no words, or none at the
/// position.
pub open spec fn word_lookup_error(words: Seq<Word>, verse_key: Seq<char>, position: i32) -> Option<
    Seq<char>,
> {
    if words.len() == 0 {
        Some("No words found for verse: "@ + verse_key)
    } else if !has_word_at(words, position) {
        Some("Word at position "@ + int_str(position as int) + " not found"@)
    } else {
        None
    }
}

/// The text of the first word at `position`.
pub open spec fn text_at(words: Seq<Word>, position: i32) -> Seq<char> {
    words[choose|i: int| first_at(words, position, i)].text_uthmani@
}

pub proof fn lemma_text_at(words: Seq<Word>, position: i32, i: int)
    requires
        first_at(words, position, i),
    ensures
        text_at(words, position) == words[i].text_uthmani@,
{
    let k = choose|k: int| first_at(words, position, k);
    assert(first_at(words, position, k));
    if k < i {
        assert(words[k].position != position);
    } else if k > i {
        assert(words[i].position != position);
    }
}

/// Locates the word at `position`, with the error message of the exercises.
fn locate_word(words: &Vec<Word>, verse_key: &str, position: i32) -> (r: Result<usize, ExerciseError>)
    ensures
        match r {
            Ok(i) => word_lookup_error(words@, verse_key@, position) is None && first_at(
                words@,
                position,
                i as int,
            ) && text_at(words@, position) == words@[i as int].text_uthmani@,
            Err(e) => word_lookup_error(words@, verse_key@, position) == Some(e.message@),
        },
{
    if words.len() == 0 {
        return Err(ExerciseError { message: concat2("No words found for verse: ", verse_key) });
    }
    match find_word_at(words, position) {
        Some(i) => {
            proof {
                lemma_text_at(words@, position, i as int);
            }
            Ok(i)
        },
        None => {
            let digits = format_i64(position as i64);
            let num = string_of(&digits);
            Err(ExerciseError { message: concat3("Word at position ", num.as_str(), " not found") })
        },
    }
}

/// A word removed from its verse, to be chosen among four options.
#[derive(Debug)]
pub struct MissingWordMcqExercise {
    node_id: i64,
    verse_with_blank: String,
    correct_answer: String,
    options: Vec<String>,
}

impl MissingWordMcqExercise {
    pub closed spec fn node_view(&self) -> i64 {
        self.node_id
    }

    /// The verse with `_____` in place of the word.
    pub closed spec fn question_view(&self) -> Seq<char> {
        self.verse_with_blank@
    }

    /// The removed word.
    pub closed spec fn answer_view(&self) -> Seq<char> {
        self.correct_answer@
    }

    /// The options, in the order shown.
    pub closed spec fn options_view(&self) -> Seq<Seq<char>> {
        string_views(self.options@)
    }

    /// The exercise for the word at `position` of a verse whose words have
    /// been looked up. The distractors are three other words of the verse at
    /// random, placeholders where it has too few.
    pub fn from_words(node_id: i64, verse_key: &str, words: &Vec<Word>, position: i32) -> (r:
        Result<Self, ExerciseError>)
        ensures
            match r {
                Ok(e) => {
                    &&& word_lookup_error(words@, verse_key@, position) is None
                    &&& e.node_view() == node_id
                    &&& e.answer_view() == text_at(words@, position)
                    &&& e.question_view() == marked_verse(words@, position, "_____"@)
                    &&& e.options_view().len() == 4
                    &&& e.options_view().contains(e.answer_view())
                    &&& exists|d: Seq<Seq<char>>|
                        picked_from(d, texts_elsewhere(words@, position), 3)
                            && e.options_view().to_multiset() == (seq![e.answer_view()]
                            + d).to_multiset()
                },
                Err(err) => word_lookup_error(words@, verse_key@, position) == Some(err.message@),
            },
    {
        let i = locate_word(words, verse_key, position)?;
        let correct_answer = owned(words[i].text_uthmani.as_str());
        let verse_with_blank = mark_word(words, position, "_____");
        let others = word_texts_elsewhere(words, position);
        let distractors = pick_padded(others, 3);
        let options = shuffled_options(correct_answer.as_str(), &distractors);
        proof {
            let d = string_views(distractors@);
            assert(picked_from(d, texts_elsewhere(words@, position), 3));
            string_views(options@).to_multiset_ensures();
            (seq![correct_answer@] + d).to_multiset_ensures();
        }
        Ok(MissingWordMcqExercise { node_id, verse_with_blank, correct_answer, options })
    }

    /// The options, in the order shown.
    pub fn get_options(&self) -> (r: &[String])
        ensures
            string_views(r@) == self.options_view(),
    {
        self.options.as_slice()
    }

    /// The node ID of the exercise.
    pub fn get_node_id(&self) -> (r: i64)
        ensures
            r == self.node_view(),
    {
        self.node_id
    }
}

impl Exercise for MissingWordMcqExercise {
    open spec fn valid(&self) -> bool {
        true
    }

    fn generate_question(&self) -> (r: String)
        ensures
            r@ == self.question_view(),
    {
        owned(self.verse_with_blank.as_str())
    }

    fn check_answer(&self, answer: &str, grade: Option<SemanticGradeLabel>) -> (r: bool)
        ensures
            r == arabic_match(answer@, self.answer_view()),
    {
        same_arabic(answer, self.correct_answer.as_str())
    }

    fn get_hint(&self) -> (r: Option<String>)
        ensures
            opt_view(r) == first_char_hint("First letter: "@, self.answer_view()),
    {
        labelled_first_char("First letter: ", self.correct_answer.as_str())
    }

    fn get_type_name(&self) -> (r: &'static str)
        ensures
            r@ == "missing_word_mcq"@,
    {
        "missing_word_mcq"
    }
}

// ---------------------------------------------------------------------------
// A missing word, typed
// ---------------------------------------------------------------------------

/// A word removed from its verse, to be typed; optionally with its letters
/// shown jumbled.
#[derive(Debug)]
pub struct ClozeDeletionExercise {
    node_id: i64,
    verse_with_blank: String,
    correct_answer: String,
    hint_letters: Option<Vec<char>>,
}

/// The hint of a typed word: its first and last letters, or its only letter.
pub open spec fn ends_hint(w: Seq<char>) -> Option<Seq<char>> {
    if w.len() >= 2 {
        Some("Starts with '"@ + seq![w[0]] + "' and ends with '"@ + seq![w.last()] + "'"@)
    } else {
        first_char_hint("First letter: "@, w)
    }
}

impl ClozeDeletionExercise {
    pub closed spec fn node_view(&self) -> i64 {
        self.node_id
    }

    /// The verse with `_____` in place of the word.
    pub closed spec fn blank_view(&self) -> Seq<char> {
        self.verse_with_blank@
    }

    /// The removed word.
    pub closed spec fn answer_view(&self) -> Seq<char> {
        self.correct_answer@
    }

    /// The jumbled letters, where they are shown.
    pub closed spec fn letters_view(&self) -> Option<Seq<char>> {
        match self.hint_letters {
            Some(v) => Some(v@),
            None => None,
        }
    }

    /// The exercise for the word at `position` of a verse whose words have
    /// been looked up; with `show_letters_hint`, the word's letters in an
    /// order left to chance.
    pub fn from_words(
        node_id: i64,
        verse_key: &str,
        words: &Vec<Word>,
        position: i32,
        show_letters_hint: bool,
    ) -> (r: Result<Self, ExerciseError>)
        ensures
            match r {
                Ok(e) => {
                    &&& word_lookup_error(words@, verse_key@, position) is None
                    &&& e.node_view() == node_id
                    &&& e.answer_view() == text_at(words@, position)
                    &&& e.blank_view() == marked_verse(words@, position, "_____"@)
                    &&& match e.letters_view() {
                        Some(l) => show_letters_hint && l.to_multiset()
                            == e.answer_view().to_multiset(),
                        None => !show_letters_hint,
                    }
                },
                Err(err) => word_lookup_error(words@, verse_key@, position) == Some(err.message@),
            },
    {
        let i = locate_word(words, verse_key, position)?;
        let correct_answer = owned(words[i].text_uthmani.as_str());
        let verse_with_blank = mark_word(words, position, "_____");
        let hint_letters = if show_letters_hint {
            let mut letters = chars_of(correct_answer.as_str());
            let ghost before = letters@;
            shuffle(&mut letters);
            proof {
                assert(views_of(before) =~= before);
                assert(views_of(letters@) =~= letters@);
            }
            Some(letters)
        } else {
            None
        };
        Ok(ClozeDeletionExercise { node_id, verse_with_blank, correct_answer, hint_letters })
    }

    /// The jumbled letters, where they are shown.
    pub fn get_hint_letters(&self) -> (r: Option<&[char]>)
        ensures
            match (r, self.letters_view()) {
                (Some(s), Some(l)) => s@ == l,
                (None, None) => true,
                _ => false,
            },
    {
        match &self.hint_letters {
            Some(v) => Some(v.as_slice()),
            None => None,
        }
    }

    /// The node ID of the exercise.
    pub fn get_node_id(&self) -> (r: i64)
        ensures
            r == self.node_view(),
    {
        self.node_id
    }
}

impl Exercise for ClozeDeletionExercise {
    open spec fn valid(&self) -> bool {
        true
    }

    fn generate_question(&self) -> (r: String)
        ensures
            r@ == match self.letters_view() {
                Some(l) => self.blank_view() + "\nAvailable letters: "@ + l,
                None => self.blank_view(),
            },
    {
        match &self.hint_letters {
            Some(letters) => {
                let l = string_of(letters);
                concat3(self.verse_with_blank.as_str(), "\nAvailable letters: ", l.as_str())
            },
            None => owned(self.verse_with_blank.as_str()),
        }
    }

    fn check_answer(&self, answer: &str, grade: Option<SemanticGradeLabel>) -> (r: bool)
        ensures
            r == arabic_match(answer@, self.answer_view()),
    {
        same_arabic(answer, self.correct_answer.as_str())
    }

    fn get_hint(&self) -> (r: Option<String>)
        ensures
            opt_view(r) == ends_hint(self.answer_view()),
    {
        let w = chars_of(self.correct_answer.as_str());
        if w.len() >= 2 {
            let first = char_string(w[0]);
            let last = char_string(w[w.len() - 1]);
            let a = concat3("Starts with '", first.as_str(), "' and ends with '");
            Some(concat3(a.as_str(), last.as_str(), "'"))
        } else {
            labelled_first_char("First letter: ", self.correct_answer.as_str())
        }
    }

    fn get_type_name(&self) -> (r: &'static str)
        ensures
            r@ == "cloze_deletion"@,
    {
        "cloze_deletion"
    }
}

// ---------------------------------------------------------------------------
// A word recalled from its first letter
// ---------------------------------------------------------------------------

/// A word to be recalled, its first letter shown in its place in the verse.
#[derive(Debug)]
pub struct FirstLetterHintExercise {
    node_id: i64,
    verse_with_hint: String,
    correct_answer: String,
    first_letter: char,
}

/// What stands in place of the word: its first letter, a tatweel and a blank.
pub open spec fn letter_blank(c: char) -> Seq<char> {
    seq![c] + "\u{0640}_____"@
}

impl FirstLetterHintExercise {
    pub closed spec fn node_view(&self) -> i64 {
        self.node_id
    }

    /// The verse with the word replaced by its first letter and a blank.
    pub closed spec fn question_view(&self) -> Seq<char> {
        self.verse_with_hint@
    }

    /// The word.
    pub closed spec fn answer_view(&self) -> Seq<char> {
        self.correct_answer@
    }

    /// The first letter of the word.
    pub closed spec fn letter_view(&self) -> char {
        self.first_letter
    }

    /// The exercise for the word at `position` of a verse whose words have
    /// been looked up. Fails also when the word's text is empty.
    pub fn from_words(node_id: i64, verse_key: &str, words: &Vec<Word>, position: i32) -> (r:
        Result<Self, ExerciseError>)
        ensures
            match r {
                Ok(e) => {
                    &&& word_lookup_error(words@, verse_key@, position) is None
                    &&& text_at(words@, position).len() > 0
                    &&& e.node_view() == node_id
                    &&& e.answer_view() == text_at(words@, position)
                    &&& e.letter_view() == e.answer_view()[0]
                    &&& e.question_view() == marked_verse(
                        words@,
                        position,
                        letter_blank(e.letter_view()),
                    )
                },
                Err(err) => match word_lookup_error(words@, verse_key@, position) {
                    Some(m) => err.message@ == m,
                    None => text_at(words@, position).len() == 0 && err.message@
                        == "Empty word text"@,
                },
            },
    {
        let i = locate_word(words, verse_key, position)?;
        let correct_answer = owned(words[i].text_uthmani.as_str());
        let first_letter = match crate::text::first_char(correct_answer.as_str()) {
            Some(c) => c,
            None => {
                return Err(ExerciseError { message: owned("Empty word text") });
            },
        };
        let c = char_string(first_letter);
        let mark = concat2(c.as_str(), "\u{0640}_____");
        let verse_with_hint = mark_word(words, position, mark.as_str());
        Ok(FirstLetterHintExercise { node_id, verse_with_hint, correct_answer, first_letter })
    }

    /// The first letter of the word.
    pub fn get_first_letter(&self) -> (r: char)
        ensures
            r == self.letter_view(),
    {
        self.first_letter
    }

    /// The node ID of the exercise.
    pub fn get_node_id(&self) -> (r: i64)
        ensures
            r == self.node_view(),
    {
        self.node_id
    }
}

impl Exercise for FirstLetterHintExercise {
    open spec fn valid(&self) -> bool {
        true
    }

    fn generate_question(&self) -> (r: String)
        ensures
            r@ == self.question_view(),
    {
        owned(self.verse_with_hint.as_str())
    }

    fn check_answer(&self, answer: &str, grade: Option<SemanticGradeLabel>) -> (r: bool)
        ensures
            r == arabic_match(answer@, self.answer_view()),
    {
        same_arabic(answer, self.correct_answer.as_str())
    }

    /// The length of the word, counted in letters once it is normalized.
    fn get_hint(&self) -> (r: Option<String>)
        ensures
            opt_view(r) == Some(
                "Word length: "@ + int_str(arabic_normal_form(self.answer_view()).len() as int)
                    + " letters"@,
            ),
    {
        let n = normalize_arabic_text(self.correct_answer.as_str());
        let v = chars_of(n.as_str());
        let digits = crate::decimal::format_u64(v.len() as u64);
        let num = string_of(&digits);
        Some(concat3("Word length: ", num.as_str(), " letters"))
    }

    fn get_type_name(&self) -> (r: &'static str)
        ensures
            r@ == "first_letter_hint"@,
    {
        "first_letter_hint"
    }
}

} // verus!

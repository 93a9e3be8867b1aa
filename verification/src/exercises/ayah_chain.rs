use vstd::prelude::*;
use crate::clock::{Timestamp, now};
use crate::decimal::{format_i64, int_parse, int_str, parse_i32_text};
use crate::exercises::memorization::arabic_match;
use crate::exercises::types::{Exercise, ExerciseError, SemanticGradeLabel, opt_view};
use crate::models::Verse;
use crate::normalize::normalize_arabic;
use crate::text::{
    chars_of, concat2, concat3, has_prefix, owned, str_eq, string_of, strip_prefix_str, ws_words,
    words_chars,
};

verus! {

// ---------------------------------------------------------------------------
// The chain as a state machine
// ---------------------------------------------------------------------------

/// One answer in a chain of `total` verses. The state is (verses done,
/// complete, broken). A finished or broken chain stays as it is; a right
/// answer moves on and completes the chain at its end; a wrong one breaks it.
pub open spec fn chain_step(total: int, s: (int, bool, bool), right: bool) -> (int, bool, bool) {
    if s.1 || s.2 {
        s
    } else if right {
        (s.0 + 1, s.0 + 1 >= total, false)
    } else {
        (s.0, false, true)
    }
}

/// The state after a series of answers.
pub open spec fn chain_run(total: int, s: (int, bool, bool), answers: Seq<bool>) -> (int, bool, bool)
    decreases answers.len(),
{
    if answers.len() == 0 {
        s
    } else {
        chain_run(total, chain_step(total, s, answers[0]), answers.drop_first())
    }
}

/// The state of a fresh chain.
pub open spec fn chain_start() -> (int, bool, bool) {
    (0, false, false)
}

proof fn lemma_all_right(total: int, done: int)
    requires
        0 <= done <= total,
        total > 0,
    ensures
        chain_run(total, (done, done >= total && done > 0, false), Seq::new((total - done) as nat, |i: int| true))
            == (total, true, false),
    decreases total - done,
{
    let rest = Seq::new((total - done) as nat, |i: int| true);
    if done < total {
        assert(rest[0]);
        assert(rest.drop_first() =~= Seq::new((total - (done + 1)) as nat, |i: int| true));
        lemma_all_right(total, done + 1);
    }
}

/// A chain of `total` verses answered right `total` times is complete, with
/// every verse done and nothing broken.
pub proof fn law_all_right_completes(total: int)
    requires
        total > 0,
    ensures
        chain_run(total, chain_start(), Seq::new(total as nat, |i: int| true)) == (total, true, false),
{
    lemma_all_right(total, 0);
}

/// From any reachable state, the number of verses done never exceeds the
/// chain's length, a complete chain has them all, and a chain is never both
/// complete and broken.
pub proof fn law_chain_bounds(total: int, s: (int, bool, bool), answers: Seq<bool>)
    requires
        total > 0,
        0 <= s.0 <= total,
        s.1 <==> s.0 == total,
        !(s.1 && s.2),
    ensures
        ({
            let t = chain_run(total, s, answers);
            &&& 0 <= t.0 <= total
            &&& t.1 <==> t.0 == total
            &&& !(t.1 && t.2)
            &&& s.0 <= t.0
        }),
    decreases answers.len(),
{
    if answers.len() > 0 {
        law_chain_bounds(total, chain_step(total, s, answers[0]), answers.drop_first());
    }
}

/// A broken or complete chain ignores every further answer.
pub proof fn law_finished_chain_is_stable(total: int, s: (int, bool, bool), answers: Seq<bool>)
    requires
        s.1 || s.2,
    ensures
        chain_run(total, s, answers) == s,
    decreases answers.len(),
{
    if answers.len() > 0 {
        law_finished_chain_is_stable(total, s, answers.drop_first());
    }
}

// ---------------------------------------------------------------------------
// The exercise
// ---------------------------------------------------------------------------

/// Where a chain broke: the verse, what was typed, what was expected, when.
#[derive(Debug, Clone)]
pub struct MistakeDetails {
    pub verse_key: String,
    pub user_input: String,
    pub expected: String,
    pub occurred_at: Timestamp,
}

/// The verses of a chapter (or of a range of it), typed one after another
/// from memory; one mistake breaks the chain.
#[derive(Debug)]
pub struct AyahChainExercise {
    node_id: i64,
    verses: Vec<Verse>,
    current_index: usize,
    completed_count: usize,
    is_complete: bool,
    mistake_made: bool,
    started_at: Timestamp,
    last_mistake: Option<MistakeDetails>,
}

/// The counts and flags of a chain, as its statistics report them.
#[derive(Debug, Clone)]
pub struct AyahChainProgress {
    pub total_verses: usize,
    pub completed_count: usize,
    pub is_complete: bool,
    pub mistake_made: bool,
    pub current_verse_key: Option<String>,
    pub started_at: Timestamp,
}

/// The verses of `verses` numbered from `start` to `end`, in order.
pub open spec fn in_range(verses: Seq<Verse>, start: i32, end: i32) -> Seq<Verse>
    decreases verses.len(),
{
    if verses.len() == 0 {
        Seq::<Verse>::empty()
    } else {
        let r = in_range(verses.drop_last(), start, end);
        let v = verses.last();
        if start <= v.verse_number <= end {
            r.push(v)
        } else {
            r
        }
    }
}

/// The chapter number of a chapter node key `CHAPTER:n`, or the error.
pub open spec fn chapter_number_of(ukey: Seq<char>) -> Result<i32, Seq<char>> {
    if !has_prefix(ukey, "CHAPTER:"@) {
        Err("Invalid chapter node ID: "@ + ukey)
    } else {
        match int_parse(ukey.subrange(8, ukey.len() as int), i32::MIN as int, i32::MAX as int) {
            Ok(n) => Ok(n as i32),
            Err(m) => Err(m),
        }
    }
}

/// The hint for a verse: its first word and its number of words.
pub open spec fn chain_hint(text: Seq<char>) -> Seq<char> {
    let w = ws_words(text);
    "Hint: First word is '"@ + (if w.len() > 0 {
        w[0]
    } else {
        Seq::<char>::empty()
    }) + "' ("@ + int_str(w.len() as int) + " words total)"@
}

impl AyahChainExercise {
    pub closed spec fn node_view(&self) -> i64 {
        self.node_id
    }

    /// The verses of the chain.
    pub closed spec fn verses_view(&self) -> Seq<Verse> {
        self.verses@
    }

    /// The index of the verse to type next.
    pub closed spec fn index_view(&self) -> int {
        self.current_index as int
    }

    /// The number of verses typed right.
    pub closed spec fn completed_view(&self) -> int {
        self.completed_count as int
    }

    /// Whether every verse was typed right.
    pub closed spec fn complete_view(&self) -> bool {
        self.is_complete
    }

    /// Whether a mistake broke the chain.
    pub closed spec fn broken_view(&self) -> bool {
        self.mistake_made
    }

    /// When the chain (last) started.
    pub closed spec fn started_view(&self) -> Timestamp {
        self.started_at
    }

    /// The mistake that broke the chain: verse key, typed text, expected text.
    pub closed spec fn mistake_view(&self) -> Option<(Seq<char>, Seq<char>, Seq<char>)> {
        match self.last_mistake {
            Some(m) => Some((m.verse_key@, m.user_input@, m.expected@)),
            None => None,
        }
    }

    /// The state of the chain as the state machine sees it.
    pub open spec fn state(&self) -> (int, bool, bool) {
        (self.completed_view(), self.complete_view(), self.broken_view())
    }

    /// The invariant of a chain: it has verses; the verses done are the
    /// index of the next; it is complete exactly when all are done; it is
    /// never complete and broken at once; a mistake is recorded exactly when
    /// it is broken.
    pub closed spec fn wf(&self) -> bool {
        &&& self.verses@.len() > 0
        &&& self.current_index == self.completed_count
        &&& self.current_index <= self.verses@.len()
        &&& self.is_complete <==> self.current_index == self.verses@.len()
        &&& !(self.is_complete && self.mistake_made)
        &&& self.last_mistake is Some <==> self.mistake_made
    }

    /// The invariant, spelled out for callers.
    pub proof fn lemma_wf(&self)
        requires
            self.wf(),
        ensures
            self.verses_view().len() > 0,
            self.index_view() == self.completed_view(),
            0 <= self.index_view() <= self.verses_view().len(),
            self.complete_view() <==> self.index_view() == self.verses_view().len(),
            !(self.complete_view() && self.broken_view()),
            self.mistake_view() is Some <==> self.broken_view(),
    {
    }

    /// The chapter number of a chapter node key.
    pub fn chapter_of(ukey: &str) -> (r: Result<i32, ExerciseError>)
        ensures
            match (r, chapter_number_of(ukey@)) {
                (Ok(n), Ok(m)) => n == m,
                (Err(e), Err(m)) => e.message@ == m,
                _ => false,
            },
    {
        match strip_prefix_str(ukey, "CHAPTER:") {
            Some(rest) => {
                proof {
                    reveal_strlit("CHAPTER:");
                }
                match parse_i32_text(rest.as_str()) {
                    Ok(n) => Ok(n),
                    Err(m) => Err(ExerciseError { message: m }),
                }
            },
            None => Err(ExerciseError { message: concat2("Invalid chapter node ID: ", ukey) }),
        }
    }

    /// A fresh chain over the verses of a chapter; refused when there are
    /// none.
    pub fn from_verses(node_id: i64, chapter: i32, verses: Vec<Verse>) -> (r: Result<
        Self,
        ExerciseError,
    >)
        ensures
            match r {
                Ok(e) => {
                    &&& e.wf()
                    &&& e.node_view() == node_id
                    &&& e.verses_view() == verses@
                    &&& e.index_view() == 0
                    &&& e.state() == chain_start()
                    &&& e.mistake_view() is None
                },
                Err(err) => verses@.len() == 0 && err.message@ == "No verses found for chapter "@
                    + int_str(chapter as int),
            },
    {
        if verses.len() == 0 {
            let c = string_of(&format_i64(chapter as i64));
            return Err(ExerciseError { message: concat2("No verses found for chapter ", c.as_str()) });
        }
        Ok(Self::start(node_id, verses))
    }

    /// The verses numbered from `start` to `end`.
    pub fn verses_in_range(verses: Vec<Verse>, start: i32, end: i32) -> (r: Vec<Verse>)
        ensures
            r@ == in_range(verses@, start, end),
    {
        let mut r: Vec<Verse> = Vec::new();
        let ghost all = verses@;
        let mut it = verses;
        // Reverse first, so that each verse can be moved out in order.
        let mut back: Vec<Verse> = Vec::new();
        while it.len() > 0
            invariant
                it@.len() + back@.len() == all.len(),
                it@ == all.subrange(0, it@.len() as int),
                forall|j: int| 0 <= j < back@.len() ==> #[trigger] back@[j] == all[all.len() - 1 - j],
            decreases it.len(),
        {
            let v = it.pop().unwrap();
            back.push(v);
            assert(it@ =~= all.subrange(0, it@.len() as int));
        }
        while back.len() > 0
            invariant
                back@.len() <= all.len(),
                forall|j: int| 0 <= j < back@.len() ==> #[trigger] back@[j] == all[all.len() - 1 - j],
                r@ == in_range(all.subrange(0, all.len() - back@.len()), start, end),
            decreases back.len(),
        {
            let ghost k: int = all.len() - back@.len();
            let v = back.pop().unwrap();
            proof {
                assert(v == all[k]);
                assert(all.subrange(0, k + 1).drop_last() =~= all.subrange(0, k as int));
                assert(all.subrange(0, k + 1).last() == all[k]);
            }
            if start <= v.verse_number && v.verse_number <= end {
                r.push(v);
            }
        }
        assert(all.subrange(0, all.len() as int) =~= all);
        r
    }

    /// A fresh chain over the verses of a range; refused when the range
    /// holds none.
    pub fn from_range(node_id: i64, chapter: i32, start_verse: i32, end_verse: i32, verses: Vec<Verse>) -> (r:
        Result<Self, ExerciseError>)
        ensures
            match r {
                Ok(e) => {
                    &&& e.wf()
                    &&& e.node_view() == node_id
                    &&& e.verses_view() == verses@
                    &&& e.state() == chain_start()
                    &&& e.mistake_view() is None
                },
                Err(err) => verses@.len() == 0 && err.message@ == "No verses found for chapter "@
                    + int_str(chapter as int) + " range "@ + int_str(start_verse as int) + ":"@
                    + int_str(end_verse as int),
            },
    {
        if verses.len() == 0 {
            let c = string_of(&format_i64(chapter as i64));
            let s = string_of(&format_i64(start_verse as i64));
            let e = string_of(&format_i64(end_verse as i64));
            let a = concat3("No verses found for chapter ", c.as_str(), " range ");
            let b = concat3(a.as_str(), s.as_str(), ":");
            return Err(ExerciseError { message: concat2(b.as_str(), e.as_str()) });
        }
        Ok(Self::start(node_id, verses))
    }

    fn start(node_id: i64, verses: Vec<Verse>) -> (r: Self)
        requires
            verses@.len() > 0,
        ensures
            r.wf(),
            r.node_view() == node_id,
            r.verses_view() == verses@,
            r.index_view() == 0,
            r.state() == chain_start(),
            r.mistake_view() is None,
    {
        AyahChainExercise {
            node_id,
            verses,
            current_index: 0,
            completed_count: 0,
            is_complete: false,
            mistake_made: false,
            started_at: now(),
            last_mistake: None,
        }
    }

    /// The verse to type next; none once the chain is complete or broken.
    pub fn current_verse(&self) -> (r: Option<&Verse>)
        requires
            self.wf(),
        ensures
            match r {
                Some(v) => !self.complete_view() && !self.broken_view() && *v
                    == self.verses_view()[self.index_view()],
                None => self.complete_view() || self.broken_view(),
            },
    {
        if self.is_complete || self.mistake_made {
            return None;
        }
        Some(&self.verses[self.current_index])
    }

    /// The key of the verse to type next.
    pub fn current_verse_ref(&self) -> (r: Option<String>)
        requires
            self.wf(),
        ensures
            match r {
                Some(k) => !self.complete_view() && !self.broken_view() && k@
                    == self.verses_view()[self.index_view()].key@,
                None => self.complete_view() || self.broken_view(),
            },
    {
        match self.current_verse() {
            Some(v) => Some(owned(v.key.as_str())),
            None => None,
        }
    }

    /// Takes the typed text of the next verse. A chain that is complete or
    /// broken refuses further answers and stays as it is. A right answer
    /// moves on (completing the chain after the last verse); a wrong one
    /// breaks the chain and records the mistake.
    pub fn submit_answer(&mut self, user_input: &str) -> (r: Result<bool, ExerciseError>)
        requires
            old(self).wf(),
        ensures
            final(self).wf(),
            final(self).node_view() == old(self).node_view(),
            final(self).verses_view() == old(self).verses_view(),
            final(self).started_view() == old(self).started_view(),
            old(self).complete_view() ==> (r matches Err(e) && e.message@ == "Exercise already complete"@
                && *final(self) == *old(self)),
            !old(self).complete_view() && old(self).broken_view() ==> (r matches Err(e) && e.message@
                == "Chain already broken by mistake"@ && *final(self) == *old(self)),
            !old(self).complete_view() && !old(self).broken_view() ==> {
                let v = old(self).verses_view()[old(self).index_view()];
                let right = arabic_match(user_input@, v.text_uthmani@);
                &&& r == Ok::<bool, ExerciseError>(right)
                &&& final(self).state() == chain_step(
                    old(self).verses_view().len() as int,
                    old(self).state(),
                    right,
                )
                &&& final(self).mistake_view() == (if right {
                    None
                } else {
                    Some((v.key@, user_input@, v.text_uthmani@))
                })
            },
    {
        if self.is_complete {
            return Err(ExerciseError { message: owned("Exercise already complete") });
        }
        if self.mistake_made {
            return Err(ExerciseError { message: owned("Chain already broken by mistake") });
        }
        let i = self.current_index;
        let n = self.verses.len();
        assert(i < n);
        let verse_key = owned(self.verses[i].key.as_str());
        let verse_text = owned(self.verses[i].text_uthmani.as_str());
        let normalized_input = normalize_arabic(user_input);
        let normalized_correct = normalize_arabic(verse_text.as_str());
        if str_eq(normalized_input.as_str(), normalized_correct.as_str()) {
            self.completed_count = self.completed_count + 1;
            self.current_index = self.current_index + 1;
            if self.current_index >= self.verses.len() {
                self.is_complete = true;
            }
            Ok(true)
        } else {
            self.mistake_made = true;
            self.last_mistake = Some(
                MistakeDetails {
                    verse_key,
                    user_input: owned(user_input),
                    expected: verse_text,
                    occurred_at: now(),
                },
            );
            Ok(false)
        }
    }

    /// The counts and flags that the chain's statistics report.
    pub fn progress(&self) -> (r: AyahChainProgress)
        requires
            self.wf(),
        ensures
            r.total_verses == self.verses_view().len(),
            r.completed_count == self.completed_view(),
            r.is_complete == self.complete_view(),
            r.mistake_made == self.broken_view(),
            r.started_at == self.started_view(),
            match r.current_verse_key {
                Some(k) => !self.complete_view() && !self.broken_view() && k@
                    == self.verses_view()[self.index_view()].key@,
                None => self.complete_view() || self.broken_view(),
            },
    {
        AyahChainProgress {
            total_verses: self.verses.len(),
            completed_count: self.completed_count,
            is_complete: self.is_complete,
            mistake_made: self.mistake_made,
            current_verse_key: self.current_verse_ref(),
            started_at: self.started_at,
        }
    }

    /// The mistake that broke the chain, if it broke.
    pub fn get_last_mistake(&self) -> (r: Option<&MistakeDetails>)
        ensures
            match (r, self.mistake_view()) {
                (Some(m), Some((k, u, x))) => m.verse_key@ == k && m.user_input@ == u && m.expected@
                    == x,
                (None, None) => true,
                _ => false,
            },
    {
        match &self.last_mistake {
            Some(m) => Some(m),
            None => None,
        }
    }

    /// Starts the chain over: nothing done, nothing broken, a new start time.
    pub fn reset(&mut self)
        requires
            old(self).wf(),
        ensures
            final(self).wf(),
            final(self).node_view() == old(self).node_view(),
            final(self).verses_view() == old(self).verses_view(),
            final(self).index_view() == 0,
            final(self).state() == chain_start(),
            final(self).mistake_view() is None,
    {
        self.current_index = 0;
        self.completed_count = 0;
        self.is_complete = false;
        self.mistake_made = false;
        self.started_at = now();
        self.last_mistake = None;
    }

    /// The node ID of the exercise.
    pub fn get_node_id(&self) -> (r: i64)
        ensures
            r == self.node_view(),
    {
        self.node_id
    }
}

/// A chain answered right from the start completes after as many right
/// answers as it has verses: `submit_answer` follows `chain_step`, and
/// `chain_run` of all-right answers ends complete.
pub proof fn law_chain_answers(e: AyahChainExercise)
    requires
        e.wf(),
        e.state() == chain_start(),
    ensures
        chain_run(e.verses_view().len() as int, e.state(), Seq::new(e.verses_view().len(), |i: int| true))
            == (e.verses_view().len() as int, true, false),
{
    e.lemma_wf();
    law_all_right_completes(e.verses_view().len() as int);
}

/// The question of a chain in a given state.
pub open spec fn chain_question(e: AyahChainExercise) -> Seq<char> {
    let n = e.verses_view().len() as int;
    if !e.complete_view() && !e.broken_view() {
        "Ayah Chain: "@ + int_str(e.completed_view() + 1) + "/"@ + int_str(n) + "\n\nType verse "@
            + e.verses_view()[e.index_view()].key@ + ":"@
    } else if e.complete_view() {
        "\u{1F389} Chain Complete! You successfully typed all "@ + int_str(n) + " verses!"@
    } else {
        "Chain broken. You completed "@ + int_str(e.completed_view()) + "/"@ + int_str(n)
            + " verses."@
    }
}

fn num(n: usize) -> (r: String)
    ensures
        r@ == int_str(n as int),
{
    string_of(&crate::decimal::format_u64(n as u64))
}

impl Exercise for AyahChainExercise {
    open spec fn valid(&self) -> bool {
        self.wf()
    }

    fn generate_question(&self) -> (r: String)
        ensures
            r@ == chain_question(*self),
    {
        let n = num(self.verses.len());
        match self.current_verse() {
            Some(v) => {
                let c = num(self.completed_count + 1);
                let a = concat3("Ayah Chain: ", c.as_str(), "/");
                let b = concat3(a.as_str(), n.as_str(), "\n\nType verse ");
                concat3(b.as_str(), v.key.as_str(), ":")
            },
            None => {
                if self.is_complete {
                    concat3(
                        "\u{1F389} Chain Complete! You successfully typed all ",
                        n.as_str(),
                        " verses!",
                    )
                } else {
                    let c = num(self.completed_count);
                    let a = concat3("Chain broken. You completed ", c.as_str(), "/");
                    concat3(a.as_str(), n.as_str(), " verses.")
                }
            },
        }
    }

    /// Right when the chain awaits a verse and the typed text matches it.
    fn check_answer(&self, answer: &str, grade: Option<SemanticGradeLabel>) -> (r: bool)
        ensures
            r == (!self.complete_view() && !self.broken_view() && arabic_match(
                answer@,
                self.verses_view()[self.index_view()].text_uthmani@,
            )),
    {
        match self.current_verse() {
            Some(v) => {
                let a = normalize_arabic(answer);
                let b = normalize_arabic(v.text_uthmani.as_str());
                str_eq(a.as_str(), b.as_str())
            },
            None => false,
        }
    }

    /// The first word and the number of words of the awaited verse.
    fn get_hint(&self) -> (r: Option<String>)
        ensures
            opt_view(r) == (if !self.complete_view() && !self.broken_view() {
                Some(chain_hint(self.verses_view()[self.index_view()].text_uthmani@))
            } else {
                None
            }),
    {
        match self.current_verse() {
            Some(v) => {
                let chars = chars_of(v.text_uthmani.as_str());
                let words = words_chars(&chars);
                let first = if words.len() > 0 {
                    string_of(&words[0])
                } else {
                    owned("")
                };
                proof {
                    reveal_strlit("");
                }
                let count = num(words.len());
                let a = concat3("Hint: First word is '", first.as_str(), "' (");
                Some(concat3(a.as_str(), count.as_str(), " words total)"))
            },
            None => None,
        }
    }

    fn get_type_name(&self) -> (r: &'static str)
        ensures
            r@ == "ayah_chain"@,
    {
        "ayah_chain"
    }
}

} // verus!

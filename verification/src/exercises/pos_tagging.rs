use vstd::prelude::*;
use crate::decimal::int_str;
use crate::exercises::types::{Exercise, SemanticGradeLabel, opt_view};
use crate::models::MorphologySegment;
use crate::normalize::{normalize_tag, str_lowercase, tag_normal_form, to_lowercase};
use crate::rng::{lemma_same_items, shuffle, views_of};
use crate::text::{concat2, concat3, join, owned, str_eq, string_of, string_views};
use crate::exercises::verse_words::{join_texts, take_at_most};

verus! {

/// Naming the part of speech of a word, chosen among four.
#[derive(Debug)]
pub struct PosTaggingExercise {
    node_id: i64,
    word_text: String,
    verse_context: String,
    correct_pos: String,
    options: Vec<String>,
}

/// The parts of speech offered besides the right one.
pub open spec fn pos_candidates() -> Seq<Seq<char>> {
    seq!["noun"@, "verb"@, "particle"@, "pronoun"@]
}

/// The parts of speech of `s` that differ from `c` in lower case.
pub open spec fn other_pos(s: Seq<Seq<char>>, c: Seq<char>) -> Seq<Seq<char>>
    decreases s.len(),
{
    if s.len() == 0 {
        Seq::<Seq<char>>::empty()
    } else {
        let r = other_pos(s.drop_last(), c);
        if str_lowercase(s.last()) != str_lowercase(c) {
            r.push(s.last())
        } else {
            r
        }
    }
}

/// `s` filled up to `n` items with `fill`.
pub open spec fn padded(s: Seq<Seq<char>>, n: int, fill: Seq<char>) -> Seq<Seq<char>>
    decreases n - s.len(),
{
    if s.len() >= n {
        s
    } else {
        padded(s.push(fill), n, fill)
    }
}

/// The options of a part-of-speech question before they are shuffled: the
/// right one, the other parts of speech as far as four, then "adjective".
pub open spec fn pos_option_list(c: Seq<char>) -> Seq<Seq<char>> {
    padded(take_at_most(seq![c] + other_pos(pos_candidates(), c), 4), 4, "adjective"@)
}

/// The first part of speech named by the segments of a word.
pub open spec fn first_pos(segs: Seq<MorphologySegment>) -> Option<Seq<char>>
    decreases segs.len(),
{
    if segs.len() == 0 {
        None
    } else {
        match segs[0].pos_tag {
            Some(t) => Some(t@),
            None => first_pos(segs.drop_first()),
        }
    }
}

/// The options listed one per line as `1. noun`.
pub open spec fn numbered(opts: Seq<Seq<char>>) -> Seq<char> {
    join(Seq::new(opts.len(), |i: int| int_str(i + 1) + ". "@ + opts[i]), "\n"@)
}

/// The hint for a part of speech, by its lower-case form.
pub open spec fn pos_hint(lower: Seq<char>) -> Seq<char> {
    if lower == "noun"@ {
        "Hint: This word is a person, place, thing, or idea."@
    } else if lower == "verb"@ {
        "Hint: This word describes an action or state."@
    } else if lower == "particle"@ {
        "Hint: This word is a function word (preposition, conjunction, etc.)."@
    } else if lower == "pronoun"@ {
        "Hint: This word replaces a noun."@
    } else {
        "Hint: Consider the grammatical function of this word."@
    }
}

proof fn lemma_take_push(x: Seq<Seq<char>>, p: Seq<char>)
    ensures
        take_at_most(x, 4).len() < 4 ==> take_at_most(x.push(p), 4) == take_at_most(x, 4).push(p),
        take_at_most(x, 4).len() >= 4 ==> take_at_most(x.push(p), 4) == take_at_most(x, 4),
{
    if take_at_most(x, 4).len() < 4 {
        assert(take_at_most(x, 4) == x);
        if x.push(p).len() > 4 {
            assert(false);
        }
    } else {
        assert(x.push(p).take(4) =~= x.take(4));
    }
}

impl PosTaggingExercise {
    pub closed spec fn node_view(&self) -> i64 {
        self.node_id
    }

    /// The word asked about.
    pub closed spec fn word_view(&self) -> Seq<char> {
        self.word_text@
    }

    /// The text of the word's verse.
    pub closed spec fn context_view(&self) -> Seq<char> {
        self.verse_context@
    }

    /// The right part of speech.
    pub closed spec fn pos_view(&self) -> Seq<char> {
        self.correct_pos@
    }

    /// The options, in the order shown.
    pub closed spec fn options_view(&self) -> Seq<Seq<char>> {
        string_views(self.options@)
    }

    /// The part of speech of the first segment of a word that names one.
    pub fn first_pos_tag(segs: &Vec<MorphologySegment>) -> (r: Option<String>)
        ensures
            opt_view(r) == first_pos(segs@),
    {
        let mut i: usize = 0;
        assert(segs@.subrange(0, segs@.len() as int) =~= segs@);
        while i < segs.len()
            invariant
                i <= segs.len(),
                first_pos(segs@) == first_pos(segs@.subrange(i as int, segs@.len() as int)),
            decreases segs.len() - i,
        {
            let ghost rest = segs@.subrange(i as int, segs@.len() as int);
            assert(rest.drop_first() =~= segs@.subrange(i + 1, segs@.len() as int));
            match &segs[i].pos_tag {
                Some(t) => {
                    return Some(owned(t.as_str()));
                },
                None => {},
            }
            i = i + 1;
        }
        assert(segs@.subrange(i as int, segs@.len() as int).len() == 0);
        None
    }

    /// The right part of speech followed by the others that differ from it
    /// in lower case, as far as four.
    pub fn options_before_padding(correct_pos: &str) -> (r: Vec<String>)
        ensures
            string_views(r@) == take_at_most(
                seq![correct_pos@] + other_pos(pos_candidates(), correct_pos@),
                4,
            ),
    {
        let all = crate::exercises::mcq::strings_of(&["noun", "verb", "particle", "pronoun"]);
        proof {
            assert(string_views(all@) =~= pos_candidates());
        }
        let lower_correct = to_lowercase(correct_pos);
        let mut options: Vec<String> = Vec::new();
        options.push(owned(correct_pos));
        let mut i: usize = 0;
        proof {
            assert(pos_candidates().take(0) =~= Seq::<Seq<char>>::empty());
            assert(seq![correct_pos@] + other_pos(pos_candidates().take(0), correct_pos@) =~= seq![
                correct_pos@,
            ]);
            assert(string_views(options@) =~= seq![correct_pos@]);
        }
        while i < all.len()
            invariant
                i <= all.len(),
                all.len() == 4,
                string_views(all@) == pos_candidates(),
                lower_correct@ == str_lowercase(correct_pos@),
                string_views(options@) == take_at_most(
                    seq![correct_pos@] + other_pos(pos_candidates().take(i as int), correct_pos@),
                    4,
                ),
            decreases all.len() - i,
        {
            let ghost x = seq![correct_pos@] + other_pos(pos_candidates().take(i as int), correct_pos@);
            let ghost p = pos_candidates()[i as int];
            proof {
                assert(pos_candidates().take(i + 1).drop_last() =~= pos_candidates().take(i as int));
                assert(pos_candidates().take(i + 1).last() == p);
                assert(all@[i as int]@ == p);
                lemma_take_push(x, p);
                assert((x.push(p)) =~= seq![correct_pos@] + other_pos(
                    pos_candidates().take(i as int),
                    correct_pos@,
                ).push(p));
            }
            let lower = to_lowercase(all[i].as_str());
            if !str_eq(lower.as_str(), lower_correct.as_str()) && options.len() < 4 {
                let ghost before = options@;
                options.push(owned(all[i].as_str()));
                assert(string_views(options@) =~= string_views(before).push(p));
            }
            i = i + 1;
        }
        assert(pos_candidates().take(4) =~= pos_candidates());
        options
    }

    /// The four options for a right part of speech, in an order left to
    /// chance.
    pub fn generate_options(correct_pos: &str) -> (r: Vec<String>)
        ensures
            string_views(r@).to_multiset() == pos_option_list(correct_pos@).to_multiset(),
            string_views(r@).contains(correct_pos@),
    {
        let mut options = Self::options_before_padding(correct_pos);
        proof {
            assert(string_views(options@)[0] == correct_pos@);
        }
        let ghost listed = string_views(options@);
        while options.len() < 4
            invariant
                padded(string_views(options@), 4, "adjective"@) == padded(listed, 4, "adjective"@),
                string_views(options@).len() > 0,
                string_views(options@)[0] == correct_pos@,
            decreases 4 - options.len(),
        {
            let ghost before = options@;
            options.push(owned("adjective"));
            assert(string_views(options@) =~= string_views(before).push("adjective"@));
        }
        assert(padded(string_views(options@), 4, "adjective"@) == string_views(options@));
        let ghost before = options@;
        shuffle(&mut options);
        proof {
            assert(views_of(before) =~= string_views(before));
            assert(views_of(options@) =~= string_views(options@));
            assert(string_views(before).contains(correct_pos@)) by {
                assert(string_views(before)[0] == correct_pos@);
            }
            lemma_same_items(views_of(options@), views_of(before), correct_pos@);
        }
        options
    }

    /// The exercise for a word whose text, verse and part of speech have
    /// been looked up.
    pub fn from_parts(node_id: i64, word_text: String, verse_context: String, correct_pos: String) -> (r:
        Self)
        ensures
            r.node_view() == node_id,
            r.word_view() == word_text@,
            r.context_view() == verse_context@,
            r.pos_view() == correct_pos@,
            r.options_view().to_multiset() == pos_option_list(correct_pos@).to_multiset(),
            r.options_view().contains(correct_pos@),
    {
        let options = Self::generate_options(correct_pos.as_str());
        PosTaggingExercise { node_id, word_text, verse_context, correct_pos, options }
    }

    /// The options, in the order shown.
    pub fn get_options(&self) -> (r: &[String])
        ensures
            string_views(r@) == self.options_view(),
    {
        self.options.as_slice()
    }

    /// The right part of speech.
    pub fn get_correct_pos(&self) -> (r: &str)
        ensures
            r@ == self.pos_view(),
    {
        self.correct_pos.as_str()
    }

    /// The node ID of the exercise.
    pub fn get_node_id(&self) -> (r: i64)
        ensures
            r == self.node_view(),
    {
        self.node_id
    }

    /// Normalizes a part of speech for comparison: trimmed and lower-cased.
    pub fn normalize_pos(pos: &str) -> (r: String)
        ensures
            r@ == tag_normal_form(pos@),
    {
        normalize_tag(pos)
    }
}

impl Exercise for PosTaggingExercise {
    open spec fn valid(&self) -> bool {
        true
    }

    fn generate_question(&self) -> (r: String)
        ensures
            r@ == "In the verse:\n\n"@ + self.context_view() + "\n\nWhat part of speech is the word \""@
                + self.word_view() + "\"?\n\nOptions:\n"@ + numbered(self.options_view()),
    {
        let ghost target = Seq::new(
            self.options_view().len(),
            |i: int| int_str(i + 1) + ". "@ + self.options_view()[i],
        );
        let mut lines: Vec<String> = Vec::new();
        let mut i: usize = 0;
        while i < self.options.len()
            invariant
                i <= self.options.len(),
                target == Seq::new(
                    self.options_view().len(),
                    |i: int| int_str(i + 1) + ". "@ + self.options_view()[i],
                ),
                string_views(lines@) == target.subrange(0, i as int),
            decreases self.options.len() - i,
        {
            let digits = crate::decimal::format_u64((i + 1) as u64);
            let num = string_of(&digits);
            let line = concat3(num.as_str(), ". ", self.options[i].as_str());
            let ghost before = lines@;
            lines.push(line);
            proof {
                assert(string_views(lines@) =~= string_views(before).push(line@));
                assert(target.subrange(0, i + 1) =~= target.subrange(0, i as int).push(target[i as int]));
            }
            i = i + 1;
        }
        assert(target.subrange(0, target.len() as int) =~= target);
        let list = join_texts(&lines, "\n");
        let a = concat3("In the verse:\n\n", self.verse_context.as_str(), "\n\nWhat part of speech is the word \"");
        let b = concat3(a.as_str(), self.word_text.as_str(), "\"?\n\nOptions:\n");
        concat2(b.as_str(), list.as_str())
    }

    fn check_answer(&self, answer: &str, grade: Option<SemanticGradeLabel>) -> (r: bool)
        ensures
            r == (tag_normal_form(answer@) == tag_normal_form(self.pos_view())),
    {
        let a = normalize_tag(answer);
        let b = normalize_tag(self.correct_pos.as_str());
        str_eq(a.as_str(), b.as_str())
    }

    /// A description of the right part of speech.
    fn get_hint(&self) -> (r: Option<String>)
        ensures
            opt_view(r) == Some(pos_hint(str_lowercase(self.pos_view()))),
    {
        let lower = to_lowercase(self.correct_pos.as_str());
        let l = lower.as_str();
        let h = if str_eq(l, "noun") {
            "Hint: This word is a person, place, thing, or idea."
        } else if str_eq(l, "verb") {
            "Hint: This word describes an action or state."
        } else if str_eq(l, "particle") {
            "Hint: This word is a function word (preposition, conjunction, etc.)."
        } else if str_eq(l, "pronoun") {
            "Hint: This word replaces a noun."
        } else {
            "Hint: Consider the grammatical function of this word."
        };
        Some(owned(h))
    }

    fn get_type_name(&self) -> (r: &'static str)
        ensures
            r@ == "pos_tagging"@,
    {
        "pos_tagging"
    }
}

} // verus!

use vstd::prelude::*;
use crate::decimal::int_str;
use crate::exercises::memorization::shuffled_options;
use crate::exercises::types::{Exercise, SemanticGradeLabel, opt_view};
use crate::exercises::verse_words::{strings_except, take_at_most, texts_except};
use crate::models::MorphologySegment;
use crate::normalize::{normalize_root_text, root_normal_form};
use crate::text::{chars_of, concat2, concat3, owned, str_eq, string_of, string_views};

verus! {

/// Finding the root of a word, chosen among four roots.
#[derive(Debug)]
pub struct IdentifyRootExercise {
    node_id: i64,
    word_text: String,
    correct_root: String,
    options: Vec<String>,
}

/// The common roots that serve as distractors.
pub open spec fn common_roots() -> Seq<Seq<char>> {
    seq![
        "\u{0643}-\u{062a}-\u{0628}"@,
        "\u{0642}-\u{0631}-\u{0627}"@,
        "\u{0639}-\u{0644}-\u{0645}"@,
        "\u{0641}-\u{0639}-\u{0644}"@,
        "\u{0642}-\u{0648}-\u{0644}"@,
        "\u{0630}-\u{0647}-\u{0628}"@,
        "\u{062c}-\u{0639}-\u{0644}"@,
        "\u{0646}-\u{0632}-\u{0644}"@,
        "\u{0627}-\u{0645}-\u{0646}"@,
        "\u{0643}-\u{0641}-\u{0631}"@,
        "\u{0631}-\u{062d}-\u{0645}"@,
        "\u{062d}-\u{0645}-\u{062f}"@,
        "\u{0633}-\u{0645}-\u{0639}"@,
        "\u{0628}-\u{0635}-\u{0631}"@,
        "\u{062e}-\u{0644}-\u{0642}"@,
        "\u{0631}-\u{0632}-\u{0642}"@,
        "\u{0634}-\u{0643}-\u{0631}"@,
        "\u{063a}-\u{0641}-\u{0631}"@,
        "\u{062a}-\u{0648}-\u{0628}"@,
        "\u{0635}-\u{0644}-\u{064a}"@,
    ]
}

/// The number of characters of `s` other than `-`.
pub open spec fn letters_without_dashes(s: Seq<char>) -> nat
    decreases s.len(),
{
    if s.len() == 0 {
        0
    } else {
        letters_without_dashes(s.drop_last()) + if s.last() == '-' {
            0nat
        } else {
            1nat
        }
    }
}

/// The first root named by the segments of a word.
pub open spec fn first_root(segs: Seq<MorphologySegment>) -> Option<Seq<char>>
    decreases segs.len(),
{
    if segs.len() == 0 {
        None
    } else {
        match segs[0].root_id {
            Some(r) => Some(r@),
            None => first_root(segs.drop_first()),
        }
    }
}

impl IdentifyRootExercise {
    pub closed spec fn node_view(&self) -> i64 {
        self.node_id
    }

    /// The word asked about.
    pub closed spec fn word_view(&self) -> Seq<char> {
        self.word_text@
    }

    /// The right root.
    pub closed spec fn root_view(&self) -> Seq<char> {
        self.correct_root@
    }

    /// The options, in the order shown.
    pub closed spec fn options_view(&self) -> Seq<Seq<char>> {
        string_views(self.options@)
    }

    /// The root ID of the first segment of a word that names one.
    pub fn first_root_id(segs: &Vec<MorphologySegment>) -> (r: Option<String>)
        ensures
            opt_view(r) == first_root(segs@),
    {
        let mut i: usize = 0;
        assert(segs@.subrange(0, segs@.len() as int) =~= segs@);
        while i < segs.len()
            invariant
                i <= segs.len(),
                first_root(segs@) == first_root(segs@.subrange(i as int, segs@.len() as int)),
            decreases segs.len() - i,
        {
            let ghost rest = segs@.subrange(i as int, segs@.len() as int);
            assert(rest.drop_first() =~= segs@.subrange(i + 1, segs@.len() as int));
            match &segs[i].root_id {
                Some(r) => {
                    return Some(owned(r.as_str()));
                },
                None => {},
            }
            i = i + 1;
        }
        assert(segs@.subrange(i as int, segs@.len() as int).len() == 0);
        None
    }

    /// The exercise for a word whose text and root have been looked up; the
    /// options are the root and three common ones, in an order left to
    /// chance.
    pub fn from_parts(node_id: i64, word_text: String, correct_root: String) -> (r: Self)
        ensures
            r.node_view() == node_id,
            r.word_view() == word_text@,
            r.root_view() == correct_root@,
            r.options_view().to_multiset() == (seq![correct_root@] + take_at_most(
                texts_except(common_roots(), correct_root@),
                3,
            )).to_multiset(),
            r.options_view().contains(correct_root@),
    {
        let distractors = Self::generate_root_distractors(correct_root.as_str(), 3);
        let options = shuffled_options(correct_root.as_str(), &distractors);
        IdentifyRootExercise { node_id, word_text, correct_root, options }
    }

    /// The options, in the order shown.
    pub fn get_options(&self) -> (r: &[String])
        ensures
            string_views(r@) == self.options_view(),
    {
        self.options.as_slice()
    }

    /// The right root.
    pub fn get_correct_root(&self) -> (r: &str)
        ensures
            r@ == self.root_view(),
    {
        self.correct_root.as_str()
    }

    /// The node ID of the exercise.
    pub fn get_node_id(&self) -> (r: i64)
        ensures
            r == self.node_view(),
    {
        self.node_id
    }

    /// At most `count` common roots, in their order, other than the right
    /// one.
    pub fn generate_root_distractors(correct: &str, count: usize) -> (r: Vec<String>)
        ensures
            string_views(r@) == take_at_most(texts_except(common_roots(), correct@), count as int),
    {
        let roots = [
            "\u{0643}-\u{062a}-\u{0628}",
            "\u{0642}-\u{0631}-\u{0627}",
            "\u{0639}-\u{0644}-\u{0645}",
            "\u{0641}-\u{0639}-\u{0644}",
            "\u{0642}-\u{0648}-\u{0644}",
            "\u{0630}-\u{0647}-\u{0628}",
            "\u{062c}-\u{0639}-\u{0644}",
            "\u{0646}-\u{0632}-\u{0644}",
            "\u{0627}-\u{0645}-\u{0646}",
            "\u{0643}-\u{0641}-\u{0631}",
            "\u{0631}-\u{062d}-\u{0645}",
            "\u{062d}-\u{0645}-\u{062f}",
            "\u{0633}-\u{0645}-\u{0639}",
            "\u{0628}-\u{0635}-\u{0631}",
            "\u{062e}-\u{0644}-\u{0642}",
            "\u{0631}-\u{0632}-\u{0642}",
            "\u{0634}-\u{0643}-\u{0631}",
            "\u{063a}-\u{0641}-\u{0631}",
            "\u{062a}-\u{0648}-\u{0628}",
            "\u{0635}-\u{0644}-\u{064a}",
        ];
        let list = crate::exercises::mcq::strings_of(&roots);
        proof {
            assert(string_views(list@) =~= common_roots());
        }
        let mut d = strings_except(&list, correct);
        d.truncate(count);
        d
    }

    /// Normalizes a root for comparison: removes dashes and spaces, then
    /// trims.
    pub fn normalize_root(root: &str) -> (r: String)
        ensures
            r@ == root_normal_form(root@),
    {
        normalize_root_text(root)
    }
}

impl Exercise for IdentifyRootExercise {
    open spec fn valid(&self) -> bool {
        true
    }

    fn generate_question(&self) -> (r: String)
        ensures
            r@ == "What is the root of '"@ + self.word_view() + "'?"@,
    {
        concat3("What is the root of '", self.word_text.as_str(), "'?")
    }

    fn check_answer(&self, answer: &str, grade: Option<SemanticGradeLabel>) -> (r: bool)
        ensures
            r == (root_normal_form(answer@) == root_normal_form(self.root_view())),
    {
        let a = normalize_root_text(answer);
        let b = normalize_root_text(self.correct_root.as_str());
        str_eq(a.as_str(), b.as_str())
    }

    /// The number of letters of the root.
    fn get_hint(&self) -> (r: Option<String>)
        ensures
            opt_view(r) == Some(int_str(letters_without_dashes(self.root_view()) as int)
                + "-letter root"@),
    {
        let v = chars_of(self.correct_root.as_str());
        let mut n: u64 = 0;
        let mut i: usize = 0;
        while i < v.len()
            invariant
                i <= v.len(),
                n == letters_without_dashes(v@.subrange(0, i as int)),
                n <= i,
            decreases v.len() - i,
        {
            assert(v@.subrange(0, i + 1).drop_last() =~= v@.subrange(0, i as int));
            if v[i] != '-' {
                n = n + 1;
            }
            i = i + 1;
        }
        assert(v@.subrange(0, v@.len() as int) =~= v@);
        let digits = crate::decimal::format_u64(n);
        let num = string_of(&digits);
        Some(concat2(num.as_str(), "-letter root"))
    }

    fn get_type_name(&self) -> (r: &'static str)
        ensures
            r@ == "identify_root"@,
    {
        "identify_root"
    }
}

} // verus!

use vstd::prelude::*;
use std::collections::HashMap;
use crate::text::{chars_of, chars_eq_str, extend_chars, string_of, split_chars, join_chars, split_on, join, views, lemma_split_nonempty};

verus! {

// ---------------------------------------------------------------------------
// Node types
// ---------------------------------------------------------------------------

/// The kind of a node of the knowledge graph.
#[derive(Debug, Clone, Copy, PartialEq, Eq, Hash, Structural)]
pub enum NodeType {
    Root,
    Lemma,
    Word,
    WordInstance,
    Verse,
    Chapter,
    Knowledge,
}

impl NodeType {
    /// The snake-case name of the node type.
    pub open spec fn spec_name(self) -> Seq<char> {
        match self {
            NodeType::Root => "root"@,
            NodeType::Lemma => "lemma"@,
            NodeType::Word => "word"@,
            NodeType::WordInstance => "word_instance"@,
            NodeType::Verse => "verse"@,
            NodeType::Chapter => "chapter"@,
            NodeType::Knowledge => "knowledge"@,
        }
    }

    /// The node type a snake-case name stands for; an unknown name reads as
    /// a word instance.
    pub open spec fn spec_from_name(s: Seq<char>) -> NodeType {
        if s == "root"@ {
            NodeType::Root
        } else if s == "lemma"@ {
            NodeType::Lemma
        } else if s == "word"@ {
            NodeType::Word
        } else if s == "word_instance"@ {
            NodeType::WordInstance
        } else if s == "verse"@ {
            NodeType::Verse
        } else if s == "chapter"@ {
            NodeType::Chapter
        } else if s == "knowledge"@ {
            NodeType::Knowledge
        } else {
            NodeType::WordInstance
        }
    }

    /// The snake-case name of the node type.
    pub fn as_str(&self) -> (r: &'static str)
        ensures
            r@ == self.spec_name(),
    {
        match self {
            NodeType::Chapter => "chapter",
            NodeType::Verse => "verse",
            NodeType::Word => "word",
            NodeType::WordInstance => "word_instance",
            NodeType::Knowledge => "knowledge",
            NodeType::Root => "root",
            NodeType::Lemma => "lemma",
        }
    }

    /// The snake-case name of the node type, as an owned string.
    pub fn name(&self) -> (r: String)
        ensures
            r@ == self.spec_name(),
    {
        let v = chars_of(self.as_str());
        string_of(&v)
    }

    /// The node type a snake-case name stands for; an unknown name reads as
    /// a word instance.
    pub fn from_name(s: &str) -> (r: NodeType)
        ensures
            r == NodeType::spec_from_name(s@),
    {
        let v = chars_of(s);
        if chars_eq_str(&v, "root") {
            NodeType::Root
        } else if chars_eq_str(&v, "lemma") {
            NodeType::Lemma
        } else if chars_eq_str(&v, "word") {
            NodeType::Word
        } else if chars_eq_str(&v, "word_instance") {
            NodeType::WordInstance
        } else if chars_eq_str(&v, "verse") {
            NodeType::Verse
        } else if chars_eq_str(&v, "chapter") {
            NodeType::Chapter
        } else if chars_eq_str(&v, "knowledge") {
            NodeType::Knowledge
        } else {
            NodeType::WordInstance
        }
    }
}

impl From<String> for NodeType {
    /// The node type a snake-case name stands for; an unknown name reads as
    /// a word instance.
    fn from(s: String) -> (r: NodeType) {
        NodeType::from_name(s.as_str())
    }
}

impl vstd::std_specs::convert::FromSpecImpl<String> for NodeType {
    open spec fn obeys_from_spec() -> bool {
        true
    }

    open spec fn from_spec(s: String) -> NodeType {
        NodeType::spec_from_name(s@)
    }
}


// ---------------------------------------------------------------------------
// Knowledge axes
// ---------------------------------------------------------------------------

/// A dimension along which the same content is learned.
#[derive(Debug, Clone, Copy, PartialEq, Eq, Hash, Structural)]
pub enum KnowledgeAxis {
    Memorization,
    Translation,
    Tafsir,
    Tajweed,
    ContextualMemorization,
    Meaning,
}

/// The snake-case name of an axis.
pub open spec fn axis_name(a: KnowledgeAxis) -> Seq<char> {
    match a {
        KnowledgeAxis::Memorization => "memorization"@,
        KnowledgeAxis::Translation => "translation"@,
        KnowledgeAxis::Tafsir => "tafsir"@,
        KnowledgeAxis::Tajweed => "tajweed"@,
        KnowledgeAxis::ContextualMemorization => "contextual_memorization"@,
        KnowledgeAxis::Meaning => "meaning"@,
    }
}

/// The axis a name stands for, if any.
pub open spec fn axis_of_name(s: Seq<char>) -> Option<KnowledgeAxis> {
    if s == "memorization"@ {
        Some(KnowledgeAxis::Memorization)
    } else if s == "translation"@ {
        Some(KnowledgeAxis::Translation)
    } else if s == "tafsir"@ {
        Some(KnowledgeAxis::Tafsir)
    } else if s == "tajweed"@ {
        Some(KnowledgeAxis::Tajweed)
    } else if s == "contextual_memorization"@ {
        Some(KnowledgeAxis::ContextualMemorization)
    } else if s == "meaning"@ {
        Some(KnowledgeAxis::Meaning)
    } else {
        None
    }
}

/// Looks an axis up by name (on a character vector).
pub fn axis_from_chars(v: &Vec<char>) -> (r: Option<KnowledgeAxis>)
    ensures
        r == axis_of_name(v@),
{
    if chars_eq_str(v, "memorization") {
        Some(KnowledgeAxis::Memorization)
    } else if chars_eq_str(v, "translation") {
        Some(KnowledgeAxis::Translation)
    } else if chars_eq_str(v, "tafsir") {
        Some(KnowledgeAxis::Tafsir)
    } else if chars_eq_str(v, "tajweed") {
        Some(KnowledgeAxis::Tajweed)
    } else if chars_eq_str(v, "contextual_memorization") {
        Some(KnowledgeAxis::ContextualMemorization)
    } else if chars_eq_str(v, "meaning") {
        Some(KnowledgeAxis::Meaning)
    } else {
        None
    }
}

impl KnowledgeAxis {
    /// Parses an axis name; the error names the unknown axis.
    pub fn parse(s: &str) -> (r: Result<KnowledgeAxis, String>)
        ensures
            axis_of_name(s@) matches Some(a) ==> r == Ok::<KnowledgeAxis, String>(a),
            axis_of_name(s@) is None ==> (r matches Err(m) && m@ == "Unknown knowledge axis: "@
                + s@),
    {
        let v = chars_of(s);
        match axis_from_chars(&v) {
            Some(a) => Ok(a),
            None => {
                let mut m = chars_of("Unknown knowledge axis: ");
                extend_chars(&mut m, &v);
                Err(string_of(&m))
            },
        }
    }

    /// The snake-case name of the axis.
    pub fn as_ref(&self) -> (r: &'static str)
        ensures
            r@ == axis_name(*self),
    {
        match self {
            KnowledgeAxis::Memorization => "memorization",
            KnowledgeAxis::Translation => "translation",
            KnowledgeAxis::Tafsir => "tafsir",
            KnowledgeAxis::Tajweed => "tajweed",
            KnowledgeAxis::ContextualMemorization => "contextual_memorization",
            KnowledgeAxis::Meaning => "meaning",
        }
    }
}

// ---------------------------------------------------------------------------
// Plain records of the content database
// ---------------------------------------------------------------------------

/// A node of the knowledge graph.
#[derive(Debug, Clone)]
pub struct Node {
    pub id: i64,
    pub ukey: String,
    pub node_type: NodeType,
}

/// The kind of an edge of the knowledge graph.
#[derive(Debug, Clone, Copy, PartialEq, Eq, Structural)]
pub enum EdgeType {
    Dependency,
    Knowledge,
}

/// How energy is spread along an edge.
#[derive(Debug, Clone, Copy, PartialEq, Eq, Structural)]
pub enum DistributionType {
    Const,
    Normal,
    Beta,
}

/// Counts of one finished session.
#[derive(Debug, Clone)]
pub struct SessionSummary {
    pub session_id: String,
    pub items_count: i32,
    pub items_completed: i32,
    pub duration_ms: i64,
    pub again_count: i32,
    pub hard_count: i32,
    pub good_count: i32,
    pub easy_count: i32,
}

/// The grade a learner gives a review.
#[derive(Debug, Clone, Copy, PartialEq, Eq, Structural)]
pub enum ReviewGrade {
    Again,
    Hard,
    Good,
    Easy,
}

impl ReviewGrade {
    /// The grade for a number 1 to 4; any other number reads as `Good`.
    pub open spec fn spec_from_u8(val: u8) -> ReviewGrade {
        if val == 1 {
            ReviewGrade::Again
        } else if val == 2 {
            ReviewGrade::Hard
        } else if val == 4 {
            ReviewGrade::Easy
        } else {
            ReviewGrade::Good
        }
    }

    /// The number of the grade (1 to 4).
    pub open spec fn spec_value(self) -> u8 {
        match self {
            ReviewGrade::Again => 1,
            ReviewGrade::Hard => 2,
            ReviewGrade::Good => 3,
            ReviewGrade::Easy => 4,
        }
    }

    /// The number of the grade (1 to 4).
    pub fn value(&self) -> (r: u8)
        ensures
            r == self.spec_value(),
    {
        match self {
            ReviewGrade::Again => 1,
            ReviewGrade::Hard => 2,
            ReviewGrade::Good => 3,
            ReviewGrade::Easy => 4,
        }
    }
}

impl From<u8> for ReviewGrade {
    fn from(val: u8) -> (r: ReviewGrade) {
        match val {
            1 => ReviewGrade::Again,
            2 => ReviewGrade::Hard,
            3 => ReviewGrade::Good,
            4 => ReviewGrade::Easy,
            _ => ReviewGrade::Good,
        }
    }
}

impl vstd::std_specs::convert::FromSpecImpl<u8> for ReviewGrade {
    open spec fn obeys_from_spec() -> bool {
        true
    }

    open spec fn from_spec(val: u8) -> ReviewGrade {
        ReviewGrade::spec_from_u8(val)
    }
}

/// A legacy exercise record.
#[derive(Debug, Clone)]
pub enum Exercise {
    Recall { node_id: i64, question: String, answer: String },
    Cloze { node_id: i64, text: String, blank_word: String },
    McqArToEn { node_id: i64, question: String, correct_answer: String, distractors: Vec<String> },
    McqEnToAr { node_id: i64, question: String, correct_answer: String, distractors: Vec<String> },
}

/// A node as read from an import file.
#[derive(Debug, Clone)]
pub struct ImportedNode {
    pub id: String,
    pub node_type: NodeType,
    pub created_at: i64,
    pub metadata: HashMap<String, String>,
}

/// Counts of one graph import.
#[derive(Debug)]
pub struct ImportStats {
    pub nodes_imported: u32,
    pub edges_imported: u32,
    pub duration_ms: u64,
}

/// A chapter (surah).
#[derive(Debug, Clone)]
pub struct Chapter {
    pub number: i32,
    pub name_arabic: String,
    pub name_transliteration: String,
    pub name_translation: String,
    pub revelation_place: Option<String>,
    pub verse_count: i32,
}

/// A verse (ayah); `key` reads "chapter:verse".
#[derive(Debug, Clone)]
pub struct Verse {
    pub key: String,
    pub chapter_number: i32,
    pub verse_number: i32,
    pub text_uthmani: String,
    pub text_simple: Option<String>,
    pub juz: i32,
    pub page: i32,
}

/// A word of a verse; `position` counts from 1.
#[derive(Debug, Clone)]
pub struct Word {
    pub id: i64,
    pub verse_key: String,
    pub position: i32,
    pub text_uthmani: String,
    pub text_simple: Option<String>,
    pub transliteration: Option<String>,
}

/// A language of the translations.
#[derive(Debug, Clone)]
pub struct Language {
    pub code: String,
    pub english_name: String,
    pub native_name: String,
    pub direction: String,
}

/// A translator of the Quran.
#[derive(Debug, Clone)]
pub struct Translator {
    pub id: i32,
    pub slug: String,
    pub full_name: String,
    pub language_code: String,
    pub description: Option<String>,
    pub license: Option<String>,
    pub package_id: Option<String>,
}

/// The hint shown for an obscured word.
#[derive(Debug, Clone, PartialEq, Eq, Structural)]
pub enum Hint {
    First { char: char },
    Last { char: char },
    Both { first: char, last: char },
}

/// The kinds of downloadable content packages.
#[derive(Debug, Clone, Copy, PartialEq, Eq, Structural)]
pub enum PackageType {
    VerseTranslation,
    WordTranslation,
    TextVariant,
    VerseRecitation,
    WordAudio,
    Transliteration,
}

/// The snake-case name of a package type.
pub open spec fn package_type_name(p: PackageType) -> Seq<char> {
    match p {
        PackageType::VerseTranslation => "verse_translation"@,
        PackageType::WordTranslation => "word_translation"@,
        PackageType::TextVariant => "text_variant"@,
        PackageType::VerseRecitation => "verse_recitation"@,
        PackageType::WordAudio => "word_audio"@,
        PackageType::Transliteration => "transliteration"@,
    }
}

/// The package type a name stands for, if any.
pub open spec fn package_type_of_name(s: Seq<char>) -> Option<PackageType> {
    if s == "verse_translation"@ {
        Some(PackageType::VerseTranslation)
    } else if s == "word_translation"@ {
        Some(PackageType::WordTranslation)
    } else if s == "text_variant"@ {
        Some(PackageType::TextVariant)
    } else if s == "verse_recitation"@ {
        Some(PackageType::VerseRecitation)
    } else if s == "word_audio"@ {
        Some(PackageType::WordAudio)
    } else if s == "transliteration"@ {
        Some(PackageType::Transliteration)
    } else {
        None
    }
}

impl PackageType {
    /// The snake-case name of the package type.
    pub fn as_str(&self) -> (r: &'static str)
        ensures
            r@ == package_type_name(*self),
    {
        match self {
            PackageType::VerseTranslation => "verse_translation",
            PackageType::WordTranslation => "word_translation",
            PackageType::TextVariant => "text_variant",
            PackageType::VerseRecitation => "verse_recitation",
            PackageType::WordAudio => "word_audio",
            PackageType::Transliteration => "transliteration",
        }
    }

    /// Parses a package type name; the error names the invalid input.
    pub fn parse(s: &str) -> (r: Result<PackageType, String>)
        ensures
            package_type_of_name(s@) matches Some(p) ==> r == Ok::<PackageType, String>(p),
            package_type_of_name(s@) is None ==> (r matches Err(m) && m@
                == "Invalid package type: "@ + s@),
    {
        let v = chars_of(s);
        if chars_eq_str(&v, "verse_translation") {
            Ok(PackageType::VerseTranslation)
        } else if chars_eq_str(&v, "word_translation") {
            Ok(PackageType::WordTranslation)
        } else if chars_eq_str(&v, "text_variant") {
            Ok(PackageType::TextVariant)
        } else if chars_eq_str(&v, "verse_recitation") {
            Ok(PackageType::VerseRecitation)
        } else if chars_eq_str(&v, "word_audio") {
            Ok(PackageType::WordAudio)
        } else if chars_eq_str(&v, "transliteration") {
            Ok(PackageType::Transliteration)
        } else {
            let mut m = chars_of("Invalid package type: ");
            extend_chars(&mut m, &v);
            Err(string_of(&m))
        }
    }
}

/// A downloadable content package.
#[derive(Debug, Clone)]
pub struct ContentPackage {
    pub package_id: String,
    pub package_type: PackageType,
    pub name: String,
    pub language_code: Option<String>,
    pub author: Option<String>,
    pub version: String,
    pub description: Option<String>,
    pub file_size: Option<i64>,
    pub download_url: Option<String>,
    pub checksum: Option<String>,
    pub license: Option<String>,
}

/// An Arabic root.
#[derive(Debug, Clone)]
pub struct Root {
    pub root_id: String,
    pub arabic: String,
    pub transliteration: Option<String>,
    pub root_type: String,
}

/// A lemma: the dictionary form of a word.
#[derive(Debug, Clone)]
pub struct Lemma {
    pub lemma_id: String,
    pub arabic: String,
    pub root_id: Option<String>,
    pub transliteration: Option<String>,
}

/// One morphological segment of a word.
#[derive(Debug, Clone)]
pub struct MorphologySegment {
    pub segment_id: i32,
    pub word_id: i64,
    pub position: i32,
    pub lemma_id: Option<String>,
    pub root_id: Option<String>,
    pub pos_tag: Option<String>,
}

// ---------------------------------------------------------------------------
// Knowledge nodes
// ---------------------------------------------------------------------------

/// A knowledge node ID taken apart: its base node ID and its axis.
#[derive(Debug, Clone)]
pub struct KnowledgeNode {
    pub base_node_id: String,
    pub axis: KnowledgeAxis,
    pub full_id: String,
}

/// The base and axis of an ID that ends with an axis name; `None` for any
/// other ID.
pub open spec fn spec_knowledge_parts(id: Seq<char>) -> Option<(Seq<char>, KnowledgeAxis)> {
    let p = split_on(id, ':');
    if p.len() < 2 {
        None
    } else {
        match axis_of_name(p.last()) {
            Some(a) => Some((join(p.drop_last(), ":"@), a)),
            None => None,
        }
    }
}

/// The base node ID of an ID: the ID without its axis suffix, if it has one.
pub open spec fn spec_base_id(id: Seq<char>) -> Seq<char> {
    match spec_knowledge_parts(id) {
        Some((b, _)) => b,
        None => id,
    }
}

impl KnowledgeNode {
    /// Parses a knowledge node ID; `None` if it does not end with an axis.
    pub fn parse(node_id: &str) -> (r: Option<KnowledgeNode>)
        ensures
            match (r, spec_knowledge_parts(node_id@)) {
                (Some(k), Some((b, a))) => k.base_node_id@ == b && k.axis == a && k.full_id@
                    == node_id@,
                (None, None) => true,
                _ => false,
            },
    {
        let v = chars_of(node_id);
        let mut parts = split_chars(&v, ':');
        if parts.len() < 2 {
            return None;
        }
        let ghost all = views(parts@);
        let last = parts.pop().unwrap();
        assert(views(parts@) =~= all.drop_last());
        match axis_from_chars(&last) {
            Some(axis) => {
                let colon = chars_of(":");
                let base = join_chars(&parts, &colon);
                Some(KnowledgeNode { base_node_id: string_of(&base), axis, full_id: string_of(&v) })
            },
            None => None,
        }
    }

    /// Builds a knowledge node from its base ID and axis.
    pub fn new(base_node_id: String, axis: KnowledgeAxis) -> (r: KnowledgeNode)
        ensures
            r.base_node_id@ == base_node_id@,
            r.axis == axis,
            r.full_id@ == base_node_id@ + ":"@ + axis_name(axis),
    {
        let mut v = chars_of(base_node_id.as_str());
        let colon = chars_of(":");
        extend_chars(&mut v, &colon);
        let a = chars_of(axis.as_ref());
        extend_chars(&mut v, &a);
        let full_id = string_of(&v);
        KnowledgeNode { base_node_id, axis, full_id }
    }
}

/// The base node ID of an ID: the ID without its axis suffix, if it has one.
pub fn base_id_of(id: &str) -> (r: String)
    ensures
        r@ == spec_base_id(id@),
{
    match KnowledgeNode::parse(id) {
        Some(k) => k.base_node_id,
        None => {
            let v = chars_of(id);
            string_of(&v)
        },
    }
}

/// Law: the name of a node type reads back as that node type.
pub proof fn law_node_type_name_roundtrip(t: NodeType)
    ensures
        NodeType::spec_from_name(t.spec_name()) == t,
{
    reveal_strlit("root");
    reveal_strlit("lemma");
    reveal_strlit("word");
    reveal_strlit("word_instance");
    reveal_strlit("verse");
    reveal_strlit("chapter");
    reveal_strlit("knowledge");
    assert("lemma"@ != "root"@ && "word"@ != "root"@ && "word"@ != "lemma"@) by {
        assert("lemma"@[0] != "root"@[0]);
        assert("word"@[0] != "root"@[0] && "word"@[0] != "lemma"@[0]);
    }
    assert("word_instance"@.len() != "root"@.len() && "word_instance"@.len() != "lemma"@.len()
        && "word_instance"@.len() != "word"@.len());
    assert("verse"@ != "root"@ && "verse"@ != "lemma"@ && "verse"@ != "word"@) by {
        assert("verse"@[0] != "root"@[0] && "verse"@[0] != "lemma"@[0]);
        assert("verse"@.len() != "word"@.len());
    }
    assert("verse"@.len() != "word_instance"@.len());
    assert("chapter"@.len() != "root"@.len() && "chapter"@.len() != "lemma"@.len()
        && "chapter"@.len() != "word"@.len() && "chapter"@.len() != "word_instance"@.len()
        && "chapter"@.len() != "verse"@.len());
    assert("knowledge"@.len() != "root"@.len() && "knowledge"@.len() != "lemma"@.len()
        && "knowledge"@.len() != "word"@.len() && "knowledge"@.len() != "word_instance"@.len()
        && "knowledge"@.len() != "verse"@.len() && "knowledge"@.len() != "chapter"@.len());
}

/// Law: the name of a package type parses back as that package type.
pub proof fn law_package_type_name_roundtrip(p: PackageType)
    ensures
        package_type_of_name(package_type_name(p)) == Some(p),
{
    reveal_strlit("verse_translation");
    reveal_strlit("word_translation");
    reveal_strlit("text_variant");
    reveal_strlit("verse_recitation");
    reveal_strlit("word_audio");
    reveal_strlit("transliteration");
    assert("word_translation"@ != "verse_translation"@) by {
        assert("word_translation"@.len() != "verse_translation"@.len());
    }
    assert("text_variant"@ != "verse_translation"@ && "text_variant"@ != "word_translation"@) by {
        assert("text_variant"@.len() != "verse_translation"@.len());
        assert("text_variant"@.len() != "word_translation"@.len());
    }
    assert("verse_recitation"@ != "verse_translation"@) by {
        assert("verse_recitation"@.len() != "verse_translation"@.len());
    }
    assert("verse_recitation"@ != "word_translation"@) by {
        assert("verse_recitation"@[0] != "word_translation"@[0]);
    }
    assert("verse_recitation"@ != "text_variant"@) by {
        assert("verse_recitation"@.len() != "text_variant"@.len());
    }
    assert("word_audio"@.len() != "verse_translation"@.len() && "word_audio"@.len()
        != "word_translation"@.len() && "word_audio"@.len() != "text_variant"@.len()
        && "word_audio"@.len() != "verse_recitation"@.len());
    assert("transliteration"@ != "verse_translation"@ && "transliteration"@ != "word_translation"@
        && "transliteration"@ != "verse_recitation"@ && "transliteration"@ != "word_audio"@) by {
        assert("transliteration"@[0] != "verse_translation"@[0]);
        assert("transliteration"@[0] != "word_translation"@[0]);
        assert("transliteration"@[0] != "verse_recitation"@[0]);
        assert("transliteration"@[0] != "word_audio"@[0]);
    }
    assert("transliteration"@ != "text_variant"@) by {
        assert("transliteration"@.len() != "text_variant"@.len());
    }
}

/// Law: a grade's number reads back as that grade.
pub proof fn law_review_grade_roundtrip(g: ReviewGrade)
    ensures
        ReviewGrade::spec_from_u8(g.spec_value()) == g,
{
}

} // verus!

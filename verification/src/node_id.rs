use vstd::prelude::*;
use crate::decimal::{dec, int_str, parse_unsigned, parse_signed, format_u64, format_i64, parse_u8, parse_u16, parse_i64};
use crate::errors::{NodeIdError, NodeIdFault, rview};
use crate::models::{KnowledgeAxis, NodeType, axis_name, axis_of_name, axis_from_chars};
use crate::text::{chars_of, string_of, extend_chars, chars_eq_str, split_chars, join_chars, split_on, join, views, lemma_split_nonempty, lemma_join_split, lemma_join_drop_last_len};

verus! {

// ===========================================================================
// The string form ("unique key") of node IDs
// ===========================================================================

/// "CHAPTER:<n>"
pub open spec fn chapter_key(num: int) -> Seq<char> {
    "CHAPTER:"@ + dec(num as nat)
}

/// "VERSE:<chapter>:<verse>"
pub open spec fn verse_key(chapter: int, verse: int) -> Seq<char> {
    "VERSE:"@ + dec(chapter as nat) + ":"@ + dec(verse as nat)
}

/// "WORD:<id>"
pub open spec fn word_key(word_id: int) -> Seq<char> {
    "WORD:"@ + int_str(word_id)
}

/// "WORD_INSTANCE:<chapter>:<verse>:<position>"
pub open spec fn word_instance_key(chapter: int, verse: int, position: int) -> Seq<char> {
    "WORD_INSTANCE:"@ + dec(chapter as nat) + ":"@ + dec(verse as nat) + ":"@ + dec(
        position as nat,
    )
}

/// "<base>:<axis>"
pub open spec fn knowledge_key(base: Seq<char>, axis: KnowledgeAxis) -> Seq<char> {
    base + ":"@ + axis_name(axis)
}

/// The colon-separated parts of a node ID.
pub open spec fn id_parts(id: Seq<char>) -> Seq<Seq<char>> {
    split_on(id, ':')
}

/// Whether a chapter number lies in 1 ..= 114.
pub open spec fn valid_chapter(n: int) -> bool {
    1 <= n <= 114
}

/// Builds a chapter node ID: "CHAPTER:1".
pub fn chapter(num: u8) -> (r: String)
    requires
        valid_chapter(num as int),
    ensures
        r@ == chapter_key(num as int),
{
    let mut v = chars_of("CHAPTER:");
    let d = format_u64(num as u64);
    extend_chars(&mut v, &d);
    string_of(&v)
}

/// Builds a verse node ID: "VERSE:1:1".
pub fn verse(chapter: u8, verse_num: u16) -> (r: String)
    requires
        valid_chapter(chapter as int),
        verse_num >= 1,
    ensures
        r@ == verse_key(chapter as int, verse_num as int),
{
    let mut v = chars_of("VERSE:");
    let c = format_u64(chapter as u64);
    extend_chars(&mut v, &c);
    let colon = chars_of(":");
    extend_chars(&mut v, &colon);
    let n = format_u64(verse_num as u64);
    extend_chars(&mut v, &n);
    string_of(&v)
}

/// Builds a word node ID: "WORD:123".
pub fn word(word_id: i64) -> (r: String)
    requires
        word_id > 0,
    ensures
        r@ == word_key(word_id as int),
{
    let mut v = chars_of("WORD:");
    let n = format_i64(word_id);
    extend_chars(&mut v, &n);
    string_of(&v)
}

/// Builds a word instance node ID: "WORD_INSTANCE:1:1:3".
pub fn word_instance(chapter: u8, verse: u16, position: u8) -> (r: String)
    requires
        valid_chapter(chapter as int),
        verse >= 1,
        position >= 1,
    ensures
        r@ == word_instance_key(chapter as int, verse as int, position as int),
{
    let mut v = chars_of("WORD_INSTANCE:");
    let colon = chars_of(":");
    let c = format_u64(chapter as u64);
    extend_chars(&mut v, &c);
    extend_chars(&mut v, &colon);
    let n = format_u64(verse as u64);
    extend_chars(&mut v, &n);
    extend_chars(&mut v, &colon);
    let p = format_u64(position as u64);
    extend_chars(&mut v, &p);
    string_of(&v)
}

/// Builds a knowledge node ID: "VERSE:1:1:memorization".
pub fn knowledge(base_id: &str, axis: KnowledgeAxis) -> (r: String)
    ensures
        r@ == knowledge_key(base_id@, axis),
{
    let mut v = chars_of(base_id);
    let colon = chars_of(":");
    extend_chars(&mut v, &colon);
    let a = chars_of(axis.as_ref());
    extend_chars(&mut v, &a);
    string_of(&v)
}

// ===========================================================================
// Parsing node IDs
// ===========================================================================

/// What `parse_chapter` gives for an ID.
pub open spec fn spec_parse_chapter(id: Seq<char>) -> Result<u8, NodeIdFault> {
    let p = id_parts(id);
    if p.len() != 2 || p[0] != "CHAPTER"@ {
        Err(NodeIdFault::InvalidFormat(id))
    } else {
        match parse_unsigned(p[1], 255) {
            None => Err(NodeIdFault::Malformed(id)),
            Some(n) => if valid_chapter(n) {
                Ok(n as u8)
            } else {
                Err(NodeIdFault::InvalidChapter(n as u8))
            },
        }
    }
}

/// What `parse_verse` gives for an ID.
pub open spec fn spec_parse_verse(id: Seq<char>) -> Result<(u8, u16), NodeIdFault> {
    let p = id_parts(id);
    if p.len() != 3 || p[0] != "VERSE"@ {
        Err(NodeIdFault::InvalidFormat(id))
    } else {
        match (parse_unsigned(p[1], 255), parse_unsigned(p[2], 65535)) {
            (None, _) => Err(NodeIdFault::Malformed(id)),
            (Some(_), None) => Err(NodeIdFault::Malformed(id)),
            (Some(c), Some(v)) => if !valid_chapter(c) {
                Err(NodeIdFault::InvalidChapter(c as u8))
            } else if v < 1 {
                Err(NodeIdFault::InvalidVerse(v as u16))
            } else {
                Ok((c as u8, v as u16))
            },
        }
    }
}

/// What `parse_word` gives for an ID.
pub open spec fn spec_parse_word(id: Seq<char>) -> Result<i64, NodeIdFault> {
    let p = id_parts(id);
    if p.len() != 2 || p[0] != "WORD"@ {
        Err(NodeIdFault::InvalidFormat(id))
    } else {
        match parse_signed(p[1], i64::MIN as int, i64::MAX as int) {
            None => Err(NodeIdFault::Malformed(id)),
            Some(w) => Ok(w as i64),
        }
    }
}

/// What `parse_word_instance` gives for an ID.
pub open spec fn spec_parse_word_instance(id: Seq<char>) -> Result<(u8, u16, u8), NodeIdFault> {
    let p = id_parts(id);
    if p.len() != 4 || p[0] != "WORD_INSTANCE"@ {
        Err(NodeIdFault::InvalidFormat(id))
    } else {
        match (parse_unsigned(p[1], 255), parse_unsigned(p[2], 65535), parse_unsigned(p[3], 255)) {
            (Some(c), Some(v), Some(pos)) => if !valid_chapter(c) {
                Err(NodeIdFault::InvalidChapter(c as u8))
            } else {
                Ok((c as u8, v as u16, pos as u8))
            },
            _ => Err(NodeIdFault::Malformed(id)),
        }
    }
}

/// What `parse_knowledge` gives for an ID.
pub open spec fn spec_parse_knowledge(id: Seq<char>) -> Result<(Seq<char>, KnowledgeAxis), NodeIdFault> {
    let p = id_parts(id);
    if p.len() < 3 {
        Err(NodeIdFault::InvalidFormat(id))
    } else {
        match axis_of_name(p.last()) {
            None => Err(NodeIdFault::InvalidAxis(p.last())),
            Some(a) => Ok((join(p.drop_last(), ":"@), a)),
        }
    }
}

/// What `node_type` gives for an ID.
pub open spec fn spec_node_type(id: Seq<char>) -> Result<NodeType, NodeIdFault> {
    let p = id_parts(id);
    if axis_of_name(p.last()).is_some() {
        Ok(NodeType::Knowledge)
    } else if p[0] == "CHAPTER"@ {
        Ok(NodeType::Chapter)
    } else if p[0] == "VERSE"@ {
        Ok(NodeType::Verse)
    } else if p[0] == "WORD"@ {
        Ok(NodeType::Word)
    } else if p[0] == "WORD_INSTANCE"@ {
        Ok(NodeType::WordInstance)
    } else {
        Err(NodeIdFault::InvalidPrefix(p[0]))
    }
}

/// The error `InvalidFormat` for the whole ID.
fn invalid_format(v: &Vec<char>) -> (e: NodeIdError)
    ensures
        e@ == NodeIdFault::InvalidFormat(v@),
{
    NodeIdError::InvalidFormat(string_of(v))
}

/// The error `Malformed` for the whole ID.
fn malformed(v: &Vec<char>) -> (e: NodeIdError)
    ensures
        e@ == NodeIdFault::Malformed(v@),
{
    NodeIdError::Malformed(string_of(v))
}

/// `parse_chapter` on characters.
fn parse_chapter_chars(v: &Vec<char>) -> (r: Result<u8, NodeIdError>)
    ensures
        rview(r) == spec_parse_chapter(v@),
{
    let parts = split_chars(v, ':');
    if parts.len() != 2 || !chars_eq_str(&parts[0], "CHAPTER") {
        return Err(invalid_format(v));
    }
    let num = match parse_u8(&parts[1]) {
        Some(n) => n,
        None => {
            return Err(malformed(v));
        },
    };
    if num < 1 || num > 114 {
        return Err(NodeIdError::InvalidChapter(num));
    }
    Ok(num)
}

/// Parses a chapter ID: "CHAPTER:1" gives 1.
pub fn parse_chapter(id: &str) -> (r: Result<u8, NodeIdError>)
    ensures
        rview(r) == spec_parse_chapter(id@),
{
    let v = chars_of(id);
    parse_chapter_chars(&v)
}

/// `parse_verse` on characters.
fn parse_verse_chars(v: &Vec<char>) -> (r: Result<(u8, u16), NodeIdError>)
    ensures
        rview(r) == spec_parse_verse(v@),
{
    let parts = split_chars(v, ':');
    if parts.len() != 3 || !chars_eq_str(&parts[0], "VERSE") {
        return Err(invalid_format(v));
    }
    let chapter = match parse_u8(&parts[1]) {
        Some(n) => n,
        None => {
            return Err(malformed(v));
        },
    };
    let verse = match parse_u16(&parts[2]) {
        Some(n) => n,
        None => {
            return Err(malformed(v));
        },
    };
    if chapter < 1 || chapter > 114 {
        return Err(NodeIdError::InvalidChapter(chapter));
    }
    if verse < 1 {
        return Err(NodeIdError::InvalidVerse(verse));
    }
    Ok((chapter, verse))
}

/// Parses a verse ID: "VERSE:1:1" gives (1, 1).
pub fn parse_verse(id: &str) -> (r: Result<(u8, u16), NodeIdError>)
    ensures
        rview(r) == spec_parse_verse(id@),
{
    let v = chars_of(id);
    parse_verse_chars(&v)
}

/// `parse_word` on characters.
fn parse_word_chars(v: &Vec<char>) -> (r: Result<i64, NodeIdError>)
    ensures
        rview(r) == spec_parse_word(v@),
{
    let parts = split_chars(v, ':');
    if parts.len() != 2 || !chars_eq_str(&parts[0], "WORD") {
        return Err(invalid_format(v));
    }
    match parse_i64(&parts[1]) {
        Some(w) => Ok(w),
        None => Err(malformed(v)),
    }
}

/// Parses a word ID: "WORD:123" gives 123.
pub fn parse_word(id: &str) -> (r: Result<i64, NodeIdError>)
    ensures
        rview(r) == spec_parse_word(id@),
{
    let v = chars_of(id);
    parse_word_chars(&v)
}

/// `parse_word_instance` on characters.
fn parse_word_instance_chars(v: &Vec<char>) -> (r: Result<(u8, u16, u8), NodeIdError>)
    ensures
        rview(r) == spec_parse_word_instance(v@),
{
    let parts = split_chars(v, ':');
    if parts.len() != 4 || !chars_eq_str(&parts[0], "WORD_INSTANCE") {
        return Err(invalid_format(v));
    }
    let chapter = match parse_u8(&parts[1]) {
        Some(n) => n,
        None => {
            return Err(malformed(v));
        },
    };
    let verse = match parse_u16(&parts[2]) {
        Some(n) => n,
        None => {
            return Err(malformed(v));
        },
    };
    let position = match parse_u8(&parts[3]) {
        Some(n) => n,
        None => {
            return Err(malformed(v));
        },
    };
    if chapter < 1 || chapter > 114 {
        return Err(NodeIdError::InvalidChapter(chapter));
    }
    Ok((chapter, verse, position))
}

/// Parses a word instance ID: "WORD_INSTANCE:1:1:3" gives (1, 1, 3).
pub fn parse_word_instance(id: &str) -> (r: Result<(u8, u16, u8), NodeIdError>)
    ensures
        rview(r) == spec_parse_word_instance(id@),
{
    let v = chars_of(id);
    parse_word_instance_chars(&v)
}

/// `parse_knowledge` on characters.
fn parse_knowledge_chars(v: &Vec<char>) -> (r: Result<(Vec<char>, KnowledgeAxis), NodeIdError>)
    ensures
        match (r, spec_parse_knowledge(v@)) {
            (Ok((b, a)), Ok((sb, sa))) => b@ == sb && a == sa,
            (Err(e), Err(f)) => e@ == f,
            _ => false,
        },
{
    let mut parts = split_chars(v, ':');
    if parts.len() < 3 {
        return Err(invalid_format(v));
    }
    let ghost all = views(parts@);
    let last = parts.pop().unwrap();
    assert(views(parts@) =~= all.drop_last());
    let axis = match axis_from_chars(&last) {
        Some(a) => a,
        None => {
            return Err(NodeIdError::InvalidAxis(string_of(&last)));
        },
    };
    let colon = chars_of(":");
    let base = join_chars(&parts, &colon);
    Ok((base, axis))
}

/// Parses a knowledge node ID into its base ID and axis:
/// "VERSE:1:1:memorization" gives ("VERSE:1:1", Memorization).
pub fn parse_knowledge(id: &str) -> (r: Result<(String, KnowledgeAxis), NodeIdError>)
    ensures
        match (r, spec_parse_knowledge(id@)) {
            (Ok((b, a)), Ok((sb, sa))) => b@ == sb && a == sa,
            (Err(e), Err(f)) => e@ == f,
            _ => false,
        },
{
    let v = chars_of(id);
    match parse_knowledge_chars(&v) {
        Ok((b, a)) => Ok((string_of(&b), a)),
        Err(e) => Err(e),
    }
}

/// `node_type` on characters.
fn node_type_chars(v: &Vec<char>) -> (r: Result<NodeType, NodeIdError>)
    ensures
        rview(r) == spec_node_type(v@),
{
    let parts = split_chars(v, ':');
    proof {
        lemma_split_nonempty(v@, ':');
    }
    let n = parts.len();
    if axis_from_chars(&parts[n - 1]).is_some() {
        return Ok(NodeType::Knowledge);
    }
    if chars_eq_str(&parts[0], "CHAPTER") {
        Ok(NodeType::Chapter)
    } else if chars_eq_str(&parts[0], "VERSE") {
        Ok(NodeType::Verse)
    } else if chars_eq_str(&parts[0], "WORD") {
        Ok(NodeType::Word)
    } else if chars_eq_str(&parts[0], "WORD_INSTANCE") {
        Ok(NodeType::WordInstance)
    } else {
        Err(NodeIdError::InvalidPrefix(string_of(&parts[0])))
    }
}

/// Detects the node type of an ID: a knowledge node when it ends with an
/// axis name, else by its prefix.
pub fn node_type(id: &str) -> (r: Result<NodeType, NodeIdError>)
    ensures
        rview(r) == spec_node_type(id@),
{
    let v = chars_of(id);
    node_type_chars(&v)
}

// ===========================================================================
// The integer form of node IDs
// ===========================================================================
//
// Bits 56-63 hold the node type (1 chapter, 2 verse, 3 word, 4 word
// instance, 5 knowledge); the lower bits hold the payload.

/// 2^56: the unit of the type field.
pub open spec fn type_unit() -> int {
    0x0100000000000000
}

/// The type field of an ID (-1 for a negative ID, whose top byte reads
/// negative).
pub open spec fn type_tag(id: int) -> int {
    if id < 0 {
        -1
    } else {
        id / type_unit()
    }
}

/// The number a knowledge axis is stored as.
pub open spec fn axis_id(a: KnowledgeAxis) -> int {
    match a {
        KnowledgeAxis::Memorization => 1,
        KnowledgeAxis::Translation => 2,
        KnowledgeAxis::Tafsir => 3,
        KnowledgeAxis::Tajweed => 4,
        KnowledgeAxis::ContextualMemorization => 5,
        KnowledgeAxis::Meaning => 6,
    }
}

/// The knowledge axis stored as `n`, if any.
pub open spec fn axis_of_id(n: int) -> Option<KnowledgeAxis> {
    if n == 1 {
        Some(KnowledgeAxis::Memorization)
    } else if n == 2 {
        Some(KnowledgeAxis::Translation)
    } else if n == 3 {
        Some(KnowledgeAxis::Tafsir)
    } else if n == 4 {
        Some(KnowledgeAxis::Tajweed)
    } else if n == 5 {
        Some(KnowledgeAxis::ContextualMemorization)
    } else if n == 6 {
        Some(KnowledgeAxis::Meaning)
    } else {
        None
    }
}

pub open spec fn spec_encode_chapter(num: int) -> int {
    type_unit() + num
}

pub open spec fn spec_encode_verse(chapter: int, verse: int) -> int {
    2 * type_unit() + chapter * 0x10000 + verse
}

pub open spec fn spec_encode_word(word_id: i64) -> i64 {
    0x0300000000000000i64 | word_id
}

pub open spec fn spec_encode_word_instance(chapter: int, verse: int, position: int) -> int {
    4 * type_unit() + chapter * 0x100000000 + verse * 0x10000 + position
}

/// Knowledge layout: type 5 in bits 56-63, the base's type in bits 52-55,
/// the axis in bits 48-51 and the base's low 48 bits below.
pub open spec fn spec_encode_knowledge(base_id: int, axis: KnowledgeAxis) -> int {
    5 * type_unit() + (base_id / type_unit()) * 0x10000000000000 + axis_id(axis)
        * 0x1000000000000 + base_id % 0x1000000000000
}

pub open spec fn spec_decode_type(id: int) -> Option<NodeType> {
    let t = type_tag(id);
    if t == 1 {
        Some(NodeType::Chapter)
    } else if t == 2 {
        Some(NodeType::Verse)
    } else if t == 3 {
        Some(NodeType::Word)
    } else if t == 4 {
        Some(NodeType::WordInstance)
    } else if t == 5 {
        Some(NodeType::Knowledge)
    } else {
        None
    }
}

pub open spec fn spec_decode_chapter(id: int) -> Option<u8> {
    if type_tag(id) == 1 {
        Some((id % 0x100) as u8)
    } else {
        None
    }
}

pub open spec fn spec_decode_verse(id: int) -> Option<(u8, u16)> {
    if type_tag(id) == 2 {
        Some((((id / 0x10000) % 0x100) as u8, (id % 0x10000) as u16))
    } else {
        None
    }
}

pub open spec fn spec_decode_word(id: int) -> Option<i64> {
    if type_tag(id) == 3 {
        Some((id % type_unit()) as i64)
    } else {
        None
    }
}

pub open spec fn spec_decode_word_instance(id: int) -> Option<(u8, u16, u8)> {
    if type_tag(id) == 4 {
        Some(
            (
                ((id / 0x100000000) % 0x100) as u8,
                ((id / 0x10000) % 0x10000) as u16,
                (id % 0x100) as u8,
            ),
        )
    } else {
        None
    }
}

pub open spec fn spec_decode_knowledge(id: int) -> Option<(i64, KnowledgeAxis)> {
    if type_tag(id) == 5 {
        match axis_of_id((id / 0x1000000000000) % 0x10) {
            Some(a) => Some(
                (
                    (((id / 0x10000000000000) % 0x10) * type_unit() + id % 0x1000000000000) as i64,
                    a,
                ),
            ),
            None => None,
        }
    } else {
        None
    }
}

/// Encodes a chapter node ID.
pub fn encode_chapter(num: u8) -> (r: i64)
    ensures
        r == spec_encode_chapter(num as int),
{
    let x = num as i64;
    assert(0 <= x < 256 ==> ((1i64 << 56i64) | x) == 0x0100000000000000i64 + x) by (bit_vector);
    (1i64 << 56i64) | x
}

/// Encodes a verse node ID.
pub fn encode_verse(chapter: u8, verse_num: u16) -> (r: i64)
    ensures
        r == spec_encode_verse(chapter as int, verse_num as int),
{
    let c = chapter as i64;
    let v = verse_num as i64;
    assert(0 <= c < 256 && 0 <= v < 65536 ==> ((2i64 << 56i64) | (c << 16i64) | v)
        == 0x0200000000000000i64 + c * 0x10000i64 + v) by (bit_vector);
    (2i64 << 56i64) | (c << 16i64) | v
}

/// Encodes a word node ID.
pub fn encode_word(word_id: i64) -> (r: i64)
    ensures
        r == spec_encode_word(word_id),
        0 <= word_id < type_unit() ==> r == 3 * type_unit() + word_id,
{
    assert(0 <= word_id < 0x0100000000000000i64 ==> (0x0300000000000000i64 | word_id)
        == 0x0300000000000000i64 + word_id) by (bit_vector);
    assert((3i64 << 56i64) == 0x0300000000000000i64) by (bit_vector);
    (3i64 << 56i64) | word_id
}

/// Encodes a word instance node ID.
pub fn encode_word_instance(chapter: u8, verse_num: u16, position: u8) -> (r: i64)
    ensures
        r == spec_encode_word_instance(chapter as int, verse_num as int, position as int),
{
    let c = chapter as i64;
    let v = verse_num as i64;
    let p = position as i64;
    assert(0 <= c < 256 && 0 <= v < 65536 && 0 <= p < 256 ==> ((4i64 << 56i64) | (c << 32i64) | (v
        << 16i64) | p) == 0x0400000000000000i64 + c * 0x100000000i64 + v * 0x10000i64 + p)
        by (bit_vector);
    (4i64 << 56i64) | (c << 32i64) | (v << 16i64) | p
}

/// Encodes a knowledge node ID over a base node ID. The base's type must fit
/// in four bits.
pub fn encode_knowledge(base_id: i64, axis: KnowledgeAxis) -> (r: i64)
    requires
        0 <= base_id < 16 * type_unit(),
    ensures
        r == spec_encode_knowledge(base_id as int, axis),
{
    let axis_num: i64 = match axis {
        KnowledgeAxis::Memorization => 1,
        KnowledgeAxis::Translation => 2,
        KnowledgeAxis::Tafsir => 3,
        KnowledgeAxis::Tajweed => 4,
        KnowledgeAxis::ContextualMemorization => 5,
        KnowledgeAxis::Meaning => 6,
    };
    let base_type = (base_id >> 56i64) & 0xFF;
    assert(0 <= base_id < 0x1000000000000000i64 ==> ((base_id >> 56i64) & 0xFF) == base_id
        / 0x0100000000000000i64) by (bit_vector);
    assert(0 <= base_id < 0x1000000000000000i64 && 1 <= axis_num <= 6 ==> ((5i64 << 56i64) | (((
    base_id >> 56i64) & 0xFF) << 52i64) | (axis_num << 48i64) | (base_id & 0x0000FFFFFFFFFFFFi64))
        == 0x0500000000000000i64 + (base_id / 0x0100000000000000i64) * 0x10000000000000i64
        + axis_num * 0x1000000000000i64 + base_id % 0x1000000000000i64) by (bit_vector);
    (5i64 << 56i64) | (base_type << 52i64) | (axis_num << 48i64) | (base_id & 0x0000FFFFFFFFFFFFi64)
}

/// Decodes the node type of an integer ID.
pub fn decode_type(id: i64) -> (r: Option<NodeType>)
    ensures
        r == spec_decode_type(id as int),
{
    let type_id = (id & -0x0100000000000000i64) >> 56i64;
    assert(id >= 0 ==> ((id & -0x0100000000000000i64) >> 56i64) == id / 0x0100000000000000i64)
        by (bit_vector);
    assert(id < 0 ==> ((id & -0x0100000000000000i64) >> 56i64) < 0) by (bit_vector);
    if type_id == 1 {
        Some(NodeType::Chapter)
    } else if type_id == 2 {
        Some(NodeType::Verse)
    } else if type_id == 3 {
        Some(NodeType::Word)
    } else if type_id == 4 {
        Some(NodeType::WordInstance)
    } else if type_id == 5 {
        Some(NodeType::Knowledge)
    } else {
        None
    }
}

/// Decodes a chapter ID into its number.
pub fn decode_chapter(id: i64) -> (r: Option<u8>)
    ensures
        r == spec_decode_chapter(id as int),
{
    if decode_type(id) != Some(NodeType::Chapter) {
        return None;
    }
    assert(id >= 0 ==> (id & 0xFF) == id % 256) by (bit_vector);
    Some((id & 0xFF) as u8)
}

/// Decodes a verse ID into chapter and verse numbers.
pub fn decode_verse(id: i64) -> (r: Option<(u8, u16)>)
    ensures
        r == spec_decode_verse(id as int),
{
    if decode_type(id) != Some(NodeType::Verse) {
        return None;
    }
    assert(id >= 0 ==> ((id >> 16i64) & 0xFF) == (id / 0x10000) % 256) by (bit_vector);
    assert(id >= 0 ==> (id & 0xFFFF) == id % 0x10000) by (bit_vector);
    let chapter = ((id >> 16i64) & 0xFF) as u8;
    let verse_num = (id & 0xFFFF) as u16;
    Some((chapter, verse_num))
}

/// Decodes a word ID into the word's number.
pub fn decode_word(id: i64) -> (r: Option<i64>)
    ensures
        r == spec_decode_word(id as int),
{
    if decode_type(id) != Some(NodeType::Word) {
        return None;
    }
    assert(id >= 0 ==> (id & !(-0x0100000000000000i64)) == id % 0x0100000000000000i64)
        by (bit_vector);
    Some(id & !(-0x0100000000000000i64))
}

/// Decodes a word instance ID into chapter, verse and position.
pub fn decode_word_instance(id: i64) -> (r: Option<(u8, u16, u8)>)
    ensures
        r == spec_decode_word_instance(id as int),
{
    if decode_type(id) != Some(NodeType::WordInstance) {
        return None;
    }
    assert(id >= 0 ==> ((id >> 32i64) & 0xFF) == (id / 0x100000000) % 256) by (bit_vector);
    assert(id >= 0 ==> ((id >> 16i64) & 0xFFFF) == (id / 0x10000) % 0x10000) by (bit_vector);
    assert(id >= 0 ==> (id & 0xFF) == id % 256) by (bit_vector);
    let chapter = ((id >> 32i64) & 0xFF) as u8;
    let verse_num = ((id >> 16i64) & 0xFFFF) as u16;
    let position = (id & 0xFF) as u8;
    Some((chapter, verse_num, position))
}

/// Decodes a knowledge ID into its base ID and axis.
pub fn decode_knowledge_id(id: i64) -> (r: Option<(i64, KnowledgeAxis)>)
    ensures
        r == spec_decode_knowledge(id as int),
{
    if decode_type(id) != Some(NodeType::Knowledge) {
        return None;
    }
    let base_type = (id >> 52i64) & 0x0F;
    let axis_num = (id >> 48i64) & 0x0F;
    let payload = id & 0x0000FFFFFFFFFFFFi64;
    assert(id >= 0 ==> ((id >> 52i64) & 0x0F) == (id / 0x10000000000000i64) % 16) by (bit_vector);
    assert(id >= 0 ==> ((id >> 48i64) & 0x0F) == (id / 0x1000000000000i64) % 16) by (bit_vector);
    assert(id >= 0 ==> (id & 0x0000FFFFFFFFFFFFi64) == id % 0x1000000000000i64) by (bit_vector);
    assert(0 <= base_type < 16 && 0 <= payload < 0x1000000000000i64 ==> ((base_type << 56i64)
        | payload) == base_type * 0x0100000000000000i64 + payload) by (bit_vector);
    let base_id = (base_type << 56i64) | payload;
    let axis = if axis_num == 1 {
        KnowledgeAxis::Memorization
    } else if axis_num == 2 {
        KnowledgeAxis::Translation
    } else if axis_num == 3 {
        KnowledgeAxis::Tafsir
    } else if axis_num == 4 {
        KnowledgeAxis::Tajweed
    } else if axis_num == 5 {
        KnowledgeAxis::ContextualMemorization
    } else if axis_num == 6 {
        KnowledgeAxis::Meaning
    } else {
        return None;
    };
    Some((base_id, axis))
}

// ===========================================================================
// Converting between the two forms
// ===========================================================================

/// The measure that shrinks from a knowledge ID to its base ID.
pub open spec fn ukey_measure(id: i64) -> int {
    if id >= 0 {
        (id as int) % 0x10000000000000
    } else {
        0
    }
}

pub proof fn lemma_knowledge_base_measure(id: i64)
    requires
        spec_decode_knowledge(id as int) is Some,
    ensures
        ukey_measure(spec_decode_knowledge(id as int).unwrap().0) < ukey_measure(id),
        spec_decode_knowledge(id as int).unwrap().0 >= 0,
        spec_decode_knowledge(id as int).unwrap().0 < 16 * type_unit(),
{
    let x = id as int;
    let bt = (x / 0x10000000000000) % 0x10;
    let ax = (x / 0x1000000000000) % 0x10;
    let p = x % 0x1000000000000;
    let b = bt * type_unit() + p;
    assert(0 <= bt < 16);
    assert(0 <= p < 0x1000000000000);
    assert(1 <= ax);
    assert(b % 0x10000000000000 == p) by (nonlinear_arith)
        requires
            b == bt * 0x0100000000000000 + p,
            0 <= p < 0x1000000000000,
            0 <= bt < 16,
    ;
    assert(x % 0x10000000000000 == ax * 0x1000000000000 + p) by (nonlinear_arith)
        requires
            x >= 0,
            ax == (x / 0x1000000000000) % 0x10,
            p == x % 0x1000000000000,
    ;
}

/// The string form of an integer ID, when there is one.
pub open spec fn spec_to_ukey(id: i64) -> Option<Seq<char>>
    decreases ukey_measure(id),
{
    match spec_decode_type(id as int) {
        Some(NodeType::Chapter) => Some(chapter_key(spec_decode_chapter(id as int).unwrap() as int)),
        Some(NodeType::Verse) => {
            let (c, v) = spec_decode_verse(id as int).unwrap();
            Some(verse_key(c as int, v as int))
        },
        Some(NodeType::Word) => Some(word_key(spec_decode_word(id as int).unwrap() as int)),
        Some(NodeType::WordInstance) => {
            let (c, v, p) = spec_decode_word_instance(id as int).unwrap();
            Some(word_instance_key(c as int, v as int, p as int))
        },
        Some(NodeType::Knowledge) => match spec_decode_knowledge(id as int) {
            None => None,
            Some((b, a)) => {
                proof {
                    lemma_knowledge_base_measure(id);
                }
                match spec_to_ukey(b) {
                    None => None,
                    Some(u) => Some(knowledge_key(u, a)),
                }
            },
        },
        _ => None,
    }
}

/// Whether `to_ukey` builds its string from values its builders accept.
pub open spec fn to_ukey_ok(id: i64) -> bool
    decreases ukey_measure(id),
{
    match spec_decode_type(id as int) {
        Some(NodeType::Chapter) => valid_chapter(spec_decode_chapter(id as int).unwrap() as int),
        Some(NodeType::Verse) => {
            let (c, v) = spec_decode_verse(id as int).unwrap();
            valid_chapter(c as int) && v >= 1
        },
        Some(NodeType::Word) => spec_decode_word(id as int).unwrap() > 0,
        Some(NodeType::WordInstance) => {
            let (c, v, p) = spec_decode_word_instance(id as int).unwrap();
            valid_chapter(c as int) && v >= 1 && p >= 1
        },
        Some(NodeType::Knowledge) => match spec_decode_knowledge(id as int) {
            None => true,
            Some((b, a)) => {
                proof {
                    lemma_knowledge_base_measure(id);
                }
                to_ukey_ok(b)
            },
        },
        _ => true,
    }
}

/// Converts an integer ID to its string form.
pub fn to_ukey(id: i64) -> (r: Option<String>)
    requires
        to_ukey_ok(id),
    ensures
        match r {
            Some(s) => spec_to_ukey(id) == Some(s@),
            None => spec_to_ukey(id) is None,
        },
    decreases ukey_measure(id),
{
    match decode_type(id) {
        Some(NodeType::Chapter) => {
            let num = decode_chapter(id).unwrap();
            Some(chapter(num))
        },
        Some(NodeType::Verse) => {
            let (ch, v) = decode_verse(id).unwrap();
            Some(verse(ch, v))
        },
        Some(NodeType::Word) => {
            let wid = decode_word(id).unwrap();
            Some(word(wid))
        },
        Some(NodeType::WordInstance) => {
            let (ch, v, pos) = decode_word_instance(id).unwrap();
            Some(word_instance(ch, v, pos))
        },
        Some(NodeType::Knowledge) => {
            let (base_id, axis) = match decode_knowledge_id(id) {
                Some(x) => x,
                None => {
                    return None;
                },
            };
            proof {
                lemma_knowledge_base_measure(id);
            }
            let base_ukey = match to_ukey(base_id) {
                Some(u) => u,
                None => {
                    return None;
                },
            };
            Some(knowledge(base_ukey.as_str(), axis))
        },
        _ => None,
    }
}

pub proof fn lemma_knowledge_base_shorter(id: Seq<char>)
    ensures
        spec_parse_knowledge(id) matches Ok((b, _)) ==> b.len() < id.len(),
{
    if spec_parse_knowledge(id) is Ok {
        reveal_strlit(":");
        assert(":"@ =~= seq![':']);
        lemma_join_split(id, ':');
        lemma_join_drop_last_len(id_parts(id), ":"@);
    }
}

/// The integer form of a string ID, when there is one.
pub open spec fn spec_from_ukey(ukey: Seq<char>) -> Option<i64>
    decreases ukey.len(),
{
    match spec_node_type(ukey) {
        Ok(NodeType::Chapter) => match spec_parse_chapter(ukey) {
            Ok(n) => Some(spec_encode_chapter(n as int) as i64),
            Err(_) => None,
        },
        Ok(NodeType::Verse) => match spec_parse_verse(ukey) {
            Ok((c, v)) => Some(spec_encode_verse(c as int, v as int) as i64),
            Err(_) => None,
        },
        Ok(NodeType::Word) => match spec_parse_word(ukey) {
            Ok(w) => Some(spec_encode_word(w)),
            Err(_) => None,
        },
        Ok(NodeType::WordInstance) => match spec_parse_word_instance(ukey) {
            Ok((c, v, p)) => Some(spec_encode_word_instance(c as int, v as int, p as int) as i64),
            Err(_) => None,
        },
        Ok(NodeType::Knowledge) => match spec_parse_knowledge(ukey) {
            Ok((base, a)) => {
                proof {
                    lemma_knowledge_base_shorter(ukey);
                }
                match spec_from_ukey(base) {
                    Some(b) => Some(spec_encode_knowledge(b as int, a) as i64),
                    None => None,
                }
            },
            Err(_) => None,
        },
        _ => None,
    }
}

/// Whether `from_ukey` only ever encodes knowledge over a base whose type
/// fits in four bits.
pub open spec fn from_ukey_ok(ukey: Seq<char>) -> bool
    decreases ukey.len(),
{
    match spec_node_type(ukey) {
        Ok(NodeType::Knowledge) => match spec_parse_knowledge(ukey) {
            Ok((base, a)) => {
                proof {
                    lemma_knowledge_base_shorter(ukey);
                }
                from_ukey_ok(base) && (spec_from_ukey(base) matches Some(b) ==> 0 <= b < 16
                    * type_unit())
            },
            Err(_) => true,
        },
        _ => true,
    }
}

/// `from_ukey` on characters.
fn from_ukey_chars(v: &Vec<char>) -> (r: Option<i64>)
    requires
        from_ukey_ok(v@),
    ensures
        r == spec_from_ukey(v@),
    decreases v@.len(),
{
    let t = match node_type_chars(v) {
        Ok(t) => t,
        Err(_) => {
            return None;
        },
    };
    match t {
        NodeType::Chapter => match parse_chapter_chars(v) {
            Ok(n) => Some(encode_chapter(n)),
            Err(_) => None,
        },
        NodeType::Verse => match parse_verse_chars(v) {
            Ok((c, vn)) => Some(encode_verse(c, vn)),
            Err(_) => None,
        },
        NodeType::Word => match parse_word_chars(v) {
            Ok(w) => Some(encode_word(w)),
            Err(_) => None,
        },
        NodeType::WordInstance => match parse_word_instance_chars(v) {
            Ok((c, vn, p)) => Some(encode_word_instance(c, vn, p)),
            Err(_) => None,
        },
        NodeType::Knowledge => match parse_knowledge_chars(v) {
            Ok((base, a)) => {
                proof {
                    lemma_knowledge_base_shorter(v@);
                }
                match from_ukey_chars(&base) {
                    Some(b) => Some(encode_knowledge(b, a)),
                    None => None,
                }
            },
            Err(_) => None,
        },
        _ => None,
    }
}

/// Converts a string ID to its integer form.
pub fn from_ukey(ukey: &str) -> (r: Option<i64>)
    requires
        from_ukey_ok(ukey@),
    ensures
        r == spec_from_ukey(ukey@),
{
    let v = chars_of(ukey);
    from_ukey_chars(&v)
}

/// What `validate` gives for an ID.
pub open spec fn spec_validate(id: Seq<char>) -> Result<(), NodeIdFault> {
    match spec_node_type(id) {
        Err(e) => Err(e),
        Ok(NodeType::Chapter) => match spec_parse_chapter(id) {
            Ok(_) => Ok(()),
            Err(e) => Err(e),
        },
        Ok(NodeType::Verse) => match spec_parse_verse(id) {
            Ok(_) => Ok(()),
            Err(e) => Err(e),
        },
        Ok(NodeType::Word) => match spec_parse_word(id) {
            Ok(_) => Ok(()),
            Err(e) => Err(e),
        },
        Ok(NodeType::WordInstance) => match spec_parse_word_instance(id) {
            Ok(_) => Ok(()),
            Err(e) => Err(e),
        },
        Ok(NodeType::Knowledge) => match spec_parse_knowledge(id) {
            Ok(_) => Ok(()),
            Err(e) => Err(e),
        },
        Ok(_) => Err(NodeIdFault::InvalidPrefix("Unknown"@)),
    }
}

/// Validates a node ID string.
pub fn validate(id: &str) -> (r: Result<(), NodeIdError>)
    ensures
        rview(r) == spec_validate(id@),
{
    let v = chars_of(id);
    match node_type_chars(&v) {
        Err(e) => Err(e),
        Ok(NodeType::Chapter) => match parse_chapter_chars(&v) {
            Ok(_) => Ok(()),
            Err(e) => Err(e),
        },
        Ok(NodeType::Verse) => match parse_verse_chars(&v) {
            Ok(_) => Ok(()),
            Err(e) => Err(e),
        },
        Ok(NodeType::Word) => match parse_word_chars(&v) {
            Ok(_) => Ok(()),
            Err(e) => Err(e),
        },
        Ok(NodeType::WordInstance) => match parse_word_instance_chars(&v) {
            Ok(_) => Ok(()),
            Err(e) => Err(e),
        },
        Ok(NodeType::Knowledge) => match parse_knowledge_chars(&v) {
            Ok(_) => Ok(()),
            Err(e) => Err(e),
        },
        Ok(_) => {
            let u = chars_of("Unknown");
            Err(NodeIdError::InvalidPrefix(string_of(&u)))
        },
    }
}

} // verus!

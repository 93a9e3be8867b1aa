use vstd::prelude::*;
use crate::decimal::{
    all_digits, dec, int_str, is_digit, lemma_dec_digits, lemma_parse_unsigned_dec,
    lemma_parse_signed_int_str,
};
use crate::models::{KnowledgeAxis, NodeType, axis_name, axis_of_name, spec_knowledge_parts, spec_base_id};
use crate::node_id::{
    chapter_key, from_ukey_ok, id_parts, knowledge_key, spec_decode_chapter, spec_decode_knowledge,
    spec_decode_type, spec_decode_verse, spec_decode_word, spec_decode_word_instance,
    spec_encode_chapter, spec_encode_knowledge, spec_encode_verse, spec_encode_word,
    spec_encode_word_instance, spec_from_ukey, spec_node_type, spec_parse_chapter,
    spec_parse_knowledge, spec_parse_verse, spec_parse_word, spec_parse_word_instance,
    spec_to_ukey, to_ukey_ok, type_unit, valid_chapter, verse_key, word_instance_key, word_key,
    axis_id,
};
use vstd::arithmetic::div_mod::{lemma_fundamental_div_mod, lemma_fundamental_div_mod_converse, lemma_div_denominator};
use crate::text::{join, lemma_join_split, lemma_split_concat, lemma_split_single, split_on};

verus! {

// ---------------------------------------------------------------------------
// Facts about the literal names
// ---------------------------------------------------------------------------

proof fn lemma_prefixes()
    ensures
        "CHAPTER:"@ == "CHAPTER"@ + seq![':'],
        "VERSE:"@ == "VERSE"@ + seq![':'],
        "WORD:"@ == "WORD"@ + seq![':'],
        "WORD_INSTANCE:"@ == "WORD_INSTANCE"@ + seq![':'],
        ":"@ == seq![':'],
        split_on("CHAPTER"@, ':') == seq!["CHAPTER"@],
        split_on("VERSE"@, ':') == seq!["VERSE"@],
        split_on("WORD"@, ':') == seq!["WORD"@],
        split_on("WORD_INSTANCE"@, ':') == seq!["WORD_INSTANCE"@],
        "VERSE"@ != "CHAPTER"@,
        "WORD"@ != "CHAPTER"@,
        "WORD"@ != "VERSE"@,
        "WORD_INSTANCE"@ != "CHAPTER"@,
        "WORD_INSTANCE"@ != "VERSE"@,
        "WORD_INSTANCE"@ != "WORD"@,
{
    reveal_strlit("CHAPTER:");
    reveal_strlit("VERSE:");
    reveal_strlit("WORD:");
    reveal_strlit("WORD_INSTANCE:");
    reveal_strlit("CHAPTER");
    reveal_strlit("VERSE");
    reveal_strlit("WORD");
    reveal_strlit("WORD_INSTANCE");
    reveal_strlit(":");
    assert("CHAPTER:"@ =~= "CHAPTER"@ + seq![':']);
    assert("VERSE:"@ =~= "VERSE"@ + seq![':']);
    assert("WORD:"@ =~= "WORD"@ + seq![':']);
    assert("WORD_INSTANCE:"@ =~= "WORD_INSTANCE"@ + seq![':']);
    assert(":"@ =~= seq![':']);
    lemma_split_single("CHAPTER"@, ':');
    lemma_split_single("VERSE"@, ':');
    lemma_split_single("WORD"@, ':');
    lemma_split_single("WORD_INSTANCE"@, ':');
    assert("VERSE"@.len() != "CHAPTER"@.len());
    assert("WORD"@.len() != "CHAPTER"@.len());
    assert("WORD"@.len() != "VERSE"@.len());
    assert("WORD_INSTANCE"@.len() != "CHAPTER"@.len());
    assert("WORD_INSTANCE"@.len() != "VERSE"@.len());
    assert("WORD_INSTANCE"@.len() != "WORD"@.len());
}

/// Every axis name is recognised as its own axis.
pub proof fn lemma_axis_name_roundtrip(a: KnowledgeAxis)
    ensures
        axis_of_name(axis_name(a)) == Some(a),
        forall|i: int| 0 <= i < axis_name(a).len() ==> axis_name(a)[i] != ':',
{
    reveal_strlit("memorization");
    reveal_strlit("translation");
    reveal_strlit("tafsir");
    reveal_strlit("tajweed");
    reveal_strlit("contextual_memorization");
    reveal_strlit("meaning");
    assert("translation"@ != "memorization"@) by {
        assert("translation"@[0] != "memorization"@[0]);
    }
    assert("tafsir"@.len() != "memorization"@.len() && "tafsir"@.len() != "translation"@.len());
    assert("tajweed"@.len() != "memorization"@.len() && "tajweed"@.len() != "translation"@.len());
    assert("tajweed"@ != "tafsir"@) by {
        assert("tajweed"@[2] != "tafsir"@[2]);
    }
    assert("contextual_memorization"@.len() != "memorization"@.len());
    assert("contextual_memorization"@.len() != "translation"@.len());
    assert("contextual_memorization"@.len() != "tafsir"@.len());
    assert("contextual_memorization"@.len() != "tajweed"@.len());
    assert("meaning"@.len() != "memorization"@.len() && "meaning"@.len() != "translation"@.len());
    assert("meaning"@.len() != "tafsir"@.len() && "meaning"@.len()
        != "contextual_memorization"@.len());
    assert("meaning"@ != "tajweed"@) by {
        assert("meaning"@[0] != "tajweed"@[0]);
    }
}

/// A piece that starts with a digit or a minus sign names no axis.
pub proof fn lemma_number_not_axis(x: Seq<char>)
    requires
        x.len() > 0,
        is_digit(x[0]) || x[0] == '-',
    ensures
        axis_of_name(x) is None,
{
    reveal_strlit("memorization");
    reveal_strlit("translation");
    reveal_strlit("tafsir");
    reveal_strlit("tajweed");
    reveal_strlit("contextual_memorization");
    reveal_strlit("meaning");
    assert(x != "memorization"@) by {
        assert(x[0] != "memorization"@[0]);
    }
    assert(x != "translation"@) by {
        assert(x[0] != "translation"@[0]);
    }
    assert(x != "tafsir"@) by {
        assert(x[0] != "tafsir"@[0]);
    }
    assert(x != "tajweed"@) by {
        assert(x[0] != "tajweed"@[0]);
    }
    assert(x != "contextual_memorization"@) by {
        assert(x[0] != "contextual_memorization"@[0]);
    }
    assert(x != "meaning"@) by {
        assert(x[0] != "meaning"@[0]);
    }
}

proof fn lemma_dec_clean(n: nat)
    ensures
        split_on(dec(n), ':') == seq![dec(n)],
        axis_of_name(dec(n)) is None,
        dec(n).len() > 0,
        all_digits(dec(n)),
{
    lemma_dec_digits(n);
    assert forall|i: int| 0 <= i < dec(n).len() implies dec(n)[i] != ':' by {
        assert(is_digit(dec(n)[i]));
    }
    lemma_split_single(dec(n), ':');
    assert(is_digit(dec(n)[0]));
    lemma_number_not_axis(dec(n));
}

proof fn lemma_int_str_clean(i: int)
    ensures
        split_on(int_str(i), ':') == seq![int_str(i)],
        axis_of_name(int_str(i)) is None,
{
    if i < 0 {
        let m = (-i) as nat;
        lemma_dec_digits(m);
        let s = seq!['-'] + dec(m);
        assert forall|j: int| 0 <= j < s.len() implies s[j] != ':' by {
            if j > 0 {
                assert(s[j] == dec(m)[j - 1]);
                assert(is_digit(dec(m)[j - 1]));
            }
        }
        lemma_split_single(s, ':');
        lemma_number_not_axis(s);
    } else {
        lemma_dec_clean(i as nat);
    }
}

// ---------------------------------------------------------------------------
// Parts of the built IDs
// ---------------------------------------------------------------------------

proof fn lemma_chapter_parts(n: nat)
    ensures
        id_parts(chapter_key(n as int)) == seq!["CHAPTER"@, dec(n)],
        spec_node_type(chapter_key(n as int)) == Ok::<NodeType, crate::errors::NodeIdFault>(NodeType::Chapter),
{
    lemma_prefixes();
    lemma_dec_clean(n);
    lemma_split_concat("CHAPTER"@, dec(n), ':');
    assert(chapter_key(n as int) =~= "CHAPTER"@ + seq![':'] + dec(n));
    assert(id_parts(chapter_key(n as int)) =~= seq!["CHAPTER"@, dec(n)]);
}

proof fn lemma_verse_parts(c: nat, v: nat)
    ensures
        id_parts(verse_key(c as int, v as int)) == seq!["VERSE"@, dec(c), dec(v)],
        spec_node_type(verse_key(c as int, v as int)) == Ok::<NodeType, crate::errors::NodeIdFault>(NodeType::Verse),
{
    lemma_prefixes();
    lemma_dec_clean(c);
    lemma_dec_clean(v);
    let head = "VERSE"@ + seq![':'] + dec(c);
    lemma_split_concat("VERSE"@, dec(c), ':');
    lemma_split_concat(head, dec(v), ':');
    assert(verse_key(c as int, v as int) =~= head + seq![':'] + dec(v));
    assert(id_parts(verse_key(c as int, v as int)) =~= seq!["VERSE"@, dec(c), dec(v)]);
}

proof fn lemma_word_parts(w: int)
    ensures
        id_parts(word_key(w)) == seq!["WORD"@, int_str(w)],
        spec_node_type(word_key(w)) == Ok::<NodeType, crate::errors::NodeIdFault>(NodeType::Word),
{
    lemma_prefixes();
    lemma_int_str_clean(w);
    lemma_split_concat("WORD"@, int_str(w), ':');
    assert(word_key(w) =~= "WORD"@ + seq![':'] + int_str(w));
    assert(id_parts(word_key(w)) =~= seq!["WORD"@, int_str(w)]);
}

proof fn lemma_word_instance_parts(c: nat, v: nat, p: nat)
    ensures
        id_parts(word_instance_key(c as int, v as int, p as int)) == seq![
            "WORD_INSTANCE"@,
            dec(c),
            dec(v),
            dec(p),
        ],
        spec_node_type(word_instance_key(c as int, v as int, p as int)) == Ok::<NodeType, crate::errors::NodeIdFault>(NodeType::WordInstance),
{
    lemma_prefixes();
    lemma_dec_clean(c);
    lemma_dec_clean(v);
    lemma_dec_clean(p);
    let h1 = "WORD_INSTANCE"@ + seq![':'] + dec(c);
    let h2 = h1 + seq![':'] + dec(v);
    lemma_split_concat("WORD_INSTANCE"@, dec(c), ':');
    lemma_split_concat(h1, dec(v), ':');
    lemma_split_concat(h2, dec(p), ':');
    assert(word_instance_key(c as int, v as int, p as int) =~= h2 + seq![':'] + dec(p));
    assert(id_parts(word_instance_key(c as int, v as int, p as int)) =~= seq![
        "WORD_INSTANCE"@,
        dec(c),
        dec(v),
        dec(p),
    ]);
}

// ---------------------------------------------------------------------------
// Laws: parsing a built ID gives back what it was built from
// ---------------------------------------------------------------------------

/// Parsing the ID built for a chapter gives back the chapter number.
pub proof fn law_parse_chapter_roundtrip(n: u8)
    requires
        valid_chapter(n as int),
    ensures
        spec_parse_chapter(chapter_key(n as int)) == Ok::<u8, crate::errors::NodeIdFault>(n),
{
    lemma_chapter_parts(n as nat);
    lemma_parse_unsigned_dec(n as nat, 255);
}

/// Parsing the ID built for a verse gives back chapter and verse numbers.
pub proof fn law_parse_verse_roundtrip(c: u8, v: u16)
    requires
        valid_chapter(c as int),
        v >= 1,
    ensures
        spec_parse_verse(verse_key(c as int, v as int)) == Ok::<(u8, u16), crate::errors::NodeIdFault>((c, v)),
{
    lemma_verse_parts(c as nat, v as nat);
    lemma_parse_unsigned_dec(c as nat, 255);
    lemma_parse_unsigned_dec(v as nat, 65535);
}

/// Parsing the ID built for a word gives back the word's number.
pub proof fn law_parse_word_roundtrip(w: i64)
    ensures
        spec_parse_word(word_key(w as int)) == Ok::<i64, crate::errors::NodeIdFault>(w),
{
    lemma_word_parts(w as int);
    lemma_parse_signed_int_str(w as int, i64::MIN as int, i64::MAX as int);
}

/// Parsing the ID built for a word instance gives back its three numbers.
pub proof fn law_parse_word_instance_roundtrip(c: u8, v: u16, p: u8)
    requires
        valid_chapter(c as int),
    ensures
        spec_parse_word_instance(word_instance_key(c as int, v as int, p as int)) == Ok::<(u8, u16, u8), crate::errors::NodeIdFault>((c, v, p)),
{
    lemma_word_instance_parts(c as nat, v as nat, p as nat);
    lemma_parse_unsigned_dec(c as nat, 255);
    lemma_parse_unsigned_dec(v as nat, 65535);
    lemma_parse_unsigned_dec(p as nat, 255);
}

/// Parsing a knowledge ID built over a base that holds a colon gives back
/// the base and the axis.
pub proof fn law_parse_knowledge_roundtrip(base: Seq<char>, a: KnowledgeAxis)
    requires
        split_on(base, ':').len() >= 2,
    ensures
        spec_parse_knowledge(knowledge_key(base, a)) == Ok::<(Seq<char>, KnowledgeAxis), crate::errors::NodeIdFault>((base, a)),
        spec_node_type(knowledge_key(base, a)) == Ok::<NodeType, crate::errors::NodeIdFault>(NodeType::Knowledge),
{
    lemma_prefixes();
    lemma_axis_name_roundtrip(a);
    lemma_split_single(axis_name(a), ':');
    lemma_split_concat(base, axis_name(a), ':');
    assert(knowledge_key(base, a) =~= base + seq![':'] + axis_name(a));
    let p = id_parts(knowledge_key(base, a));
    assert(p =~= split_on(base, ':').push(axis_name(a)));
    assert(p.drop_last() =~= split_on(base, ':'));
    lemma_join_split(base, ':');
}

// ---------------------------------------------------------------------------
// Laws: decoding an encoded ID gives back what it was encoded from
// ---------------------------------------------------------------------------

/// Decoding an encoded chapter ID gives back the chapter number.
pub proof fn law_decode_encode_chapter(n: u8)
    ensures
        spec_decode_type(spec_encode_chapter(n as int)) == Some(NodeType::Chapter),
        spec_decode_chapter(spec_encode_chapter(n as int)) == Some(n),
{
}

/// Decoding an encoded verse ID gives back chapter and verse numbers.
pub proof fn law_decode_encode_verse(c: u8, v: u16)
    ensures
        spec_decode_type(spec_encode_verse(c as int, v as int)) == Some(NodeType::Verse),
        spec_decode_verse(spec_encode_verse(c as int, v as int)) == Some((c, v)),
{
}

/// Decoding an encoded word ID gives back the word's number, when it fits
/// below the type field.
pub proof fn law_decode_encode_word(w: i64)
    requires
        0 <= w < type_unit(),
    ensures
        spec_decode_type(spec_encode_word(w) as int) == Some(NodeType::Word),
        spec_decode_word(spec_encode_word(w) as int) == Some(w),
{
    assert(0 <= w < 0x0100000000000000i64 ==> (0x0300000000000000i64 | w) == 0x0300000000000000i64
        + w) by (bit_vector);
}

/// Decoding an encoded word instance ID gives back its three numbers.
pub proof fn law_decode_encode_word_instance(c: u8, v: u16, p: u8)
    ensures
        spec_decode_type(spec_encode_word_instance(c as int, v as int, p as int)) == Some(
            NodeType::WordInstance,
        ),
        spec_decode_word_instance(spec_encode_word_instance(c as int, v as int, p as int)) == Some(
            (c, v, p),
        ),
{
    let e = spec_encode_word_instance(c as int, v as int, p as int);
    let q = 4 * 0x10000000000 + (c as int) * 0x10000 + v as int;
    lemma_fundamental_div_mod_converse(e, 0x10000, q, p as int);
    lemma_fundamental_div_mod_converse(q, 0x10000, 4 * 0x1000000 + c as int, v as int);
    lemma_fundamental_div_mod_converse(4 * 0x1000000 + c as int, 0x100, 4 * 0x10000int, c as int);
    lemma_fundamental_div_mod_converse(e, 0x100, 4 * 0x1000000000000 + (c as int) * 0x1000000
        + (v as int) * 0x100, p as int);
    lemma_fundamental_div_mod_converse(e, 0x0100000000000000, 4, (c as int) * 0x100000000
        + (v as int) * 0x10000 + p as int);
    lemma_div_denominator(e, 0x10000, 0x10000);
}

/// Decoding an encoded knowledge ID gives back the base ID and the axis,
/// when the base's type fits in four bits and its payload in 48 bits.
pub proof fn law_decode_encode_knowledge(b: i64, a: KnowledgeAxis)
    requires
        0 <= b < 16 * type_unit(),
        (b as int) % type_unit() < 0x1000000000000,
    ensures
        spec_decode_type(spec_encode_knowledge(b as int, a)) == Some(NodeType::Knowledge),
        spec_decode_knowledge(spec_encode_knowledge(b as int, a)) == Some((b, a)),
{
    let x = b as int;
    let bt = x / type_unit();
    let p = x % type_unit();
    let ax = axis_id(a);
    let e = spec_encode_knowledge(x, a);
    lemma_fundamental_div_mod(x, type_unit());
    assert(x == bt * 0x0100000000000000 + p);
    assert(0 <= bt < 16);
    assert(p % 0x1000000000000 == p);
    assert(1 <= ax <= 6);
    let q = 1280 + 16 * bt + ax;
    assert(e == q * 0x1000000000000 + p);
    lemma_fundamental_div_mod_converse(e, 0x1000000000000, q, p);
    lemma_fundamental_div_mod_converse(q, 16, 80 + bt, ax);
    lemma_fundamental_div_mod_converse(80 + bt, 16, 5, bt);
    lemma_fundamental_div_mod_converse(e, 0x0100000000000000, 5, bt * 0x10000000000000 + ax
        * 0x1000000000000 + p);
    lemma_div_denominator(e, 0x1000000000000, 16);
    assert(e / 0x10000000000000 == q / 16);
}

// ---------------------------------------------------------------------------
// Laws: string and integer forms convert into each other
// ---------------------------------------------------------------------------

/// A chapter's integer ID and string ID convert into each other.
pub proof fn law_ukey_roundtrip_chapter(n: u8)
    requires
        valid_chapter(n as int),
    ensures
        to_ukey_ok(spec_encode_chapter(n as int) as i64),
        spec_to_ukey(spec_encode_chapter(n as int) as i64) == Some(chapter_key(n as int)),
        from_ukey_ok(chapter_key(n as int)),
        spec_from_ukey(chapter_key(n as int)) == Some(spec_encode_chapter(n as int) as i64),
        split_on(chapter_key(n as int), ':').len() >= 2,
{
    law_decode_encode_chapter(n);
    law_parse_chapter_roundtrip(n);
    lemma_chapter_parts(n as nat);
}

/// A verse's integer ID and string ID convert into each other.
pub proof fn law_ukey_roundtrip_verse(c: u8, v: u16)
    requires
        valid_chapter(c as int),
        v >= 1,
    ensures
        to_ukey_ok(spec_encode_verse(c as int, v as int) as i64),
        spec_to_ukey(spec_encode_verse(c as int, v as int) as i64) == Some(
            verse_key(c as int, v as int),
        ),
        from_ukey_ok(verse_key(c as int, v as int)),
        spec_from_ukey(verse_key(c as int, v as int)) == Some(
            spec_encode_verse(c as int, v as int) as i64,
        ),
        split_on(verse_key(c as int, v as int), ':').len() >= 2,
{
    law_decode_encode_verse(c, v);
    law_parse_verse_roundtrip(c, v);
    lemma_verse_parts(c as nat, v as nat);
}

/// A word's integer ID and string ID convert into each other.
pub proof fn law_ukey_roundtrip_word(w: i64)
    requires
        0 < w < type_unit(),
    ensures
        to_ukey_ok(spec_encode_word(w)),
        spec_to_ukey(spec_encode_word(w)) == Some(word_key(w as int)),
        from_ukey_ok(word_key(w as int)),
        spec_from_ukey(word_key(w as int)) == Some(spec_encode_word(w)),
        split_on(word_key(w as int), ':').len() >= 2,
{
    law_decode_encode_word(w);
    law_parse_word_roundtrip(w);
    lemma_word_parts(w as int);
}

/// A word instance's integer ID and string ID convert into each other.
pub proof fn law_ukey_roundtrip_word_instance(c: u8, v: u16, p: u8)
    requires
        valid_chapter(c as int),
        v >= 1,
        p >= 1,
    ensures
        to_ukey_ok(spec_encode_word_instance(c as int, v as int, p as int) as i64),
        spec_to_ukey(spec_encode_word_instance(c as int, v as int, p as int) as i64) == Some(
            word_instance_key(c as int, v as int, p as int),
        ),
        from_ukey_ok(word_instance_key(c as int, v as int, p as int)),
        spec_from_ukey(word_instance_key(c as int, v as int, p as int)) == Some(
            spec_encode_word_instance(c as int, v as int, p as int) as i64,
        ),
        split_on(word_instance_key(c as int, v as int, p as int), ':').len() >= 2,
{
    law_decode_encode_word_instance(c, v, p);
    law_parse_word_instance_roundtrip(c, v, p);
    lemma_word_instance_parts(c as nat, v as nat, p as nat);
}

/// When a base node's integer and string IDs convert into each other, so do
/// those of every knowledge node over it.
pub proof fn law_ukey_roundtrip_knowledge(b: i64, u: Seq<char>, a: KnowledgeAxis)
    requires
        to_ukey_ok(b),
        spec_to_ukey(b) == Some(u),
        from_ukey_ok(u),
        spec_from_ukey(u) == Some(b),
        split_on(u, ':').len() >= 2,
        0 <= b < 16 * type_unit(),
        (b as int) % type_unit() < 0x1000000000000,
    ensures
        to_ukey_ok(spec_encode_knowledge(b as int, a) as i64),
        spec_to_ukey(spec_encode_knowledge(b as int, a) as i64) == Some(knowledge_key(u, a)),
        from_ukey_ok(knowledge_key(u, a)),
        spec_from_ukey(knowledge_key(u, a)) == Some(spec_encode_knowledge(b as int, a) as i64),
{
    law_decode_encode_knowledge(b, a);
    law_parse_knowledge_roundtrip(u, a);
    let k = spec_encode_knowledge(b as int, a) as i64;
    assert(k as int == spec_encode_knowledge(b as int, a));
    assert(spec_decode_knowledge(k as int) == Some((b, a)));
}

/// A knowledge node over a verse: its integer ID and string ID convert into
/// each other.
pub proof fn law_ukey_roundtrip_verse_knowledge(c: u8, v: u16, a: KnowledgeAxis)
    requires
        valid_chapter(c as int),
        v >= 1,
    ensures
        to_ukey_ok(spec_encode_knowledge(spec_encode_verse(c as int, v as int), a) as i64),
        spec_to_ukey(spec_encode_knowledge(spec_encode_verse(c as int, v as int), a) as i64)
            == Some(knowledge_key(verse_key(c as int, v as int), a)),
        from_ukey_ok(knowledge_key(verse_key(c as int, v as int), a)),
        spec_from_ukey(knowledge_key(verse_key(c as int, v as int), a)) == Some(
            spec_encode_knowledge(spec_encode_verse(c as int, v as int), a) as i64,
        ),
{
    law_ukey_roundtrip_verse(c, v);
    let b = spec_encode_verse(c as int, v as int) as i64;
    assert(b as int == spec_encode_verse(c as int, v as int));
    lemma_fundamental_div_mod_converse(b as int, type_unit(), 2, (c as int) * 0x10000 + v as int);
    law_ukey_roundtrip_knowledge(b, verse_key(c as int, v as int), a);
}

/// Law: parsing the full ID of a knowledge node built from a base and an
/// axis gives back that base and axis.
pub proof fn law_knowledge_node_roundtrip(base: Seq<char>, a: KnowledgeAxis)
    ensures
        spec_knowledge_parts(base + ":"@ + axis_name(a)) == Some((base, a)),
        spec_base_id(base + ":"@ + axis_name(a)) == base,
{
    lemma_prefixes();
    lemma_axis_name_roundtrip(a);
    lemma_split_single(axis_name(a), ':');
    lemma_split_concat(base, axis_name(a), ':');
    crate::text::lemma_split_nonempty(base, ':');
    let p = split_on(base + ":"@ + axis_name(a), ':');
    assert(p =~= split_on(base, ':').push(axis_name(a)));
    assert(p.drop_last() =~= split_on(base, ':'));
    lemma_join_split(base, ':');
}

} // verus!

use vstd::prelude::*;

verus! {

// ---------------------------------------------------------------------------
// Character classes
// ---------------------------------------------------------------------------

/// Unicode `White_Space`: the characters `char::is_whitespace` accepts.
pub open spec fn is_ws(c: char) -> bool {
    let u = c as u32;
    ||| 0x9 <= u <= 0xD
    ||| u == 0x20
    ||| u == 0x85
    ||| u == 0xA0
    ||| u == 0x1680
    ||| 0x2000 <= u <= 0x200A
    ||| u == 0x2028
    ||| u == 0x2029
    ||| u == 0x202F
    ||| u == 0x205F
    ||| u == 0x3000
}

/// Whether `c` is a Unicode white-space character.
pub fn is_whitespace(c: char) -> (r: bool)
    ensures
        r == is_ws(c),
{
    let u = c as u32;
    (0x9 <= u && u <= 0xD) || u == 0x20 || u == 0x85 || u == 0xA0 || u == 0x1680 || (0x2000 <= u
        && u <= 0x200A) || u == 0x2028 || u == 0x2029 || u == 0x202F || u == 0x205F || u == 0x3000
}

// ---------------------------------------------------------------------------
// Conversions between strings and character vectors
// ---------------------------------------------------------------------------

/// `String::push`. Claimed: the string afterwards is the string before
/// with `c` appended, as std documents.
#[verifier::external_body]
pub(crate) fn push_char(s: &mut String, c: char)
    ensures
        final(s)@ == old(s)@.push(c),
{
    s.push(c);
}

/// The characters of a string slice, in order.
pub fn chars_of(s: &str) -> (r: Vec<char>)
    ensures
        r@ == s@,
{
    let n = s.unicode_len();
    let mut v: Vec<char> = Vec::new();
    let mut i: usize = 0;
    while i < n
        invariant
            n == s@.len(),
            i <= n,
            v@ == s@.subrange(0, i as int),
        decreases n - i,
    {
        let c = s.get_char(i);
        v.push(c);
        i = i + 1;
    }
    v
}

/// Builds a string from a sequence of characters.
pub fn string_of(v: &Vec<char>) -> (r: String)
    ensures
        r@ == v@,
{
    let mut s = String::new();
    let mut i: usize = 0;
    while i < v.len()
        invariant
            i <= v.len(),
            s@ == v@.subrange(0, i as int),
        decreases v.len() - i,
    {
        push_char(&mut s, v[i]);
        i = i + 1;
    }
    s
}

/// Appends all characters of `src` to `dst`.
pub fn extend_chars(dst: &mut Vec<char>, src: &Vec<char>)
    ensures
        final(dst)@ == old(dst)@ + src@,
{
    let mut i: usize = 0;
    while i < src.len()
        invariant
            i <= src.len(),
            dst@ == old(dst)@ + src@.subrange(0, i as int),
        decreases src.len() - i,
    {
        dst.push(src[i]);
        i = i + 1;
    }
}

/// Whether two character vectors hold the same characters.
pub fn chars_eq(a: &Vec<char>, b: &Vec<char>) -> (r: bool)
    ensures
        r == (a@ == b@),
{
    if a.len() != b.len() {
        return false;
    }
    let mut i: usize = 0;
    while i < a.len()
        invariant
            a.len() == b.len(),
            i <= a.len(),
            forall|j: int| 0 <= j < i ==> a@[j] == b@[j],
        decreases a.len() - i,
    {
        if a[i] != b[i] {
            return false;
        }
        i = i + 1;
    }
    assert(a@ =~= b@);
    true
}

/// Whether a character vector spells out the string slice `s`.
pub fn chars_eq_str(a: &Vec<char>, s: &str) -> (r: bool)
    ensures
        r == (a@ == s@),
{
    let b = chars_of(s);
    chars_eq(a, &b)
}

/// Whether `v` begins with `prefix`.
pub fn starts_with_chars(v: &Vec<char>, prefix: &Vec<char>) -> (r: bool)
    ensures
        r == (prefix@.len() <= v@.len() && v@.subrange(0, prefix@.len() as int) == prefix@),
{
    if prefix.len() > v.len() {
        return false;
    }
    let mut i: usize = 0;
    while i < prefix.len()
        invariant
            prefix.len() <= v.len(),
            i <= prefix.len(),
            forall|j: int| 0 <= j < i ==> v@[j] == prefix@[j],
        decreases prefix.len() - i,
    {
        if v[i] != prefix[i] {
            assert(v@.subrange(0, prefix@.len() as int)[i as int] != prefix@[i as int]);
            return false;
        }
        i = i + 1;
    }
    assert(v@.subrange(0, prefix@.len() as int) =~= prefix@);
    true
}

/// The characters of `v` from index `start` on.
pub fn chars_from(v: &Vec<char>, start: usize) -> (r: Vec<char>)
    requires
        start <= v@.len(),
    ensures
        r@ == v@.subrange(start as int, v@.len() as int),
{
    let mut r: Vec<char> = Vec::new();
    let mut i: usize = start;
    while i < v.len()
        invariant
            start <= i <= v.len(),
            r@ == v@.subrange(start as int, i as int),
        decreases v.len() - i,
    {
        r.push(v[i]);
        i = i + 1;
    }
    r
}

// ---------------------------------------------------------------------------
// Splitting on a delimiter
// ---------------------------------------------------------------------------

/// The views of a sequence of character vectors.
pub open spec fn views(s: Seq<Vec<char>>) -> Seq<Seq<char>> {
    s.map_values(|x: Vec<char>| x@)
}

/// `str::split` on a single character: the pieces between the delimiters,
/// always at least one.
pub open spec fn split_on(s: Seq<char>, d: char) -> Seq<Seq<char>>
    decreases s.len(),
{
    if s.len() == 0 {
        seq![Seq::<char>::empty()]
    } else {
        let p = split_on(s.drop_last(), d);
        if s.last() == d {
            p.push(Seq::<char>::empty())
        } else {
            p.update(p.len() - 1, p.last().push(s.last()))
        }
    }
}

pub proof fn lemma_split_nonempty(s: Seq<char>, d: char)
    ensures
        split_on(s, d).len() >= 1,
    decreases s.len(),
{
    if s.len() > 0 {
        lemma_split_nonempty(s.drop_last(), d);
    }
}

/// Splits `v` on every occurrence of `d`.
pub fn split_chars(v: &Vec<char>, d: char) -> (r: Vec<Vec<char>>)
    ensures
        views(r@) == split_on(v@, d),
{
    let mut parts: Vec<Vec<char>> = Vec::new();
    let mut cur: Vec<char> = Vec::new();
    let mut i: usize = 0;
    assert(v@.subrange(0, 0) =~= Seq::<char>::empty());
    assert(views(parts@).push(cur@) =~= split_on(v@.subrange(0, 0), d));
    while i < v.len()
        invariant
            i <= v.len(),
            views(parts@).push(cur@) == split_on(v@.subrange(0, i as int), d),
        decreases v.len() - i,
    {
        let c = v[i];
        let ghost pre = v@.subrange(0, i as int);
        let ghost post = v@.subrange(0, i + 1);
        assert(post.drop_last() =~= pre);
        assert(post.last() == c);
        if c == d {
            let old_cur = cur;
            parts.push(old_cur);
            cur = Vec::new();
            assert(views(parts@).push(cur@) =~= split_on(post, d));
        } else {
            let ghost old_parts = parts@;
            let ghost old_cur = cur@;
            cur.push(c);
            assert(views(parts@).push(cur@) =~= views(old_parts).push(old_cur).update(
                views(old_parts).len() as int,
                old_cur.push(c),
            ));
        }
        i = i + 1;
    }
    assert(v@.subrange(0, v@.len() as int) =~= v@);
    parts.push(cur);
    assert(views(parts@) =~= split_on(v@, d));
    parts
}

// ---------------------------------------------------------------------------
// Joining with a separator
// ---------------------------------------------------------------------------

/// `[T]::join`: the pieces with `sep` between each two neighbours.
pub open spec fn join(parts: Seq<Seq<char>>, sep: Seq<char>) -> Seq<char>
    decreases parts.len(),
{
    if parts.len() == 0 {
        Seq::<char>::empty()
    } else if parts.len() == 1 {
        parts[0]
    } else {
        join(parts.drop_last(), sep) + sep + parts.last()
    }
}

/// Joins the pieces with `sep` between each two neighbours.
pub fn join_chars(parts: &Vec<Vec<char>>, sep: &Vec<char>) -> (r: Vec<char>)
    ensures
        r@ == join(views(parts@), sep@),
{
    let mut r: Vec<char> = Vec::new();
    let mut i: usize = 0;
    while i < parts.len()
        invariant
            i <= parts.len(),
            r@ == join(views(parts@).take(i as int), sep@),
        decreases parts.len() - i,
    {
        let ghost before = views(parts@).take(i as int);
        let ghost after = views(parts@).take(i + 1);
        assert(after.drop_last() =~= before);
        if i > 0 {
            extend_chars(&mut r, sep);
        }
        extend_chars(&mut r, &parts[i]);
        if i == 0 {
            assert(r@ =~= join(after, sep@));
        }
        i = i + 1;
    }
    assert(views(parts@).take(parts@.len() as int) =~= views(parts@));
    r
}

// ---------------------------------------------------------------------------
// White-space separated words
// ---------------------------------------------------------------------------

/// `str::split_whitespace`: the maximal runs of non-white-space characters.
pub open spec fn ws_words(s: Seq<char>) -> Seq<Seq<char>>
    decreases s.len(),
{
    if s.len() == 0 {
        Seq::<Seq<char>>::empty()
    } else {
        let w = ws_words(s.drop_last());
        let c = s.last();
        if is_ws(c) {
            w
        } else if s.len() >= 2 && !is_ws(s[s.len() - 2]) {
            w.update(w.len() - 1, w.last().push(c))
        } else {
            w.push(seq![c])
        }
    }
}

pub proof fn lemma_ws_words_shape(s: Seq<char>)
    ensures
        s.len() > 0 && !is_ws(s.last()) ==> ws_words(s).len() > 0,
        forall|i: int| 0 <= i < ws_words(s).len() ==> #[trigger] ws_words(s)[i].len() > 0,
    decreases s.len(),
{
    if s.len() > 0 {
        lemma_ws_words_shape(s.drop_last());
        let p = s.drop_last();
        if s.len() >= 2 && !is_ws(s[s.len() - 2]) {
            assert(p.last() == s[s.len() - 2]);
        }
    }
}

/// Splits `v` into its white-space separated words.
pub fn words_chars(v: &Vec<char>) -> (r: Vec<Vec<char>>)
    ensures
        views(r@) == ws_words(v@),
{
    let mut parts: Vec<Vec<char>> = Vec::new();
    let mut cur: Vec<char> = Vec::new();
    let mut in_word = false;
    let mut i: usize = 0;
    assert(v@.subrange(0, 0) =~= Seq::<char>::empty());
    assert(views(parts@) =~= ws_words(v@.subrange(0, 0)));
    while i < v.len()
        invariant
            i <= v.len(),
            in_word == (i > 0 && !is_ws(v@[i - 1])),
            in_word ==> views(parts@).push(cur@) == ws_words(v@.subrange(0, i as int)),
            !in_word ==> views(parts@) == ws_words(v@.subrange(0, i as int)),
        decreases v.len() - i,
    {
        let c = v[i];
        let ghost pre = v@.subrange(0, i as int);
        let ghost post = v@.subrange(0, i + 1);
        assert(post.drop_last() =~= pre);
        assert(post.last() == c);
        if i > 0 {
            assert(post[post.len() - 2] == v@[i - 1]);
        }
        if is_whitespace(c) {
            if in_word {
                let w = cur;
                parts.push(w);
                cur = Vec::new();
            }
            in_word = false;
        } else {
            if in_word {
                let ghost old_parts = parts@;
                let ghost old_cur = cur@;
                cur.push(c);
                assert(views(parts@).push(cur@) =~= views(old_parts).push(old_cur).update(
                    views(old_parts).len() as int,
                    old_cur.push(c),
                ));
            } else {
                cur = Vec::new();
                cur.push(c);
                assert(cur@ =~= seq![c]);
                assert(views(parts@).push(cur@) =~= ws_words(post));
            }
            in_word = true;
        }
        i = i + 1;
    }
    assert(v@.subrange(0, v@.len() as int) =~= v@);
    if in_word {
        parts.push(cur);
        assert(views(parts@) =~= ws_words(v@));
    }
    parts
}

/// `str::split_whitespace` followed by `join(" ")`.
pub open spec fn squeeze_ws(s: Seq<char>) -> Seq<char> {
    join(ws_words(s), seq![' '])
}

/// Collapses every run of white space to one space and drops it at both ends.
pub fn squeeze_ws_chars(v: &Vec<char>) -> (r: Vec<char>)
    ensures
        r@ == squeeze_ws(v@),
{
    let words = words_chars(v);
    let mut sep: Vec<char> = Vec::new();
    sep.push(' ');
    assert(sep@ =~= seq![' ']);
    join_chars(&words, &sep)
}

// ---------------------------------------------------------------------------
// Trimming
// ---------------------------------------------------------------------------

/// The number of leading white-space characters of `s`.
pub open spec fn lead_ws(s: Seq<char>) -> nat
    decreases s.len(),
{
    if s.len() == 0 || !is_ws(s[0]) {
        0
    } else {
        1 + lead_ws(s.drop_first())
    }
}

/// The number of trailing white-space characters of `s`.
pub open spec fn trail_ws(s: Seq<char>) -> nat
    decreases s.len(),
{
    if s.len() == 0 || !is_ws(s.last()) {
        0
    } else {
        1 + trail_ws(s.drop_last())
    }
}

/// `str::trim`: `s` without its leading and trailing white space.
pub open spec fn trim(s: Seq<char>) -> Seq<char> {
    let t = s.subrange(lead_ws(s) as int, s.len() as int);
    t.subrange(0, t.len() - trail_ws(t))
}

pub proof fn lemma_lead_ws(s: Seq<char>, k: int)
    requires
        0 <= k <= s.len(),
        forall|j: int| 0 <= j < k ==> is_ws(#[trigger] s[j]),
        k == s.len() || !is_ws(s[k]),
    ensures
        lead_ws(s) == k,
    decreases k,
{
    if k > 0 {
        let t = s.drop_first();
        assert forall|j: int| 0 <= j < k - 1 implies is_ws(#[trigger] t[j]) by {
            assert(t[j] == s[j + 1]);
        }
        if k < s.len() {
            assert(t[k - 1] == s[k]);
        }
        lemma_lead_ws(t, k - 1);
    }
}

pub proof fn lemma_trail_ws(s: Seq<char>, k: int)
    requires
        0 <= k <= s.len(),
        forall|j: int| s.len() - k <= j < s.len() ==> is_ws(#[trigger] s[j]),
        k == s.len() || !is_ws(s[s.len() - k - 1]),
    ensures
        trail_ws(s) == k,
    decreases k,
{
    if k > 0 {
        let t = s.drop_last();
        assert forall|j: int| t.len() - (k - 1) <= j < t.len() implies is_ws(#[trigger] t[j]) by {
            assert(t[j] == s[j]);
        }
        if k < s.len() {
            assert(t[t.len() - (k - 1) - 1] == s[s.len() - k - 1]);
        }
        lemma_trail_ws(t, k - 1);
    }
}

/// `v` without leading and trailing white space.
pub fn trim_chars(v: &Vec<char>) -> (r: Vec<char>)
    ensures
        r@ == trim(v@),
{
    let n = v.len();
    let mut a: usize = 0;
    while a < n && is_whitespace(v[a])
        invariant
            n == v@.len(),
            a <= n,
            forall|j: int| 0 <= j < a ==> is_ws(#[trigger] v@[j]),
        decreases n - a,
    {
        a = a + 1;
    }
    proof {
        lemma_lead_ws(v@, a as int);
    }
    let ghost t = v@.subrange(a as int, n as int);
    let mut b: usize = n;
    while b > a && is_whitespace(v[b - 1])
        invariant
            n == v@.len(),
            a <= b <= n,
            forall|j: int| b <= j < n ==> is_ws(#[trigger] v@[j]),
        decreases b - a,
    {
        b = b - 1;
    }
    proof {
        assert forall|j: int| t.len() - (n - b) <= j < t.len() implies is_ws(#[trigger] t[j]) by {
            assert(t[j] == v@[a + j]);
        }
        if b > a {
            assert(t[t.len() - (n - b) - 1] == v@[b - 1]);
        }
        lemma_trail_ws(t, (n - b) as int);
    }
    let mut r: Vec<char> = Vec::new();
    let mut i: usize = a;
    while i < b
        invariant
            n == v@.len(),
            a <= i <= b <= n,
            r@ == v@.subrange(a as int, i as int),
        decreases b - i,
    {
        r.push(v[i]);
        i = i + 1;
    }
    assert(r@ =~= trim(v@));
    r
}

// ---------------------------------------------------------------------------
// Facts about splitting and joining
// ---------------------------------------------------------------------------

/// Splitting at one delimiter splits both sides independently.
pub proof fn lemma_split_concat(a: Seq<char>, b: Seq<char>, d: char)
    ensures
        split_on(a + seq![d] + b, d) == split_on(a, d) + split_on(b, d),
    decreases b.len(),
{
    let s = a + seq![d] + b;
    if b.len() == 0 {
        assert(s.drop_last() =~= a);
        assert(split_on(s, d) =~= split_on(a, d) + split_on(b, d));
    } else {
        let b1 = b.drop_last();
        lemma_split_concat(a, b1, d);
        lemma_split_nonempty(b1, d);
        lemma_split_nonempty(a, d);
        assert(s.drop_last() =~= a + seq![d] + b1);
        assert(s.last() == b.last());
        assert(split_on(s, d) =~= split_on(a, d) + split_on(b, d));
    }
}

/// A piece without the delimiter splits into itself.
pub proof fn lemma_split_single(b: Seq<char>, d: char)
    requires
        forall|i: int| 0 <= i < b.len() ==> b[i] != d,
    ensures
        split_on(b, d) == seq![b],
    decreases b.len(),
{
    if b.len() > 0 {
        lemma_split_single(b.drop_last(), d);
        assert(b.drop_last().push(b.last()) =~= b);
        assert(split_on(b, d) =~= seq![b]);
    } else {
        assert(b =~= Seq::<char>::empty());
        assert(split_on(b, d) =~= seq![b]);
    }
}

/// No piece of a split holds the delimiter.
pub proof fn lemma_split_parts_clean(s: Seq<char>, d: char)
    ensures
        forall|i: int, j: int|
            0 <= i < split_on(s, d).len() && 0 <= j < split_on(s, d)[i].len() ==> split_on(s, d)[i][j]
                != d,
    decreases s.len(),
{
    if s.len() > 0 {
        lemma_split_parts_clean(s.drop_last(), d);
        lemma_split_nonempty(s.drop_last(), d);
    }
}

/// Joining the pieces of a split with the delimiter gives back the input.
pub proof fn lemma_join_split(s: Seq<char>, d: char)
    ensures
        join(split_on(s, d), seq![d]) == s,
    decreases s.len(),
{
    if s.len() > 0 {
        let s1 = s.drop_last();
        lemma_join_split(s1, d);
        lemma_split_nonempty(s1, d);
        let p = split_on(s1, d);
        if s.last() == d {
            let q = p.push(Seq::<char>::empty());
            assert(q.drop_last() =~= p);
            assert(join(q, seq![d]) =~= s);
        } else {
            let q = p.update(p.len() - 1, p.last().push(s.last()));
            if p.len() == 1 {
                assert(join(p, seq![d]) == p[0]);
                assert(join(q, seq![d]) == q[0]);
                assert(s =~= s1.push(s.last()));
                assert(q[0] == p[0].push(s.last()));
                assert(join(q, seq![d]) =~= s);
            } else {
                assert(q.drop_last() =~= p.drop_last());
                assert(join(q, seq![d]) == join(p.drop_last(), seq![d]) + seq![d] + q.last());
                assert(join(p, seq![d]) == join(p.drop_last(), seq![d]) + seq![d] + p.last());
                assert(q.last() == p.last().push(s.last()));
                assert(s =~= s1.push(s.last()));
                assert(join(q, seq![d]) =~= s);
            }
        }
    }
}

/// Joining two or more pieces is longer than joining all but the last.
pub proof fn lemma_join_drop_last_len(p: Seq<Seq<char>>, sep: Seq<char>)
    requires
        p.len() >= 2,
        sep.len() >= 1,
    ensures
        join(p.drop_last(), sep).len() < join(p, sep).len(),
{
}

// ---------------------------------------------------------------------------
// Small string builders
// ---------------------------------------------------------------------------

/// An owned copy of a string slice.
pub fn owned(s: &str) -> (r: String)
    ensures
        r@ == s@,
{
    let v = chars_of(s);
    string_of(&v)
}

/// The concatenation of two string slices.
pub fn concat2(a: &str, b: &str) -> (r: String)
    ensures
        r@ == a@ + b@,
{
    let mut v = chars_of(a);
    let w = chars_of(b);
    extend_chars(&mut v, &w);
    string_of(&v)
}

/// The concatenation of three string slices.
pub fn concat3(a: &str, b: &str, c: &str) -> (r: String)
    ensures
        r@ == a@ + b@ + c@,
{
    let mut v = chars_of(a);
    let w = chars_of(b);
    extend_chars(&mut v, &w);
    let x = chars_of(c);
    extend_chars(&mut v, &x);
    string_of(&v)
}

/// The views of a vector of strings.
pub open spec fn string_views(s: Seq<String>) -> Seq<Seq<char>> {
    s.map_values(|x: String| x@)
}

/// The characters of each string of a vector.
pub fn chars_of_all(v: &Vec<String>) -> (r: Vec<Vec<char>>)
    ensures
        views(r@) == string_views(v@),
{
    let mut r: Vec<Vec<char>> = Vec::new();
    let mut i: usize = 0;
    while i < v.len()
        invariant
            i <= v.len(),
            views(r@) == string_views(v@.subrange(0, i as int)),
        decreases v.len() - i,
    {
        let c = chars_of(v[i].as_str());
        let ghost old_r = r@;
        r.push(c);
        proof {
            assert(v@.subrange(0, i + 1) =~= v@.subrange(0, i as int).push(v@[i as int]));
            assert(views(r@) =~= views(old_r).push(v@[i as int]@));
            assert(string_views(v@.subrange(0, i + 1)) =~= string_views(v@.subrange(0, i as int)).push(v@[i as int]@));
        }
        i = i + 1;
    }
    assert(v@.subrange(0, v@.len() as int) =~= v@);
    r
}

/// Whether two vectors of strings hold the same strings in the same order.
pub fn strings_eq(a: &Vec<String>, b: &Vec<String>) -> (r: bool)
    ensures
        r == (string_views(a@) == string_views(b@)),
{
    if a.len() != b.len() {
        assert(string_views(a@).len() != string_views(b@).len());
        return false;
    }
    let mut i: usize = 0;
    while i < a.len()
        invariant
            a.len() == b.len(),
            i <= a.len(),
            forall|j: int| 0 <= j < i ==> a@[j]@ == b@[j]@,
        decreases a.len() - i,
    {
        let x = chars_of(a[i].as_str());
        let y = chars_of(b[i].as_str());
        if !chars_eq(&x, &y) {
            assert(string_views(a@)[i as int] != string_views(b@)[i as int]);
            return false;
        }
        i = i + 1;
    }
    assert(string_views(a@) =~= string_views(b@));
    true
}

/// Whether two strings are equal.
pub fn str_eq(a: &str, b: &str) -> (r: bool)
    ensures
        r == (a@ == b@),
{
    let x = chars_of(a);
    let y = chars_of(b);
    chars_eq(&x, &y)
}

// ---------------------------------------------------------------------------
// Prefixes and single characters
// ---------------------------------------------------------------------------

/// Whether `s` starts with `prefix`.
pub open spec fn has_prefix(s: Seq<char>, prefix: Seq<char>) -> bool {
    prefix.len() <= s.len() && s.subrange(0, prefix.len() as int) == prefix
}

/// Whether `s` starts with `prefix` (`str::starts_with`).
pub fn starts_with_str(s: &str, prefix: &str) -> (r: bool)
    ensures
        r == has_prefix(s@, prefix@),
{
    let v = chars_of(s);
    let p = chars_of(prefix);
    starts_with_chars(&v, &p)
}

/// `s` without `prefix`, if it starts with it (`str::strip_prefix`).
pub fn strip_prefix_str(s: &str, prefix: &str) -> (r: Option<String>)
    ensures
        match r {
            Some(t) => has_prefix(s@, prefix@) && t@ == s@.subrange(prefix@.len() as int, s@.len() as int),
            None => !has_prefix(s@, prefix@),
        },
{
    let v = chars_of(s);
    let p = chars_of(prefix);
    if starts_with_chars(&v, &p) {
        let rest = chars_from(&v, p.len());
        Some(string_of(&rest))
    } else {
        None
    }
}

/// A string of one character.
pub fn char_string(c: char) -> (r: String)
    ensures
        r@ == seq![c],
{
    let v: Vec<char> = vec![c];
    string_of(&v)
}

/// The first character of `s`, if it has one.
pub fn first_char(s: &str) -> (r: Option<char>)
    ensures
        r == (if s@.len() > 0 { Some(s@[0]) } else { None::<char> }),
{
    let v = chars_of(s);
    if v.len() > 0 {
        Some(v[0])
    } else {
        None
    }
}

} // verus!

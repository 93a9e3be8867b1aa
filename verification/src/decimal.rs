use vstd::prelude::*;

verus! {

/// The ASCII digit for `d` (below ten).
pub open spec fn digit_char(d: int) -> char {
    (d + 48) as char
}

/// Whether `c` is an ASCII digit.
pub open spec fn is_digit(c: char) -> bool {
    48 <= (c as u32) <= 57
}

/// The value of an ASCII digit.
pub open spec fn digit_value(c: char) -> int {
    (c as u32) - 48
}

/// The decimal spelling of `n`, without leading zeros.
pub open spec fn dec(n: nat) -> Seq<char>
    decreases n,
{
    if n < 10 {
        seq![digit_char(n as int)]
    } else {
        dec(n / 10).push(digit_char((n % 10) as int))
    }
}

/// The decimal spelling of an integer, with `-` in front of negatives
/// (what `{}` prints for an integer).
pub open spec fn int_str(i: int) -> Seq<char> {
    if i < 0 {
        seq!['-'] + dec((-i) as nat)
    } else {
        dec(i as nat)
    }
}

/// Whether every character of `s` is an ASCII digit.
pub open spec fn all_digits(s: Seq<char>) -> bool {
    forall|i: int| 0 <= i < s.len() ==> is_digit(#[trigger] s[i])
}

/// The value of a string of digits, read in base ten.
pub open spec fn digits_value(s: Seq<char>) -> nat
    decreases s.len(),
{
    if s.len() == 0 {
        0
    } else {
        (digits_value(s.drop_last()) * 10 + digit_value(s.last())) as nat
    }
}

/// What `str::parse` gives for an unsigned type whose largest value is `max`.
pub open spec fn parse_unsigned(s: Seq<char>, max: int) -> Option<int> {
    let d = if s.len() > 0 && s[0] == '+' {
        s.drop_first()
    } else {
        s
    };
    if d.len() > 0 && all_digits(d) && digits_value(d) <= max {
        Some(digits_value(d) as int)
    } else {
        None
    }
}

/// What `str::parse` gives for a signed type ranging over `min ..= max`.
pub open spec fn parse_signed(s: Seq<char>, min: int, max: int) -> Option<int> {
    if s.len() > 0 && s[0] == '-' {
        let d = s.drop_first();
        if d.len() > 0 && all_digits(d) && -(digits_value(d) as int) >= min {
            Some(-(digits_value(d) as int))
        } else {
            None
        }
    } else {
        parse_unsigned(s, max)
    }
}

pub proof fn lemma_dec_digits(n: nat)
    ensures
        all_digits(dec(n)),
        dec(n).len() > 0,
        digits_value(dec(n)) == n,
        dec(n)[0] != '+',
        dec(n)[0] != '-',
    decreases n,
{
    let last = (n % 10) as int;
    assert(digit_value(digit_char(last)) == last);
    assert(is_digit(digit_char(last)));
    if n >= 10 {
        lemma_dec_digits(n / 10);
        let s = dec(n);
        assert(s.last() == digit_char(last));
        assert(s.drop_last() =~= dec(n / 10));
        assert forall|i: int| 0 <= i < s.len() implies is_digit(#[trigger] s[i]) by {
            if i < s.len() - 1 {
                assert(s[i] == dec(n / 10)[i]);
            }
        }
        assert(s[0] == dec(n / 10)[0]);
        assert(digits_value(s) == digits_value(s.drop_last()) * 10 + digit_value(s.last()));
        assert(n == (n / 10) * 10 + n % 10);
    } else {
        let s = dec(n);
        assert(s.drop_last() =~= Seq::<char>::empty());
        assert(digits_value(s) == digits_value(s.drop_last()) * 10 + digit_value(s.last()));
    }
}

pub proof fn lemma_digits_value_monotone(s: Seq<char>, k: int)
    requires
        0 <= k <= s.len(),
        all_digits(s),
    ensures
        digits_value(s.subrange(0, k)) <= digits_value(s),
    decreases s.len() - k,
{
    if k < s.len() {
        lemma_digits_value_monotone(s.drop_last(), k);
        assert(s.drop_last().subrange(0, k) =~= s.subrange(0, k));
        assert(is_digit(s[s.len() - 1]));
    } else {
        assert(s.subrange(0, k) =~= s);
    }
}

/// Roundtrip: parsing the decimal spelling of a value in range gives it back.
pub proof fn lemma_parse_unsigned_dec(n: nat, max: int)
    requires
        n <= max,
    ensures
        parse_unsigned(dec(n), max) == Some(n as int),
{
    lemma_dec_digits(n);
}

/// Roundtrip: parsing the spelling of an integer in range gives it back.
pub proof fn lemma_parse_signed_int_str(i: int, min: int, max: int)
    requires
        min <= i <= max,
    ensures
        parse_signed(int_str(i), min, max) == Some(i),
{
    if i < 0 {
        lemma_dec_digits((-i) as nat);
        assert((seq!['-'] + dec((-i) as nat)).drop_first() =~= dec((-i) as nat));
    } else {
        lemma_dec_digits(i as nat);
    }
}

/// The decimal spelling of an unsigned value.
pub fn format_u64(n: u64) -> (r: Vec<char>)
    ensures
        r@ == dec(n as nat),
    decreases n,
{
    if n < 10 {
        let mut r: Vec<char> = Vec::new();
        let c = ((n as u8) + 48u8) as char;
        r.push(c);
        assert(r@ =~= dec(n as nat));
        r
    } else {
        let mut r = format_u64(n / 10);
        let c = (((n % 10) as u8) + 48u8) as char;
        r.push(c);
        assert(r@ =~= dec(n as nat));
        r
    }
}

/// The decimal spelling of a signed value, with `-` in front of negatives.
pub fn format_i64(i: i64) -> (r: Vec<char>)
    ensures
        r@ == int_str(i as int),
{
    if i < 0 {
        let m: u64 = if i == i64::MIN {
            9223372036854775808u64
        } else {
            (-i) as u64
        };
        let d = format_u64(m);
        let mut r: Vec<char> = Vec::new();
        r.push('-');
        let mut k: usize = 0;
        while k < d.len()
            invariant
                k <= d.len(),
                r@ == seq!['-'] + d@.subrange(0, k as int),
            decreases d.len() - k,
        {
            r.push(d[k]);
            k = k + 1;
        }
        assert(d@.subrange(0, d@.len() as int) =~= d@);
        r
    } else {
        format_u64(i as u64)
    }
}

/// Reads the digits of `v` from `start` on as a base-ten number no larger
/// than `limit`; `None` when there are none, a non-digit, or the value is
/// larger.
pub fn parse_digits_from(v: &Vec<char>, start: usize, limit: u64) -> (r: Option<u64>)
    requires
        start <= v@.len(),
    ensures
        ({
            let d = v@.subrange(start as int, v@.len() as int);
            r == (if d.len() > 0 && all_digits(d) && digits_value(d) <= limit {
                Some(digits_value(d) as u64)
            } else {
                None::<u64>
            })
        }),
{
    let ghost d = v@.subrange(start as int, v@.len() as int);
    if start == v.len() {
        return None;
    }
    let mut val: u64 = 0;
    let mut i: usize = start;
    assert(d.subrange(0, 0) =~= Seq::<char>::empty());
    while i < v.len()
        invariant
            start <= i <= v.len(),
            d == v@.subrange(start as int, v@.len() as int),
            all_digits(d.subrange(0, i - start)),
            val as nat == digits_value(d.subrange(0, i - start)),
            val <= limit,
        decreases v.len() - i,
    {
        let c = v[i];
        let ghost pre = d.subrange(0, i - start);
        let ghost post = d.subrange(0, i - start + 1);
        assert(post.drop_last() =~= pre);
        assert(post.last() == c);
        let u = c as u32;
        if u < 48 || u > 57 {
            assert(!is_digit(d[i - start]));
            return None;
        }
        let dv = (u - 48) as u64;
        if dv > limit || val > (limit - dv) / 10 {
            proof {
                assert(val * 10 + dv > limit) by (nonlinear_arith)
                    requires
                        val > (limit - dv) / 10 || dv > limit,
                        dv <= 9,
                ;
                assert forall|j: int| 0 <= j < post.len() implies is_digit(#[trigger] post[j]) by {
                    if j < pre.len() {
                        assert(post[j] == pre[j]);
                    }
                }
                if all_digits(d) {
                    lemma_digits_value_monotone(d, i - start + 1);
                }
            }
            return None;
        }
        proof {
            assert(val * 10 + dv <= limit) by (nonlinear_arith)
                requires
                    val <= (limit - dv) / 10,
                    dv <= limit,
            ;
            assert forall|j: int| 0 <= j < post.len() implies is_digit(#[trigger] post[j]) by {
                if j < pre.len() {
                    assert(post[j] == pre[j]);
                }
            }
        }
        val = val * 10 + dv;
        i = i + 1;
    }
    assert(d.subrange(0, d.len() as int) =~= d);
    Some(val)
}

/// `str::parse` for an unsigned type whose largest value is `max`.
pub fn parse_unsigned_chars(v: &Vec<char>, max: u64) -> (r: Option<u64>)
    ensures
        r.is_some() == parse_unsigned(v@, max as int).is_some(),
        r.is_some() ==> r.unwrap() as int == parse_unsigned(v@, max as int).unwrap(),
{
    if v.len() > 0 && v[0] == '+' {
        assert(v@.subrange(1, v@.len() as int) =~= v@.drop_first());
        parse_digits_from(v, 1, max)
    } else {
        assert(v@.subrange(0, v@.len() as int) =~= v@);
        parse_digits_from(v, 0, max)
    }
}

/// `str::parse::<u8>`.
pub fn parse_u8(v: &Vec<char>) -> (r: Option<u8>)
    ensures
        r.is_some() == parse_unsigned(v@, 255).is_some(),
        r.is_some() ==> r.unwrap() as int == parse_unsigned(v@, 255).unwrap(),
{
    match parse_unsigned_chars(v, 255) {
        Some(x) => Some(x as u8),
        None => None,
    }
}

/// `str::parse::<u16>`.
pub fn parse_u16(v: &Vec<char>) -> (r: Option<u16>)
    ensures
        r.is_some() == parse_unsigned(v@, 65535).is_some(),
        r.is_some() ==> r.unwrap() as int == parse_unsigned(v@, 65535).unwrap(),
{
    match parse_unsigned_chars(v, 65535) {
        Some(x) => Some(x as u16),
        None => None,
    }
}

/// `str::parse::<i64>`.
pub fn parse_i64(v: &Vec<char>) -> (r: Option<i64>)
    ensures
        r.is_some() == parse_signed(v@, i64::MIN as int, i64::MAX as int).is_some(),
        r.is_some() ==> r.unwrap() as int == parse_signed(
            v@,
            i64::MIN as int,
            i64::MAX as int,
        ).unwrap(),
{
    if v.len() > 0 && v[0] == '-' {
        assert(v@.subrange(1, v@.len() as int) =~= v@.drop_first());
        match parse_digits_from(v, 1, 9223372036854775808u64) {
            Some(m) => {
                if m == 9223372036854775808u64 {
                    Some(i64::MIN)
                } else {
                    Some(-(m as i64))
                }
            },
            None => None,
        }
    } else {
        match parse_unsigned_chars(v, 9223372036854775807u64) {
            Some(x) => Some(x as i64),
            None => None,
        }
    }
}

/// What `str::parse::<i32>` (or any signed type from `min` to `max`) gives:
/// the value, or the message of the `ParseIntError`. The digits are read
/// from the left; the first non-digit, or the first digit that takes the
/// value out of range, decides the error.
pub open spec fn int_parse(s: Seq<char>, min: int, max: int) -> Result<int, Seq<char>> {
    if s.len() == 0 {
        Err("cannot parse integer from empty string"@)
    } else if (s[0] == '+' || s[0] == '-') && s.len() == 1 {
        Err("invalid digit found in string"@)
    } else {
        let neg = s[0] == '-';
        let d = if s[0] == '+' || s[0] == '-' { s.drop_first() } else { s };
        let lim = if neg { -min } else { max };
        let over = if neg {
            "number too small to fit in target type"@
        } else {
            "number too large to fit in target type"@
        };
        if all_digits(d) {
            if digits_value(d) <= lim {
                Ok(if neg { -digits_value(d) } else { digits_value(d) as int })
            } else {
                Err(over)
            }
        } else {
            if digits_value(d.take(first_non_digit(d))) <= lim {
                Err("invalid digit found in string"@)
            } else {
                Err(over)
            }
        }
    }
}

/// Whether `r` is what `int_parse` gives, the error as a string.
pub open spec fn parse_outcome(r: Result<i32, String>, s: Seq<char>) -> bool {
    match (r, int_parse(s, i32::MIN as int, i32::MAX as int)) {
        (Ok(v), Ok(w)) => v as int == w,
        (Err(e), Err(m)) => e@ == m,
        _ => false,
    }
}

/// The position of the first non-digit of `t`, when there is one.
pub open spec fn first_non_digit(t: Seq<char>) -> int {
    choose|k: int| 0 <= k < t.len() && all_digits(t.take(k)) && !is_digit(t[k])
}

proof fn lemma_first_non_digit(t: Seq<char>, j: int)
    requires
        0 <= j < t.len(),
        all_digits(t.take(j)),
        !is_digit(t[j]),
    ensures
        !all_digits(t),
        first_non_digit(t) == j,
{
    assert(!is_digit(t[j]));
    let k = first_non_digit(t);
    assert(0 <= k < t.len() && all_digits(t.take(k)) && !is_digit(t[k]));
    if k < j {
        assert(t.take(j)[k] == t[k]);
    } else if k > j {
        assert(t.take(k)[j] == t[j]);
    }
}

proof fn lemma_prefix_over(t: Seq<char>, j: int, lim: int)
    requires
        0 <= j < t.len(),
        all_digits(t.take(j + 1)),
        digits_value(t.take(j + 1)) > lim,
    ensures
        all_digits(t) ==> digits_value(t) > lim,
        !all_digits(t) ==> first_non_digit(t) > j && digits_value(t.take(first_non_digit(t)))
            > lim,
{
    if all_digits(t) {
        lemma_digits_value_monotone(t, j + 1);
        assert(t.subrange(0, j + 1) =~= t.take(j + 1));
    } else {
        let k = first_non_digit(t);
        assert(exists|k: int| 0 <= k < t.len() && all_digits(t.take(k)) && !is_digit(t[k])) by {
            let w = choose|w: int| 0 <= w < t.len() && !is_digit(t[w]);
            lemma_first_non_digit_exists(t, w);
        }
        assert(0 <= k < t.len() && all_digits(t.take(k)) && !is_digit(t[k]));
        if k <= j {
            assert(t.take(j + 1)[k] == t[k]);
        }
        lemma_digits_value_monotone(t.take(k), j + 1);
        assert(t.take(k).subrange(0, j + 1) =~= t.take(j + 1));
    }
}

proof fn lemma_first_non_digit_exists(t: Seq<char>, w: int)
    requires
        0 <= w < t.len(),
        !is_digit(t[w]),
    ensures
        exists|k: int| 0 <= k < t.len() && all_digits(t.take(k)) && !is_digit(t[k]),
    decreases w,
{
    if all_digits(t.take(w)) {
        assert(0 <= w < t.len() && all_digits(t.take(w)) && !is_digit(t[w]));
    } else {
        let v = choose|v: int| 0 <= v < w && !is_digit(#[trigger] t.take(w)[v]);
        assert(t.take(w)[v] == t[v]);
        lemma_first_non_digit_exists(t, v);
    }
}

proof fn lemma_digits_step(pre: Seq<char>, post: Seq<char>, c: char)
    requires
        all_digits(pre),
        is_digit(c),
        post == pre.push(c),
    ensures
        all_digits(post),
        digits_value(post) == digits_value(pre) * 10 + digit_value(c),
{
    assert(post.drop_last() =~= pre);
    assert forall|m: int| 0 <= m < post.len() implies is_digit(#[trigger] post[m]) by {
        if m < pre.len() {
            assert(post[m] == pre[m]);
        }
    }
}

/// Reads the digits of `d` from `start` on, stopping at the first non-digit
/// or at the first digit that makes the value exceed `lim`.
/// Gives the value, or `Err(true)` for a non-digit, `Err(false)` for a
/// value out of range.
fn scan_digits(d: &Vec<char>, start: usize, lim: u64) -> (r: Result<u64, bool>)
    requires
        start < d@.len(),
    ensures
        ({
            let t = d@.subrange(start as int, d@.len() as int);
            match r {
                Ok(v) => all_digits(t) && digits_value(t) <= lim && v as nat == digits_value(t),
                Err(bad) => if all_digits(t) {
                    !bad && digits_value(t) > lim
                } else {
                    bad == (digits_value(t.take(first_non_digit(t))) <= lim)
                },
            }
        }),
{
    let ghost t = d@.subrange(start as int, d@.len() as int);
    let mut val: u64 = 0;
    let mut i: usize = start;
    assert(t.take(0) =~= Seq::<char>::empty());
    while i < d.len()
        invariant
            start <= i <= d.len(),
            t == d@.subrange(start as int, d@.len() as int),
            all_digits(t.take(i - start)),
            val as nat == digits_value(t.take(i - start)),
            val <= lim,
        decreases d.len() - i,
    {
        let j: usize = i - start;
        let c = d[i];
        assert(c == t[j as int]);
        assert(t.take(j + 1) =~= t.take(j as int).push(c));
        let u = c as u32;
        if u < 48 || u > 57 {
            proof {
                lemma_first_non_digit(t, j as int);
            }
            return Err(true);
        }
        let dv = (u - 48) as u64;
        proof {
            lemma_digits_step(t.take(j as int), t.take(j + 1), c);
        }
        if dv > lim || val > (lim - dv) / 10 {
            proof {
                assert(val * 10 + dv > lim) by (nonlinear_arith)
                    requires
                        val > (lim - dv) / 10 || dv > lim,
                        dv <= 9,
                ;
                lemma_prefix_over(t, j as int, lim as int);
            }
            return Err(false);
        }
        proof {
            assert(val * 10 + dv <= lim) by (nonlinear_arith)
                requires
                    val <= (lim - dv) / 10,
                    dv <= lim,
            ;
        }
        val = val * 10 + dv;
        i = i + 1;
    }
    assert(t.take(t.len() as int) =~= t);
    Ok(val)
}

/// `str::parse::<i32>`: the value, or the message of the error.
pub fn parse_i32_text(s: &str) -> (r: Result<i32, String>)
    ensures
        parse_outcome(r, s@),
{
    let v = crate::text::chars_of(s);
    if v.len() == 0 {
        return Err(crate::text::owned("cannot parse integer from empty string"));
    }
    let c = v[0];
    if (c == '+' || c == '-') && v.len() == 1 {
        return Err(crate::text::owned("invalid digit found in string"));
    }
    let neg = c == '-';
    let start: usize = if c == '+' || c == '-' { 1 } else { 0 };
    assert(v@.subrange(start as int, v@.len() as int) =~= (if c == '+' || c == '-' {
        v@.drop_first()
    } else {
        v@
    }));
    let lim: u64 = if neg { 2147483648 } else { 2147483647 };
    match scan_digits(&v, start, lim) {
        Ok(n) => {
            if neg {
                Ok((0 - (n as i64)) as i32)
            } else {
                Ok(n as i32)
            }
        },
        Err(bad) => {
            if bad {
                Err(crate::text::owned("invalid digit found in string"))
            } else if neg {
                Err(crate::text::owned("number too small to fit in target type"))
            } else {
                Err(crate::text::owned("number too large to fit in target type"))
            }
        },
    }
}

} // verus!

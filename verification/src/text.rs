//! Character-level text helpers: whitespace, decimal rendering and parsing
//! of unsigned integers, and string building.

use vstd::prelude::*;

verus! {

/// The chars of `s`, in order.
pub fn chars_of(s: &str) -> (v: Vec<char>)
    ensures
        v@ == s@,
{
    let mut v: Vec<char> = Vec::new();
    for c in it: s.chars()
        invariant
            v@ == it.seq().take(it.index()),
            it.seq() == s@,
    {
        v.push(c);
    }
    v
}

/// `String::push`: appends one char.
#[verifier::external_body]
pub(crate) fn push_char(s: &mut String, c: char)
    ensures
        final(s)@ == old(s)@.push(c),
{
    s.push(c);
}

/// A string holding exactly the chars of `cs`.
pub fn string_from_chars(cs: &[char]) -> (s: String)
    ensures
        s@ == cs@,
{
    let mut s = String::new();
    for i in 0..cs.len()
        invariant
            s@ == cs@.take(i as int),
    {
        push_char(&mut s, cs[i]);
        assert(cs@.take(i + 1) == cs@.take(i as int).push(cs@[i as int]));
    }
    assert(cs@.take(cs@.len() as int) == cs@);
    s
}

/// Unicode's `White_Space` property: the chars that `\s` matches in a
/// regular expression and that `char::is_whitespace` accepts.
pub open spec fn is_white_space(c: char) -> bool {
    let u = c as u32;
    ||| 0x09 <= u <= 0x0d
    ||| u == 0x20
    ||| u == 0x85
    ||| u == 0xa0
    ||| u == 0x1680
    ||| 0x2000 <= u <= 0x200a
    ||| u == 0x2028
    ||| u == 0x2029
    ||| u == 0x202f
    ||| u == 0x205f
    ||| u == 0x3000
}

/// Decides `is_white_space`.
pub fn white_space(c: char) -> (r: bool)
    ensures
        r == is_white_space(c),
{
    let u = c as u32;
    (0x09 <= u && u <= 0x0d) || u == 0x20 || u == 0x85 || u == 0xa0 || u == 0x1680 || (0x2000
        <= u && u <= 0x200a) || u == 0x2028 || u == 0x2029 || u == 0x202f || u == 0x205f || u
        == 0x3000
}

pub open spec fn is_ascii_digit(c: char) -> bool {
    '0' <= c && c <= '9'
}

pub open spec fn all_ascii_digits(s: Seq<char>) -> bool {
    forall|i: int| 0 <= i < s.len() ==> is_ascii_digit(#[trigger] s[i])
}

/// The char of the decimal digit `d` (for `d < 10`).
pub open spec fn digit_char(d: nat) -> char {
    (48 + d) as char
}

/// The value of a numeral made of ASCII digits, most significant first.
pub open spec fn digits_value(s: Seq<char>) -> nat
    decreases s.len(),
{
    if s.len() == 0 {
        0
    } else {
        digits_value(s.drop_last()) * 10 + ((s.last() as u32) - 48) as nat
    }
}

/// The decimal numeral of `n`: no sign, no leading zeros, `"0"` for zero.
/// This is what `{}` prints for an unsigned integer.
pub open spec fn decimal(n: nat) -> Seq<char>
    decreases n,
{
    if n < 10 {
        seq![digit_char(n)]
    } else {
        decimal(n / 10).push(digit_char(n % 10))
    }
}

/// What `str::parse::<u32>` accepts: an optional `+`, then one or more
/// ASCII digits whose value fits in a `u32`.
pub open spec fn parse_u32_spec(s: Seq<char>) -> Option<u32> {
    let d = if s.len() > 0 && s[0] == '+' { s.drop_first() } else { s };
    if d.len() > 0 && all_ascii_digits(d) && digits_value(d) <= u32::MAX {
        Some(digits_value(d) as u32)
    } else {
        None
    }
}

/// Appends the decimal numeral of `n` to `s`.
pub fn push_decimal(s: &mut String, n: u64)
    ensures
        final(s)@ == old(s)@ + decimal(n as nat),
    decreases n,
{
    if n >= 10 {
        push_decimal(s, n / 10);
    }
    let d = (n % 10) as u8;
    let c = (48u8 + d) as char;
    assert(c == digit_char((n % 10) as nat));
    push_char(s, c);
    proof {
        if n < 10 {
            assert(old(s)@ + decimal(n as nat) == old(s)@.push(c));
        } else {
            assert(decimal(n as nat) == decimal((n / 10) as nat).push(c));
        }
    }
}

/// The decimal numeral of `n` as a string (`n.to_string()`).
pub fn decimal_string(n: u64) -> (s: String)
    ensures
        s@ == decimal(n as nat),
{
    let mut s = String::new();
    push_decimal(&mut s, n);
    assert(s@ == Seq::<char>::empty() + decimal(n as nat));
    s
}

proof fn lemma_digits_value_prefix_grows(d: Seq<char>, i: int, j: int)
    requires
        0 <= i <= j <= d.len(),
    ensures
        digits_value(d.take(i)) <= digits_value(d.take(j)),
    decreases j - i,
{
    if i < j {
        lemma_digits_value_prefix_grows(d, i, j - 1);
        assert(d.take(j).drop_last() == d.take(j - 1));
    }
}

/// `str::parse::<u32>`, as `Option`.
pub fn parse_u32(s: &str) -> (r: Option<u32>)
    ensures
        r == parse_u32_spec(s@),
{
    let cs = chars_of(s);
    let start: usize = if cs.len() > 0 && cs[0] == '+' { 1 } else { 0 };
    let ghost d = if s@.len() > 0 && s@[0] == '+' { s@.drop_first() } else { s@ };
    assert(d == cs@.skip(start as int));
    if start >= cs.len() {
        return None;
    }
    let mut acc: u64 = 0;
    let mut i: usize = start;
    while i < cs.len()
        invariant
            start <= i <= cs.len(),
            d == cs@.skip(start as int),
            cs@ == s@,
            d == (if s@.len() > 0 && s@[0] == '+' { s@.drop_first() } else { s@ }),
            acc as nat == digits_value(d.take(i - start)),
            acc <= u32::MAX,
            all_ascii_digits(d.take(i - start)),
        decreases cs.len() - i,
    {
        let c = cs[i];
        if !('0' <= c && c <= '9') {
            assert(d[i - start] == c);
            assert(!is_ascii_digit(d[i - start]));
            assert(!all_ascii_digits(d));
            return None;
        }
        let next: u64 = acc * 10 + ((c as u32) - 48) as u64;
        assert(d.take(i + 1 - start).drop_last() == d.take(i - start));
        assert(d.take(i + 1 - start).last() == c);
        assert(next as nat == digits_value(d.take(i + 1 - start)));
        if next > 0xffff_ffff {
            proof {
                lemma_digits_value_prefix_grows(d, i + 1 - start, d.len() as int);
                assert(d.take(d.len() as int) == d);
                assert(digits_value(d) > u32::MAX);
            }
            return None;
        }
        acc = next;
        i = i + 1;
    }
    assert(d.take(d.len() as int) == d);
    Some(acc as u32)
}

/// Every numeral `decimal(n)` is made of ASCII digits and has value `n`.
pub proof fn lemma_decimal_digits(n: nat)
    ensures
        decimal(n).len() > 0,
        all_ascii_digits(decimal(n)),
        digits_value(decimal(n)) == n,
        is_ascii_digit(decimal(n)[0]),
    decreases n,
{
    assert((n % 10) < 10);
    assert(digit_char(n % 10) as u32 == 48 + n % 10);
    if n < 10 {
        assert(decimal(n).drop_last().len() == 0);
        assert(digits_value(decimal(n).drop_last()) == 0);
    } else {
        assert(n == (n / 10) * 10 + n % 10);
        lemma_decimal_digits(n / 10);
        let p = decimal(n / 10);
        assert(decimal(n).drop_last() == p);
        assert(decimal(n).last() == digit_char(n % 10));
        assert(digits_value(decimal(n)) == digits_value(p) * 10 + n % 10);
        assert(forall|i: int| 0 <= i < p.len() ==> decimal(n)[i] == p[i]);
    }
}

/// Parsing what `decimal_string` prints gives the number back.
pub proof fn law_parse_decimal_roundtrip(n: u32)
    ensures
        parse_u32_spec(decimal(n as nat)) == Some(n),
{
    lemma_decimal_digits(n as nat);
}

/// `s` with every double quote taken out (`str::replace("\"", "")`).
pub open spec fn without_quotes(s: Seq<char>) -> Seq<char>
    decreases s.len(),
{
    if s.len() == 0 {
        s
    } else if s.last() == '"' {
        without_quotes(s.drop_last())
    } else {
        without_quotes(s.drop_last()).push(s.last())
    }
}

/// Takes every double quote out of `s`.
pub fn remove_quotes(s: &str) -> (r: String)
    ensures
        r@ == without_quotes(s@),
{
    let cs = chars_of(s);
    let mut r = String::new();
    for i in 0..cs.len()
        invariant
            cs@ == s@,
            r@ == without_quotes(cs@.take(i as int)),
    {
        assert(cs@.take(i + 1).drop_last() == cs@.take(i as int));
        if cs[i] != '"' {
            push_char(&mut r, cs[i]);
        }
    }
    assert(cs@.take(cs@.len() as int) == cs@);
    r
}

/// Law: what `remove_quotes` gives holds no double quote, taking the quotes
/// out once more changes nothing, and a text without quotes is kept as it is.
pub proof fn law_without_quotes(s: Seq<char>)
    ensures
        forall|k: int| 0 <= k < without_quotes(s).len() ==> without_quotes(s)[k] != '"',
        without_quotes(without_quotes(s)) == without_quotes(s),
        (forall|k: int| 0 <= k < s.len() ==> s[k] != '"') ==> without_quotes(s) == s,
    decreases s.len(),
{
    if s.len() > 0 {
        law_without_quotes(s.drop_last());
        let w = without_quotes(s.drop_last());
        if s.last() != '"' {
            assert(w.push(s.last()).drop_last() == w);
        }
        if forall|k: int| 0 <= k < s.len() ==> s[k] != '"' {
            assert(s.last() == s[s.len() - 1]);
            assert(s.drop_last().push(s.last()) == s);
        }
    }
}

} // verus!

verus! {

/// Law: a number parses from its numeral, also after a `+` sign or a
/// leading zero.
pub proof fn law_parse_u32_accepts_numerals(n: u32)
    ensures
        parse_u32_spec(decimal(n as nat)) == Some(n),
        parse_u32_spec(seq!['+'] + decimal(n as nat)) == Some(n),
        parse_u32_spec(seq!['0'] + decimal(n as nat)) == Some(n),
{
    lemma_decimal_digits(n as nat);
    let d = decimal(n as nat);
    assert((seq!['+'] + d).drop_first() =~= d);
    let z = seq!['0'] + d;
    assert(z[0] != '+');
    assert(all_ascii_digits(z));
    lemma_leading_zero(d);
}

proof fn lemma_leading_zero(d: Seq<char>)
    ensures
        digits_value(seq!['0'] + d) == digits_value(d),
    decreases d.len(),
{
    if d.len() == 0 {
        assert((seq!['0'] + d).drop_last() =~= Seq::<char>::empty());
        assert(digits_value(Seq::<char>::empty()) == 0);
        assert((seq!['0'] + d).last() == '0');
        assert(('0' as u32) == 48);
    } else {
        assert((seq!['0'] + d).last() == d.last());
        assert((seq!['0'] + d).drop_last() =~= seq!['0'] + d.drop_last());
        lemma_leading_zero(d.drop_last());
    }
}

/// Law: what parses is made of ASCII digits only, after at most one leading
/// `+`; anything else (a sign alone, a minus, a space, a letter) is refused.
pub proof fn law_parse_u32_refuses_other_text(s: Seq<char>)
    ensures
        parse_u32_spec(s) is Some ==> s.len() > 0 && s != seq!['+'] && forall|i: int|
            (if s[0] == '+' {
                1int
            } else {
                0int
            }) <= i < s.len() ==> is_ascii_digit(#[trigger] s[i]),
{
    if parse_u32_spec(s) is Some && s.len() > 0 && s[0] == '+' {
        let d = s.drop_first();
        assert forall|i: int| 1 <= i < s.len() implies is_ascii_digit(#[trigger] s[i]) by {
            assert(s[i] == d[i - 1]);
        }
    }
}

} // verus!

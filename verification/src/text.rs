use vstd::prelude::*;
use vstd::string::StringSliceAdditionalSpecFns;

verus! {

/// The character of a decimal digit.
pub open spec fn digit_char(d: nat) -> char {
    ((d + 48) as u8) as char
}

/// The decimal digits of `n`, most significant first, without leading zeros
/// (zero is written `0`).
pub open spec fn decimal(n: nat) -> Seq<char>
    decreases n,
{
    if n < 10 {
        seq![digit_char(n)]
    } else {
        decimal(n / 10).push(digit_char(n % 10))
    }
}

/// The number that a run of decimal digit characters writes.
pub open spec fn chars_value(s: Seq<char>) -> nat
    decreases s.len(),
{
    if s.len() == 0 {
        0
    } else {
        chars_value(s.drop_last()) * 10 + ((s.last() as int) - 48) as nat
    }
}

/// The decimal text of `n` is made of digits and reads back as `n`.
pub proof fn lemma_decimal_value(n: nat)
    ensures
        decimal(n).len() > 0,
        forall|i: int| 0 <= i < decimal(n).len() ==> '0' <= #[trigger] decimal(n)[i] <= '9',
        chars_value(decimal(n)) == n,
    decreases n,
{
    if n >= 10 {
        lemma_decimal_value(n / 10);
        let d = decimal(n);
        assert(d.drop_last() =~= decimal(n / 10));
        assert(forall|i: int| 0 <= i < d.len() - 1 ==> d[i] == decimal(n / 10)[i]);
    }
    let d = decimal(n);
    assert(digit_char(n % 10) as int == (n % 10) + 48);
    if n < 10 {
        assert(d.drop_last() =~= Seq::<char>::empty());
        assert(d.last() == digit_char(n));
        assert(chars_value(d.drop_last()) == 0);
        assert(chars_value(d) == n);
    } else {
        assert(d.last() == digit_char(n % 10));
        assert(chars_value(d) == chars_value(decimal(n / 10)) * 10 + n % 10);
        assert(chars_value(decimal(n / 10)) == n / 10);
        assert(n == (n / 10) * 10 + n % 10);
    }
}

/// Appends one character to a string with `String::push`. The contract
/// claims what its documentation says: the string afterwards is the old one
/// with `c` at its end.
#[verifier::external_body]
pub(crate) fn push_char(s: &mut String, c: char)
    ensures
        final(s)@ == old(s)@.push(c),
{
    s.push(c);
}

/// Appends the decimal digits of `n` to `s`.
pub fn push_decimal(s: &mut String, n: u64)
    ensures
        final(s)@ == old(s)@ + decimal(n as nat),
    decreases n,
{
    if n >= 10 {
        push_decimal(s, n / 10);
    }
    let d: u8 = (n % 10) as u8;
    push_char(s, (d + 48) as char);
    assert(s@ =~= old(s)@ + decimal(n as nat));
}

/// The characters of `s`, in order.
pub fn chars_of(s: &str) -> (v: Vec<char>)
    ensures
        v@ == s@,
{
    let mut v: Vec<char> = Vec::new();
    for c in it: s.chars()
        invariant
            v@ == it.seq().take(it.index() as int),
    {
        v.push(c);
    }
    v
}

/// A string made of the first `n` characters of `cs`.
pub fn string_of_prefix(cs: &Vec<char>, n: usize) -> (s: String)
    requires
        n <= cs@.len(),
    ensures
        s@ == cs@.take(n as int),
{
    let mut s = String::new();
    let mut i: usize = 0;
    while i < n
        invariant
            i <= n <= cs@.len(),
            s@ == cs@.take(i as int),
        decreases n - i,
    {
        push_char(&mut s, cs[i]);
        i = i + 1;
        assert(s@ =~= cs@.take(i as int));
    }
    s
}

/// What follows the first `skip` bytes of `content`, or `None` when the text
/// is shorter or byte `skip` falls inside a character (where slicing the
/// text there would panic).
pub fn argument_after(content: &str, skip: usize) -> (a: Option<&str>)
    ensures
        a is Some <==> vstd::utf8::is_char_boundary(content.spec_bytes(), skip as int),
        a matches Some(a) ==> a.spec_bytes() == content.spec_bytes().skip(skip as int),
{
    proof {
        vstd::utf8::encode_utf8_valid_utf8(content@);
    }
    if content.is_char_boundary(skip) {
        let (_, rest) = content.split_at(skip);
        assert(rest.spec_bytes() =~= content.spec_bytes().skip(skip as int));
        Some(rest)
    } else {
        None
    }
}

/// An ASCII decimal digit.
pub open spec fn is_digit_byte(b: u8) -> bool {
    48 <= b <= 57
}

/// One or more ASCII decimal digits and nothing else.
pub open spec fn decimal_digits(s: Seq<u8>) -> bool {
    s.len() > 0 && forall|i: int| 0 <= i < s.len() ==> is_digit_byte(#[trigger] s[i])
}

/// The number that a run of decimal digits writes.
pub open spec fn digits_value(s: Seq<u8>) -> nat
    decreases s.len(),
{
    if s.len() == 0 {
        0
    } else {
        digits_value(s.drop_last()) * 10 + (s.last() - 48) as nat
    }
}

/// The number that text written as `str::parse` reads for an unsigned type
/// whose largest value is `max`: an optional `+`, then one or more digits,
/// of a value no more than `max`.
pub open spec fn spec_parse_unsigned(s: Seq<u8>, max: nat) -> Option<nat> {
    let d = if s.len() > 0 && s[0] == 43u8 { s.skip(1) } else { s };
    if decimal_digits(d) && digits_value(d) <= max {
        Some(digits_value(d))
    } else {
        None
    }
}

/// The number that `str::parse::<i32>` reads: an optional `+` or `-`, then
/// one or more digits, of a value that fits an `i32`.
pub open spec fn spec_parse_i32(s: Seq<u8>) -> Option<int> {
    if s.len() > 0 && s[0] == 45u8 {
        let d = s.skip(1);
        if decimal_digits(d) && digits_value(d) <= 0x8000_0000 {
            Some(-(digits_value(d) as int))
        } else {
            None
        }
    } else {
        match spec_parse_unsigned(s, 0x7fff_ffff) {
            Some(v) => Some(v as int),
            None => None,
        }
    }
}

proof fn lemma_digits_prefix_le(s: Seq<u8>, i: int)
    requires
        0 <= i <= s.len(),
        forall|j: int| 0 <= j < s.len() ==> is_digit_byte(#[trigger] s[j]),
    ensures
        digits_value(s.take(i)) <= digits_value(s),
    decreases s.len(),
{
    if i < s.len() {
        assert(s.drop_last().take(i) =~= s.take(i));
        assert forall|j: int| 0 <= j < s.drop_last().len() implies is_digit_byte(#[trigger] s.drop_last()[j]) by {
            assert(s.drop_last()[j] == s[j]);
        }
        lemma_digits_prefix_le(s.drop_last(), i);
    } else {
        assert(s.take(i) =~= s);
    }
}

/// The value of the digits `b[lo..]`, or `None` when they are not one or
/// more decimal digits of a value no more than `max`.
fn parse_digits(b: &[u8], lo: usize, max: u64) -> (r: Option<u64>)
    requires
        lo <= b@.len(),
    ensures
        r is Some <==> (decimal_digits(b@.skip(lo as int)) && digits_value(b@.skip(lo as int)) <= max),
        r matches Some(v) ==> v == digits_value(b@.skip(lo as int)),
{
    let ghost d = b@.skip(lo as int);
    if lo >= b.len() {
        return None;
    }
    let mut acc: u64 = 0;
    let mut i: usize = lo;
    while i < b.len()
        invariant
            lo <= i <= b@.len(),
            d == b@.skip(lo as int),
            forall|j: int| 0 <= j < i - lo ==> is_digit_byte(#[trigger] d[j]),
            acc == digits_value(d.take(i - lo)),
            acc <= max,
        decreases b@.len() - i,
    {
        let c: u8 = b[i];
        assert(d[i - lo] == c);
        if c < 48 || c > 57 {
            return None;
        }
        assert(d.take(i - lo + 1).drop_last() =~= d.take(i - lo));
        let digit: u64 = (c - 48) as u64;
        let next = match acc.checked_mul(10) {
            Some(m) => m.checked_add(digit),
            None => None,
        };
        match next {
            Some(v) if v <= max => {
                acc = v;
            },
            _ => {
                proof {
                    if decimal_digits(d) {
                        lemma_digits_prefix_le(d, i - lo + 1);
                    }
                }
                return None;
            },
        }
        i = i + 1;
    }
    assert(d.take(i - lo) =~= d);
    Some(acc)
}

/// Reads an unsigned number as `str::parse::<usize>` does.
pub fn parse_usize(s: &str) -> (r: Option<usize>)
    ensures
        match r {
            Some(v) => spec_parse_unsigned(s.spec_bytes(), usize::MAX as nat) == Some(v as nat),
            None => spec_parse_unsigned(s.spec_bytes(), usize::MAX as nat) is None,
        },
{
    let b = s.as_bytes();
    let lo: usize = if b.len() > 0 && b[0] == 43u8 { 1 } else { 0 };
    assert(b@.skip(0) =~= b@);
    match parse_digits(b, lo, usize::MAX as u64) {
        Some(v) => Some(v as usize),
        None => None,
    }
}

/// Reads a signed number as `str::parse::<i32>` does.
pub fn parse_i32(s: &str) -> (r: Option<i32>)
    ensures
        match r {
            Some(v) => spec_parse_i32(s.spec_bytes()) == Some(v as int),
            None => spec_parse_i32(s.spec_bytes()) is None,
        },
{
    let b = s.as_bytes();
    assert(b@.skip(0) =~= b@);
    if b.len() > 0 && b[0] == 45u8 {
        match parse_digits(b, 1, 0x8000_0000) {
            Some(v) => Some((0 - (v as i64)) as i32),
            None => None,
        }
    } else {
        let lo: usize = if b.len() > 0 && b[0] == 43u8 { 1 } else { 0 };
        match parse_digits(b, lo, 0x7fff_ffff) {
            Some(v) => Some(v as i32),
            None => None,
        }
    }
}

} // verus!

use vstd::prelude::*;

verus! {

/// Whether `c` is one of the ASCII digits `0` to `9`.
pub open spec fn is_ascii_digit(c: char) -> bool {
    '0' <= c <= '9'
}

/// The number that the ASCII digit `c` stands for.
pub open spec fn digit_value(c: char) -> nat {
    (c as u32 - '0' as u32) as nat
}

/// The ASCII digit that stands for `d`, for `d` below ten.
pub open spec fn digit_char(d: nat) -> char {
    (d + '0' as u32) as char
}

/// Whether every character of `s` is an ASCII digit.
pub open spec fn all_digits(s: Seq<char>) -> bool {
    forall|i: int| 0 <= i < s.len() ==> is_ascii_digit(#[trigger] s[i])
}

/// The number that a sequence of ASCII digits denotes in base ten.
pub open spec fn digits_value(s: Seq<char>) -> nat
    decreases s.len(),
{
    if s.len() == 0 {
        0
    } else {
        digits_value(s.drop_last()) * 10 + digit_value(s.last())
    }
}

/// The shortest base-ten numeral for `n`.
pub open spec fn decimal(n: nat) -> Seq<char>
    decreases n,
{
    if n < 10 {
        seq![digit_char(n)]
    } else {
        decimal(n / 10).push(digit_char(n % 10))
    }
}

/// The base-ten numeral for `n`, with a leading minus sign when `n` is negative.
pub open spec fn signed_decimal(n: int) -> Seq<char> {
    if n < 0 {
        seq!['-'] + decimal((-n) as nat)
    } else {
        decimal(n as nat)
    }
}

/// What is left of `s` once a leading plus sign is taken away.
pub open spec fn without_plus(s: Seq<char>) -> Seq<char> {
    if s.len() > 0 && s[0] == '+' {
        s.subrange(1, s.len() as int)
    } else {
        s
    }
}

/// The unsigned 64-bit number that `s` denotes: an optional plus sign followed by at
/// least one ASCII digit, with a value that fits; `None` for any other text.
pub open spec fn u64_denoted(s: Seq<char>) -> Option<u64> {
    let body = without_plus(s);
    if body.len() > 0 && all_digits(body) && digits_value(body) <= u64::MAX {
        Some(digits_value(body) as u64)
    } else {
        None
    }
}

/// The signed 32-bit number that `s` denotes: an optional plus or minus sign followed
/// by at least one ASCII digit, with a value that fits; `None` for any other text.
pub open spec fn i32_denoted(s: Seq<char>) -> Option<i32> {
    if s.len() > 0 && s[0] == '-' {
        let body = s.subrange(1, s.len() as int);
        if body.len() > 0 && all_digits(body) && digits_value(body) <= 0x8000_0000 {
            Some((-(digits_value(body) as int)) as i32)
        } else {
            None
        }
    } else {
        let body = without_plus(s);
        if body.len() > 0 && all_digits(body) && digits_value(body) <= i32::MAX {
            Some(digits_value(body) as i32)
        } else {
            None
        }
    }
}

/// The digit written for a number below ten is a digit, and stands for that number.
pub proof fn lemma_digit_round_trip(d: nat)
    requires
        d < 10,
    ensures
        is_ascii_digit(digit_char(d)),
        digit_value(digit_char(d)) == d,
{
}

/// A numeral only grows in value when digits are appended to it.
pub proof fn lemma_digits_value_prefix(s: Seq<char>, k: int)
    requires
        0 <= k <= s.len(),
    ensures
        digits_value(s.take(k)) <= digits_value(s),
    decreases s.len() - k,
{
    if k == s.len() {
        assert(s.take(k) == s);
    } else {
        lemma_digits_value_prefix(s, k + 1);
        let t = s.take(k + 1);
        assert(t.drop_last() == s.take(k));
    }
}

/// `decimal(n)` is a non-empty run of digits whose value is `n`.
pub proof fn lemma_decimal_value(n: nat)
    ensures
        decimal(n).len() > 0,
        all_digits(decimal(n)),
        digits_value(decimal(n)) == n,
        decimal(n)[0] != '+',
        decimal(n)[0] != '-',
    decreases n,
{
    if n < 10 {
        let s = decimal(n);
        lemma_digit_round_trip(n);
        assert(digits_value(s.drop_last()) == 0);
    } else {
        lemma_decimal_value(n / 10);
        lemma_digit_round_trip(n % 10);
        let p = decimal(n / 10);
        let s = p.push(digit_char(n % 10));
        assert(s.drop_last() == p);
        assert forall|i: int| 0 <= i < s.len() implies is_ascii_digit(#[trigger] s[i]) by {}
    }
}

/// Reading back the numeral written for an unsigned 64-bit number gives that number.
pub proof fn lemma_parse_u64_of_decimal(n: u64)
    ensures
        u64_denoted(decimal(n as nat)) == Some(n),
{
    lemma_decimal_value(n as nat);
}

/// Reading back the numeral written for a signed 32-bit number gives that number.
pub proof fn lemma_parse_i32_of_decimal(n: i32)
    ensures
        i32_denoted(signed_decimal(n as int)) == Some(n),
{
    if n < 0 {
        let m = (-(n as int)) as nat;
        lemma_decimal_value(m);
        let s = signed_decimal(n as int);
        assert(s.subrange(1, s.len() as int) == decimal(m));
    } else {
        lemma_decimal_value(n as nat);
    }
}

/// Collects the characters of `v` into a `String`, through `String`'s
/// `FromIterator<char>` of std: the string holds exactly the characters of `v`, in
/// their order.
#[verifier::external_body]
pub(crate) fn string_from_chars(v: &Vec<char>) -> (s: String)
    ensures
        s@ == v@,
{
    v.iter().collect()
}

/// The characters of `s`, in their order.
pub fn to_chars(s: &str) -> (v: Vec<char>)
    ensures
        v@ == s@,
{
    let mut v: Vec<char> = Vec::new();
    for c in it: s.chars()
        invariant
            it.seq() == s@,
            v@ == s@.take(it.index()),
    {
        v.push(c);
    }
    v
}

/// Whether two texts are the same.
pub fn same_text(a: &str, b: &str) -> (same: bool)
    ensures
        same == (a@ == b@),
{
    a.to_owned() == b.to_owned()
}

/// The text `a` followed by the text `b`.
pub fn joined(a: &str, b: &str) -> (s: String)
    ensures
        s@ == a@ + b@,
{
    let mut s = a.to_owned();
    s.append(b);
    s
}

/// The text `b` set between the texts `a` and `c`.
pub fn framed(a: &str, b: &str, c: &str) -> (s: String)
    ensures
        s@ == a@ + b@ + c@,
{
    let mut s = a.to_owned();
    s.append(b);
    s.append(c);
    s
}

/// Whether `text` begins with `prefix`.
pub open spec fn has_prefix(text: Seq<char>, prefix: Seq<char>) -> bool {
    prefix.len() <= text.len() && text.subrange(0, prefix.len() as int) == prefix
}

/// What follows the first `n` characters of `text`.
pub open spec fn after_prefix(text: Seq<char>, n: int) -> Seq<char> {
    text.subrange(n, text.len() as int)
}

/// Whether `text` begins with `prefix`.
pub fn starts_with(text: &Vec<char>, prefix: &str) -> (b: bool)
    ensures
        b == has_prefix(text@, prefix@),
{
    let p = to_chars(prefix);
    if p.len() > text.len() {
        return false;
    }
    let mut i: usize = 0;
    while i < p.len()
        invariant
            0 <= i <= p.len() <= text.len(),
            p@ == prefix@,
            text@.subrange(0, i as int) == p@.subrange(0, i as int),
        decreases p.len() - i,
    {
        if text[i] != p[i] {
            return false;
        }
        i += 1;
    }
    proof {
        assert(p@.subrange(0, p.len() as int) == p@);
    }
    true
}

/// The text made of the characters of `v` from position `from` on; the empty text
/// where `v` is not that long.
pub fn string_from(v: &Vec<char>, from: usize) -> (s: String)
    ensures
        s@ == if from <= v.len() {
            after_prefix(v@, from as int)
        } else {
            Seq::<char>::empty()
        },
{
    let mut rest: Vec<char> = Vec::new();
    if from > v.len() {
        return string_from_chars(&rest);
    }
    let mut i: usize = from;
    while i < v.len()
        invariant
            from <= i <= v.len(),
            rest@ == v@.subrange(from as int, i as int),
        decreases v.len() - i,
    {
        rest.push(v[i]);
        proof {
            assert(v@.subrange(from as int, i + 1) == v@.subrange(from as int, i as int).push(
                v@[i as int],
            ));
        }
        i += 1;
    }
    string_from_chars(&rest)
}

/// The number that the ASCII digit `c` stands for, if `c` is one.
pub fn digit_of(c: char) -> (d: Option<u8>)
    ensures
        d is Some <==> is_ascii_digit(c),
        d matches Some(x) ==> x == digit_value(c) && x < 10,
{
    if c >= '0' && c <= '9' {
        Some((c as u32 - '0' as u32) as u8)
    } else {
        None
    }
}

/// The value of the digits `v[from..]`, if there is at least one, all are ASCII digits
/// and the value is at most `limit`.
fn parse_digits(v: &Vec<char>, from: usize, limit: u64) -> (r: Option<u64>)
    requires
        from <= v.len(),
    ensures
        ({
            let body = v@.subrange(from as int, v.len() as int);
            r == if body.len() > 0 && all_digits(body) && digits_value(body) <= limit {
                Some(digits_value(body) as u64)
            } else {
                None
            }
        }),
{
    let ghost body = v@.subrange(from as int, v.len() as int);
    if from == v.len() {
        return None;
    }
    let mut acc: u64 = 0;
    let mut i: usize = from;
    while i < v.len()
        invariant
            from <= i <= v.len(),
            body == v@.subrange(from as int, v.len() as int),
            all_digits(body.take(i - from)),
            acc == digits_value(body.take(i - from)),
            acc <= limit,
        decreases v.len() - i,
    {
        let ghost k = i - from;
        proof {
            assert(body.take(k + 1).drop_last() == body.take(k));
            lemma_digits_value_prefix(body, k + 1);
        }
        match digit_of(v[i]) {
            None => { return None; },
            Some(d) => {
                let next: u128 = (acc as u128) * 10 + (d as u128);
                if next > limit as u128 {
                    return None;
                }
                proof {
                    let b = body.take(k + 1);
                    assert forall|j: int| 0 <= j < b.len() implies is_ascii_digit(#[trigger] b[j]) by {}
                }
                acc = next as u64;
            },
        }
        i += 1;
    }
    proof {
        assert(body.take(body.len() as int) == body);
    }
    Some(acc)
}

/// Reads an unsigned 64-bit number as `str::parse::<u64>` of std does: an optional plus
/// sign, then decimal digits only.
pub fn parse_u64(s: &str) -> (r: Option<u64>)
    ensures
        r == u64_denoted(s@),
{
    let v = to_chars(s);
    let from: usize = if v.len() > 0 && v[0] == '+' { 1 } else { 0 };
    proof {
        assert(v@.subrange(0, v.len() as int) == v@);
    }
    parse_digits(&v, from, u64::MAX)
}

/// Reads a signed 32-bit number as `str::parse::<i32>` of std does: an optional plus or
/// minus sign, then decimal digits only.
pub fn parse_i32(s: &str) -> (r: Option<i32>)
    ensures
        r == i32_denoted(s@),
{
    let v = to_chars(s);
    proof {
        assert(v@.subrange(0, v.len() as int) == v@);
    }
    if v.len() > 0 && v[0] == '-' {
        match parse_digits(&v, 1, 0x8000_0000) {
            Some(m) => Some((-(m as i64)) as i32),
            None => None,
        }
    } else {
        let from: usize = if v.len() > 0 && v[0] == '+' { 1 } else { 0 };
        match parse_digits(&v, from, 0x7fff_ffff) {
            Some(m) => Some(m as i32),
            None => None,
        }
    }
}

/// Appends the shortest base-ten numeral for `n` to `out`.
fn push_decimal(out: &mut Vec<char>, n: u64)
    ensures
        final(out)@ == old(out)@ + decimal(n as nat),
    decreases n,
{
    if n >= 10 {
        push_decimal(out, n / 10);
    }
    let d: u8 = (n % 10) as u8;
    let c: char = (48u8 + d) as char;
    out.push(c);
}

/// The shortest base-ten numeral for `n`, as `u64::to_string` of std writes it.
pub fn u64_to_decimal(n: u64) -> (s: String)
    ensures
        s@ == decimal(n as nat),
{
    let mut out: Vec<char> = Vec::new();
    push_decimal(&mut out, n);
    string_from_chars(&out)
}

/// The base-ten numeral for `n`, as `i32::to_string` of std writes it.
pub fn i32_to_decimal(n: i32) -> (s: String)
    ensures
        s@ == signed_decimal(n as int),
{
    let mut out: Vec<char> = Vec::new();
    if n < 0 {
        out.push('-');
        let m: u64 = (-(n as i64)) as u64;
        push_decimal(&mut out, m);
    } else {
        push_decimal(&mut out, n as u64);
    }
    string_from_chars(&out)
}

} // verus!

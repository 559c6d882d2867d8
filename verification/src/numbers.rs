//! Decimal integer parsing with the rules of `u64::from_str` and
//! `i64::from_str`: an optional sign, then one or more ASCII digits, and a
//! value that fits the type.
use vstd::prelude::*;

verus! {

pub open spec fn is_digit(c: char) -> bool {
    '0' <= c && c <= '9'
}

pub open spec fn digit_value(c: char) -> int {
    (c as int) - ('0' as int)
}

pub open spec fn all_digits(s: Seq<char>) -> bool {
    forall|i: int| 0 <= i < s.len() ==> is_digit(#[trigger] s[i])
}

/// The number that a string of decimal digits writes.
pub open spec fn digits_value(s: Seq<char>) -> int
    decreases s.len(),
{
    if s.len() == 0 {
        0
    } else {
        digits_value(s.drop_last()) * 10 + digit_value(s.last())
    }
}

/// What follows an optional leading `'+'`.
pub open spec fn unsigned_body(s: Seq<char>) -> Seq<char> {
    if s.len() > 0 && s[0] == '+' {
        s.skip(1)
    } else {
        s
    }
}

/// What follows an optional leading `'+'` or `'-'`.
pub open spec fn signed_body(s: Seq<char>) -> Seq<char> {
    if s.len() > 0 && (s[0] == '+' || s[0] == '-') {
        s.skip(1)
    } else {
        s
    }
}

/// The value that `s.parse::<u64>()` gives, or `None` where it fails.
pub open spec fn spec_parse_u64(s: Seq<char>) -> Option<u64> {
    let body = unsigned_body(s);
    if body.len() > 0 && all_digits(body) && digits_value(body) <= u64::MAX {
        Some(digits_value(body) as u64)
    } else {
        None
    }
}

/// The signed value that `s` writes, sign included.
pub open spec fn signed_value(s: Seq<char>) -> int {
    if s.len() > 0 && s[0] == '-' {
        -digits_value(signed_body(s))
    } else {
        digits_value(signed_body(s))
    }
}

/// The value that `s.parse::<i64>()` gives, or `None` where it fails.
pub open spec fn spec_parse_i64(s: Seq<char>) -> Option<i64> {
    let body = signed_body(s);
    if body.len() > 0 && all_digits(body) && i64::MIN <= signed_value(s) <= i64::MAX {
        Some(signed_value(s) as i64)
    } else {
        None
    }
}

proof fn lemma_digits_value_nonneg(s: Seq<char>)
    requires
        all_digits(s),
    ensures
        digits_value(s) >= 0,
    decreases s.len(),
{
    if s.len() > 0 {
        assert(all_digits(s.drop_last())) by {
            assert forall|i: int| 0 <= i < s.drop_last().len() implies is_digit(
                #[trigger] s.drop_last()[i],
            ) by {
                assert(s.drop_last()[i] == s[i]);
            }
        }
        lemma_digits_value_nonneg(s.drop_last());
        assert(is_digit(s[s.len() - 1]));
    }
}

/// A prefix of a digit string never writes a larger number than the whole.
proof fn lemma_digits_value_prefix(s: Seq<char>, j: int)
    requires
        all_digits(s),
        0 <= j <= s.len(),
    ensures
        digits_value(s.take(j)) <= digits_value(s),
    decreases s.len(),
{
    if j < s.len() {
        let t = s.drop_last();
        assert(all_digits(t)) by {
            assert forall|i: int| 0 <= i < t.len() implies is_digit(#[trigger] t[i]) by {
                assert(t[i] == s[i]);
            }
        }
        assert(t.take(j) =~= s.take(j));
        lemma_digits_value_prefix(t, j);
        lemma_digits_value_nonneg(t);
        assert(is_digit(s[s.len() - 1]));
    } else {
        assert(s.take(j) =~= s);
    }
}

/// Reads the digits of `s` from position `start` on; `None` where one of them is
/// not a digit, where there are none, or where their value exceeds `u64::MAX`.
fn parse_digits(s: &str, start: usize, n: usize) -> (r: Option<u64>)
    requires
        n == s@.len(),
        start <= n,
    ensures
        ({
            let body = s@.skip(start as int);
            match r {
                Some(v) => body.len() > 0 && all_digits(body) && v == digits_value(body),
                None => !(body.len() > 0 && all_digits(body) && digits_value(body) <= u64::MAX),
            }
        }),
{
    let ghost body = s@.skip(start as int);
    if start == n {
        return None;
    }
    let mut acc: u64 = 0;
    let mut i: usize = start;
    while i < n
        invariant
            n == s@.len(),
            start < n,
            start <= i <= n,
            body == s@.skip(start as int),
            all_digits(body.take(i - start)),
            acc == digits_value(body.take(i - start)),
        decreases n - i,
    {
        let c = s.get_char(i);
        assert(c == body[i - start]);
        if !('0' <= c && c <= '9') {
            assert(!all_digits(body));
            return None;
        }
        let d: u64 = (c as u32 - '0' as u32) as u64;
        let ghost next = body.take(i - start + 1);
        assert(next.drop_last() =~= body.take(i - start));
        assert(next.last() == c);
        assert(all_digits(next)) by {
            assert forall|k: int| 0 <= k < next.len() implies is_digit(#[trigger] next[k]) by {
                if k < next.len() - 1 {
                    assert(next[k] == body.take(i - start)[k]);
                }
            }
        }
        let tens = acc.checked_mul(10);
        if tens.is_none() {
            proof {
                if all_digits(body) {
                    lemma_digits_value_prefix(body, i - start + 1);
                }
            }
            return None;
        }
        let tens = tens.unwrap();
        let sum = tens.checked_add(d);
        if sum.is_none() {
            proof {
                if all_digits(body) {
                    lemma_digits_value_prefix(body, i - start + 1);
                }
            }
            return None;
        }
        acc = sum.unwrap();
        i += 1;
    }
    assert(body.take(n - start) =~= body);
    Some(acc)
}

/// `s.parse::<u64>().ok()`.
pub fn parse_u64(s: &str) -> (r: Option<u64>)
    ensures
        r == spec_parse_u64(s@),
{
    let n = s.unicode_len();
    let start: usize = if n > 0 && s.get_char(0) == '+' {
        1
    } else {
        0
    };
    assert(s@.skip(start as int) =~= unsigned_body(s@));
    parse_digits(s, start, n)
}

/// `s.parse::<i64>().ok()`.
pub fn parse_i64(s: &str) -> (r: Option<i64>)
    ensures
        r == spec_parse_i64(s@),
{
    let n = s.unicode_len();
    let negative = n > 0 && s.get_char(0) == '-';
    let start: usize = if n > 0 && (s.get_char(0) == '+' || s.get_char(0) == '-') {
        1
    } else {
        0
    };
    assert(s@.skip(start as int) =~= signed_body(s@));
    match parse_digits(s, start, n) {
        None => None,
        Some(magnitude) => {
            if negative {
                if magnitude <= 9_223_372_036_854_775_807u64 {
                    Some(-(magnitude as i64))
                } else if magnitude == 9_223_372_036_854_775_808u64 {
                    Some(i64::MIN)
                } else {
                    None
                }
            } else {
                if magnitude <= 9_223_372_036_854_775_807u64 {
                    Some(magnitude as i64)
                } else {
                    None
                }
            }
        },
    }
}


/// One digit writes its own value; two digits write ten times the first plus
/// the second.
pub proof fn lemma_short_digits_value(a: char, b: char)
    ensures
        digits_value(seq![a]) == digit_value(a),
        digits_value(seq![a, b]) == digit_value(a) * 10 + digit_value(b),
{
    let one = seq![a];
    let two = seq![a, b];
    assert(one.last() == a);
    assert(one.drop_last() =~= Seq::<char>::empty());
    assert(digits_value(Seq::<char>::empty()) == 0);
    assert(digits_value(one) == digits_value(one.drop_last()) * 10 + digit_value(one.last()));
    assert(two.last() == b);
    assert(two.drop_last() =~= one);
    assert(digits_value(two) == digits_value(two.drop_last()) * 10 + digit_value(two.last()));
}

/// Parsing reads decimal notation: one digit is its own value; appending a
/// digit multiplies by ten and adds it, while the result fits; a leading `'+'`
/// changes nothing; a character that is not a digit after the first position,
/// and the empty text, make parsing fail.
pub proof fn lemma_parse_u64_is_decimal(s: Seq<char>, c: char)
    ensures
        is_digit(c) ==> spec_parse_u64(seq![c]) == Some((c as int - '0' as int) as u64),
        ({
            &&& s.len() > 0
            &&& is_digit(s[0])
            &&& is_digit(c)
            &&& spec_parse_u64(s) matches Some(v)
            &&& v * 10 + (c as int - '0' as int) <= u64::MAX
        }) ==> spec_parse_u64(s.push(c)) == Some(
            (spec_parse_u64(s).unwrap() * 10 + (c as int - '0' as int)) as u64,
        ),
        s.len() > 0 && is_digit(s[0]) ==> spec_parse_u64(seq!['+'] + s) == spec_parse_u64(s),
        (exists|i: int| 0 < i < s.len() && !is_digit(#[trigger] s[i])) ==> spec_parse_u64(s) is None,
        s.len() > 0 && !is_digit(s[0]) && s[0] != '+' ==> spec_parse_u64(s) is None,
        spec_parse_u64(seq!['+']) is None,
        spec_parse_u64(Seq::<char>::empty()) is None,
{
    assert(seq![c].drop_last() =~= Seq::<char>::empty());
    assert(seq!['+'].skip(1) =~= Seq::<char>::empty());
    if is_digit(c) {
        assert(unsigned_body(seq![c]) == seq![c]);
        assert(all_digits(seq![c]));
        lemma_short_digits_value(c, c);
    }
    if s.len() > 0 && is_digit(s[0]) {
        assert(unsigned_body(s) == s);
        assert((seq!['+'] + s).skip(1) =~= s);
        assert(s.push(c).drop_last() =~= s);
        if all_digits(s) && is_digit(c) {
            assert(all_digits(s.push(c))) by {
                assert forall|i: int| 0 <= i < s.push(c).len() implies is_digit(#[trigger] s.push(c)[i]) by {
                    if i < s.len() {
                        assert(s.push(c)[i] == s[i]);
                    }
                }
            }
            lemma_digits_value_nonneg(s);
        }
        if !all_digits(s) && is_digit(c) {
            let i = choose|i: int| 0 <= i < s.len() && !is_digit(#[trigger] s[i]);
            assert(s.push(c)[i] == s[i]);
        }
    }
    if exists|i: int| 0 < i < s.len() && !is_digit(#[trigger] s[i]) {
        let i = choose|i: int| 0 < i < s.len() && !is_digit(#[trigger] s[i]);
        if s[0] == '+' {
            assert(unsigned_body(s)[i - 1] == s[i]);
        } else {
            assert(unsigned_body(s)[i] == s[i]);
        }
    }
}

/// A leading `'-'` negates: where `s` parses as the unsigned value `v` no
/// larger than 2^63, `-s` parses as the signed value `-v`; and a text that
/// starts with a digit parses as a signed value exactly as it does as an
/// unsigned one, where that fits.
pub proof fn lemma_parse_i64_sign(s: Seq<char>)
    requires
        s.len() > 0,
        is_digit(s[0]),
    ensures
        spec_parse_u64(s) matches Some(v) ==> (v <= 0x8000_0000_0000_0000 ==> spec_parse_i64(
            seq!['-'] + s,
        ) == Some(-(v as int) as i64)),
        spec_parse_u64(s) matches Some(v) ==> (v <= i64::MAX ==> spec_parse_i64(s) == Some(
            v as i64,
        )),
        spec_parse_u64(s) is None ==> spec_parse_i64(s) is None,
{
    assert(unsigned_body(s) == s);
    assert(signed_body(s) == s);
    assert((seq!['-'] + s).skip(1) =~= s);
    assert(signed_body(seq!['-'] + s) == s);
    if all_digits(s) {
        lemma_digits_value_nonneg(s);
    }
}

} // verus!

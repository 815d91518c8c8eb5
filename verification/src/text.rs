//! Small text utilities shared by the codec and the request builder:
//! decimal rendering and parsing of unsigned integers, and JSON string
//! quoting for values embedded in outgoing frames.

use vstd::prelude::*;
use vstd::string::StrSliceExecFns;
use vstd::string::StringExecFns;

verus! {

/// The character for one decimal digit value.
pub open spec fn dec_digit_char(d: int) -> char {
    if d == 0 {
        '0'
    } else if d == 1 {
        '1'
    } else if d == 2 {
        '2'
    } else if d == 3 {
        '3'
    } else if d == 4 {
        '4'
    } else if d == 5 {
        '5'
    } else if d == 6 {
        '6'
    } else if d == 7 {
        '7'
    } else if d == 8 {
        '8'
    } else {
        '9'
    }
}

/// The decimal rendering of a non-negative integer, without leading zeros
/// (except for zero itself).
pub open spec fn spec_dec_str(n: int) -> Seq<char>
    decreases n,
{
    if n < 10 {
        seq![dec_digit_char(n)]
    } else {
        spec_dec_str(n / 10).push(dec_digit_char(n % 10))
    }
}

fn digit_str(d: u64) -> (r: &'static str)
    requires
        d < 10,
    ensures
        r@ == seq![dec_digit_char(d as int)],
{
    proof {
        reveal_strlit("0");
        reveal_strlit("1");
        reveal_strlit("2");
        reveal_strlit("3");
        reveal_strlit("4");
        reveal_strlit("5");
        reveal_strlit("6");
        reveal_strlit("7");
        reveal_strlit("8");
        reveal_strlit("9");
    }
    let r = if d == 0 {
        "0"
    } else if d == 1 {
        "1"
    } else if d == 2 {
        "2"
    } else if d == 3 {
        "3"
    } else if d == 4 {
        "4"
    } else if d == 5 {
        "5"
    } else if d == 6 {
        "6"
    } else if d == 7 {
        "7"
    } else if d == 8 {
        "8"
    } else {
        "9"
    };
    proof {
        assert(r@ =~= seq![dec_digit_char(d as int)]);
    }
    r
}

/// Renders `n` in decimal, exactly as `spec_dec_str` states.
pub fn u64_to_string(n: u64) -> (r: String)
    ensures
        r@ == spec_dec_str(n as int),
    decreases n,
{
    if n < 10 {
        String::from_str(digit_str(n))
    } else {
        let mut s = u64_to_string(n / 10);
        s.append(digit_str(n % 10));
        proof {
            assert(spec_dec_str(n as int) =~= spec_dec_str(n as int / 10) + seq![
                dec_digit_char(n as int % 10),
            ]);
        }
        s
    }
}

pub open spec fn is_dec_digit(c: char) -> bool {
    '0' <= c && c <= '9'
}

pub open spec fn dec_digit_val(c: char) -> int {
    c as int - '0' as int
}

/// The numeric value of a digit string, most significant digit first.
pub open spec fn spec_dec_val(s: Seq<char>) -> int
    decreases s.len(),
{
    if s.len() == 0 {
        0
    } else {
        spec_dec_val(s.drop_last()) * 10 + dec_digit_val(s.last())
    }
}

/// What parsing a digit string yields: the value of the digits, or nothing
/// when the string is empty, holds a non-digit, or overflows `u64`.
pub open spec fn spec_parse_digits(s: Seq<char>) -> Option<u64> {
    if s.len() > 0 && (forall|j: int| 0 <= j < s.len() ==> is_dec_digit(#[trigger] s[j]))
        && spec_dec_val(s) <= u64::MAX {
        Some(spec_dec_val(s) as u64)
    } else {
        None
    }
}

/// What parsing a decimal string yields: one optional leading `+`, then at
/// least one digit; the digits' value, or nothing when a character is not a
/// digit, no digit follows the sign, or the value overflows `u64`.
pub open spec fn spec_parse_u64(s: Seq<char>) -> Option<u64> {
    if s.len() > 0 && s[0] == '+' {
        spec_parse_digits(s.drop_first())
    } else {
        spec_parse_digits(s)
    }
}

proof fn lemma_dec_val_nonneg(s: Seq<char>)
    requires
        forall|j: int| 0 <= j < s.len() ==> is_dec_digit(#[trigger] s[j]),
    ensures
        spec_dec_val(s) >= 0,
    decreases s.len(),
{
    if s.len() > 0 {
        lemma_dec_val_nonneg(s.drop_last());
    }
}

proof fn lemma_dec_val_prefix(s: Seq<char>, i: int)
    requires
        0 <= i <= s.len(),
        forall|j: int| 0 <= j < s.len() ==> is_dec_digit(#[trigger] s[j]),
    ensures
        spec_dec_val(s.take(i)) <= spec_dec_val(s),
    decreases s.len() - i,
{
    if i < s.len() {
        assert(s.take(i + 1).drop_last() =~= s.take(i));
        lemma_dec_val_nonneg(s.take(i));
        lemma_dec_val_prefix(s, i + 1);
    } else {
        assert(s.take(i) =~= s);
    }
}

/// Parses a decimal string — one optional leading `+`, then digits — into a
/// `u64`, exactly as `spec_parse_u64` states: `None` when no digit follows
/// the sign, a character is not a digit, or the value overflows.
pub fn parse_u64(s: &str) -> (r: Option<u64>)
    ensures
        r == spec_parse_u64(s@),
{
    let len = s.unicode_len();
    let mut start: usize = 0;
    if len > 0 && s.get_char(0) as u32 == 0x2B {
        start = 1;
    }
    let ghost digits = if s@.len() > 0 && s@[0] == '+' {
        s@.drop_first()
    } else {
        s@
    };
    proof {
        assert(digits =~= s@.subrange(start as int, len as int));
    }
    if start >= len {
        return None;
    }
    let mut acc: u64 = 0;
    let mut i: usize = start;
    while i < len
        invariant
            start <= i <= len,
            len == s@.len(),
            digits == s@.subrange(start as int, len as int),
            spec_parse_u64(s@) == spec_parse_digits(digits),
            forall|j: int| start <= j < i ==> is_dec_digit(#[trigger] s@[j]),
            acc == spec_dec_val(s@.subrange(start as int, i as int)),
        decreases len - i,
    {
        let c = s.get_char(i);
        let u = c as u32;
        if u < 0x30 || u > 0x39 {
            proof {
                assert(digits[i - start] == s@[i as int]);
                assert(!is_dec_digit(digits[i - start]));
            }
            return None;
        }
        let d = (u - 0x30) as u64;
        proof {
            assert(s@.subrange(start as int, i as int + 1).drop_last() =~= s@.subrange(
                start as int,
                i as int,
            ));
            assert(s@.subrange(start as int, i as int + 1).last() == s@[i as int]);
            assert(d == dec_digit_val(s@[i as int]));
        }
        let next = match acc.checked_mul(10) {
            Some(m) => m.checked_add(d),
            None => None,
        };
        match next {
            Some(v) => {
                acc = v;
            },
            None => {
                proof {
                    if forall|j: int| 0 <= j < digits.len() ==> is_dec_digit(#[trigger] digits[j]) {
                        assert(digits.take(i as int + 1 - start) =~= s@.subrange(
                            start as int,
                            i as int + 1,
                        ));
                        lemma_dec_val_prefix(digits, i as int + 1 - start);
                    }
                }
                return None;
            },
        }
        i = i + 1;
    }
    proof {
        assert forall|j: int| 0 <= j < digits.len() implies is_dec_digit(#[trigger] digits[j]) by {
            assert(digits[j] == s@[j + start]);
        }
    }
    Some(acc)
}

/// Whether two string slices hold the same characters.
pub fn str_eq(a: &str, b: &str) -> (r: bool)
    ensures
        r == (a@ == b@),
{
    let x = a.to_owned();
    let y = b.to_owned();
    x == y
}

/// A character that JSON string encoding writes through unchanged: not a
/// quote, not a backslash, and not a control character.
pub open spec fn plain_json_char(c: char) -> bool {
    c != '"' && c != '\\' && c as u32 >= 0x20
}

/// The JSON string literal for a sequence of characters: an opening quote,
/// the characters with the JSON escapes applied, and a closing quote.
pub uninterp spec fn json_quoted_of(s: Seq<char>) -> Seq<char>;

/// Relies on `serde_json::to_string` for a `&str` value: it writes the JSON
/// string literal for `s` (opening quote, the characters of `s` with JSON
/// escapes applied, closing quote), it depends on the characters of `s`
/// alone, it writes characters outside the escape set unchanged, and it
/// never fails for a string value.
#[verifier::external_body]
pub fn json_quote(s: &str) -> (r: String)
    ensures
        r@ == json_quoted_of(s@),
        (forall|j: int| 0 <= j < s@.len() ==> plain_json_char(#[trigger] s@[j])) ==> r@ == seq![
            '"',
        ] + s@ + seq!['"'],
{
    match serde_json::to_string(s) {
        Ok(q) => q,
        Err(_) => String::new(),
    }
}

} // verus!

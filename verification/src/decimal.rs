//! Unsigned decimal numbers as `/proc` writes them, read the way std's
//! `FromStr` for unsigned integers reads them: an optional `+`, then one or
//! more ASCII digits, and nothing else; a value too large for the type is an
//! error.

use vstd::prelude::*;
use vstd::string::*;

verus! {

/// Whether `c` is an ASCII decimal digit.
pub open spec fn is_digit(c: char) -> bool {
    '0' <= c <= '9'
}

/// The value of an ASCII digit.
pub open spec fn digit_value(c: char) -> nat {
    (c as int - '0' as int) as nat
}

/// Whether every character of `s` is a decimal digit.
pub open spec fn all_digits(s: Seq<char>) -> bool {
    forall|i: int| 0 <= i < s.len() ==> is_digit(#[trigger] s[i])
}

/// The number that the digits `s` write, most significant first.
pub open spec fn digits_value(s: Seq<char>) -> nat
    decreases s.len(),
{
    if s.len() == 0 {
        0
    } else {
        digits_value(s.drop_last()) * 10 + digit_value(s.last())
    }
}

/// The digits of a number text: the text without its leading `+`, if any.
pub open spec fn unsigned_digits(s: Seq<char>) -> Seq<char> {
    if s.len() > 0 && s[0] == '+' {
        s.skip(1)
    } else {
        s
    }
}

/// The number a text writes, if it is an optional `+` followed by one or
/// more decimal digits.
pub open spec fn decimal_value(s: Seq<char>) -> Option<nat> {
    let d = unsigned_digits(s);
    if d.len() > 0 && all_digits(d) {
        Some(digits_value(d))
    } else {
        None
    }
}

/// The `u64` a text writes, if it writes one that fits.
pub open spec fn spec_parse_u64(s: Seq<char>) -> Option<u64> {
    match decimal_value(s) {
        Some(v) => if v <= u64::MAX {
            Some(v as u64)
        } else {
            None
        },
        None => None,
    }
}

/// The `u32` a text writes, if it writes one that fits.
pub open spec fn spec_parse_u32(s: Seq<char>) -> Option<u32> {
    match decimal_value(s) {
        Some(v) => if v <= u32::MAX {
            Some(v as u32)
        } else {
            None
        },
        None => None,
    }
}

/// Appending digits never makes the value smaller: the value of a prefix
/// of digits is at most the value of the whole.
pub proof fn lemma_digits_value_prefix(s: Seq<char>, k: int)
    requires
        0 <= k <= s.len(),
        all_digits(s),
    ensures
        digits_value(s.take(k)) <= digits_value(s),
    decreases s.len(),
{
    if k < s.len() {
        let t = s.drop_last();
        assert(all_digits(t));
        lemma_digits_value_prefix(t, k);
        assert(t.take(k) =~= s.take(k));
    } else {
        assert(s.take(k) =~= s);
    }
}

/// Reads an unsigned decimal number that fits in a `u64`.
pub fn parse_u64(s: &str) -> (r: Option<u64>)
    ensures
        r == spec_parse_u64(s@),
{
    let n = s.unicode_len();
    let mut start: usize = 0;
    if n > 0 && s.get_char(0) == '+' {
        start = 1;
    }
    let ghost d = unsigned_digits(s@);
    assert(d =~= s@.skip(start as int));
    if start >= n {
        return None;
    }
    let mut value: u64 = 0;
    let mut i: usize = start;
    while i < n
        invariant
            start <= i <= n,
            n == s@.len(),
            d == s@.skip(start as int),
            d == unsigned_digits(s@),
            all_digits(d.take(i - start)),
            value == digits_value(d.take(i - start)),
        decreases n - i,
    {
        let c = s.get_char(i);
        assert(d[i - start] == c);
        if !('0' <= c && c <= '9') {
            proof {
                assert(!all_digits(d));
            }
            return None;
        }
        let ghost prefix = d.take(i - start + 1);
        assert(prefix.drop_last() =~= d.take(i - start));
        assert(prefix.last() == c);
        assert(all_digits(prefix));
        let dv: u64 = (c as u32 - '0' as u32) as u64;
        if value > (u64::MAX - dv) / 10 {
            proof {
                assert(digits_value(prefix) > u64::MAX) by (nonlinear_arith)
                    requires
                        digits_value(prefix) == value * 10 + dv,
                        value > (u64::MAX - dv) / 10,
                        dv <= 9,
                ;
                if all_digits(d) {
                    lemma_digits_value_prefix(d, i - start + 1);
                }
            }
            return None;
        }
        assert(value * 10 + dv <= u64::MAX) by (nonlinear_arith)
            requires
                value <= (u64::MAX - dv) / 10,
                dv <= 9,
        ;
        value = value * 10 + dv;
        i = i + 1;
    }
    assert(d.take(i - start) =~= d);
    Some(value)
}

/// Reads an unsigned decimal number that fits in a `u32`.
pub fn parse_u32(s: &str) -> (r: Option<u32>)
    ensures
        r == spec_parse_u32(s@),
{
    match parse_u64(s) {
        Some(v) => if v <= u32::MAX as u64 {
            Some(v as u32)
        } else {
            None
        },
        None => None,
    }
}

/// A single digit is worth its value; one more digit at the end multiplies
/// the value so far by ten and adds the digit's value; a leading `+` changes
/// nothing; and a text with anything but digits after the optional `+`, or
/// no digit at all, writes no number.
pub proof fn lemma_decimal_value_laws(s: Seq<char>, c: char)
    ensures
        is_digit(c) ==> decimal_value(seq![c]) == Some((c as int - '0' as int) as nat),
        is_digit(c) && s.len() > 0 && all_digits(s) ==> decimal_value(s.push(c)) == Some(
            decimal_value(s).unwrap() * 10 + (c as int - '0' as int) as nat,
        ),
        s.len() > 0 && s[0] != '+' ==> decimal_value(seq!['+'] + s) == decimal_value(s),
        (exists|i: int| 0 <= i < unsigned_digits(s).len() && !is_digit(
            #[trigger] unsigned_digits(s)[i],
        )) ==> decimal_value(s) is None,
        decimal_value(Seq::empty()) is None,
        decimal_value(seq!['+']) is None,
{
    let one = seq![c];
    assert(one.drop_last() =~= Seq::<char>::empty());
    if is_digit(c) && s.len() > 0 && all_digits(s) {
        let t = s.push(c);
        assert(t.drop_last() =~= s);
        assert(all_digits(t));
    }
    if s.len() > 0 && s[0] != '+' {
        let t = seq!['+'] + s;
        assert(t.skip(1) =~= s);
    }
    assert(seq!['+'].skip(1) =~= Seq::<char>::empty());
}

} // verus!

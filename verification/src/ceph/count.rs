//! The decimal grammar of the `X-Total-Count` header and of the `limit`
//! query parameter.

use vstd::prelude::*;

verus! {

/// An ASCII decimal digit.
pub open spec fn is_digit(b: u8) -> bool {
    0x30 <= b <= 0x39
}

/// The number that a string of ASCII digits denotes, most significant digit
/// first. Leading zeros are allowed and the empty string denotes zero.
pub open spec fn digits_value(s: Seq<u8>) -> nat
    decreases s.len(),
{
    if s.len() == 0 {
        0
    } else {
        digits_value(s.drop_last()) * 10 + (s.last() - 0x30) as nat
    }
}

/// A count is written as one or more ASCII digits and nothing else: no sign,
/// no blanks, no separators.
pub open spec fn is_count_text(s: Seq<u8>) -> bool {
    s.len() > 0 && forall|i: int| 0 <= i < s.len() ==> is_digit(#[trigger] s[i])
}

/// The count that a header value carries, if it carries one that fits.
pub open spec fn count_of(s: Seq<u8>) -> Option<u64> {
    if is_count_text(s) && digits_value(s) <= u64::MAX {
        Some(digits_value(s) as u64)
    } else {
        None
    }
}

/// A longer digit string never denotes less than one of its prefixes.
pub proof fn lemma_prefix_value_le(s: Seq<u8>, k: int)
    requires
        0 <= k <= s.len(),
        forall|i: int| 0 <= i < s.len() ==> is_digit(#[trigger] s[i]),
    ensures
        digits_value(s.take(k)) <= digits_value(s),
    decreases s.len() - k,
{
    if k == s.len() {
        assert(s.take(k) =~= s);
    } else {
        lemma_prefix_value_le(s, k + 1);
        assert(s.take(k + 1).drop_last() =~= s.take(k));
    }
}

/// Reads a count from a header value.
pub fn parse_count(value: &[u8]) -> (count: Option<u64>)
    ensures
        count == count_of(value@),
{
    let n: usize = value.len();
    if n == 0 {
        return None;
    }
    let mut acc: u64 = 0;
    let mut i: usize = 0;
    while i < n
        invariant
            n == value@.len(),
            0 <= i <= n,
            forall|j: int| 0 <= j < i ==> is_digit(#[trigger] value@[j]),
            acc == digits_value(value@.take(i as int)),
        decreases n - i,
    {
        let b: u8 = value[i];
        if b < 0x30 || b > 0x39 {
            return None;
        }
        let d: u64 = (b - 0x30) as u64;
        proof {
            assert(value@.take(i + 1).drop_last() =~= value@.take(i as int));
        }
        if acc > (u64::MAX - d) / 10 {
            proof {
                // The prefix read so far already exceeds the range, and
                // further digits can only make the number larger, unless a
                // later byte is no digit at all.
                if is_count_text(value@) {
                    lemma_prefix_value_le(value@, i + 1);
                }
            }
            return None;
        }
        acc = acc * 10 + d;
        i = i + 1;
    }
    proof {
        assert(value@.take(n as int) =~= value@);
    }
    Some(acc)
}

/// The character that stands for the digit `d`.
pub open spec fn digit_char(d: nat) -> char {
    if d == 0 {
        '0'
    } else if d == 1 {
        '1'
    } else if d == 2 {
        '2'
    } else if d == 3 {
        '3'
    } else if d == 4 {
        '4'
    } else if d == 5 {
        '5'
    } else if d == 6 {
        '6'
    } else if d == 7 {
        '7'
    } else if d == 8 {
        '8'
    } else {
        '9'
    }
}

/// The shortest decimal form of `n`: no leading zero, except for zero itself.
pub open spec fn decimal_text(n: nat) -> Seq<char>
    decreases n,
{
    if n < 10 {
        seq![digit_char(n)]
    } else {
        decimal_text(n / 10).push(digit_char(n % 10))
    }
}

/// The bytes of `decimal_text(n)` as they go over the wire.
pub open spec fn decimal_bytes(n: nat) -> Seq<u8>
    decreases n,
{
    if n < 10 {
        seq![(0x30 + n) as u8]
    } else {
        decimal_bytes(n / 10).push((0x30 + n % 10) as u8)
    }
}

fn digit_text(d: u64) -> (text: &'static str)
    requires
        d < 10,
    ensures
        text@ == seq![digit_char(d as nat)],
{
    proof {
        reveal_strlit("0");
        reveal_strlit("1");
        reveal_strlit("2");
        reveal_strlit("3");
        reveal_strlit("4");
        reveal_strlit("5");
        reveal_strlit("6");
        reveal_strlit("7");
        reveal_strlit("8");
        reveal_strlit("9");
    }
    let text = if d == 0 {
        "0"
    } else if d == 1 {
        "1"
    } else if d == 2 {
        "2"
    } else if d == 3 {
        "3"
    } else if d == 4 {
        "4"
    } else if d == 5 {
        "5"
    } else if d == 6 {
        "6"
    } else if d == 7 {
        "7"
    } else if d == 8 {
        "8"
    } else {
        "9"
    };
    assert(text@ =~= seq![digit_char(d as nat)]);
    text
}

/// Writes a count the way the `limit` parameter takes it.
pub fn format_count(n: u64) -> (text: String)
    ensures
        text@ == decimal_text(n as nat),
    decreases n,
{
    if n < 10 {
        String::from_str(digit_text(n))
    } else {
        let mut text = format_count(n / 10);
        text.append(digit_text(n % 10));
        text
    }
}

/// The decimal form of a number is a count text.
pub proof fn lemma_decimal_bytes_are_digits(n: nat)
    ensures
        is_count_text(decimal_bytes(n)),
    decreases n,
{
    if n >= 10 {
        lemma_decimal_bytes_are_digits(n / 10);
    }
}

/// Writing a count and reading it back gives the count: the decimal form of
/// `n` denotes `n`, so a count that was read from the header and written into
/// the `limit` parameter asks for exactly as many items as the header named.
pub proof fn lemma_count_round_trip(n: u64)
    ensures
        count_of(decimal_bytes(n as nat)) == Some(n),
{
    lemma_decimal_bytes_are_digits(n as nat);
    lemma_decimal_bytes_value(n as nat);
}

/// The decimal form of `n` denotes `n`.
pub proof fn lemma_decimal_bytes_value(n: nat)
    ensures
        digits_value(decimal_bytes(n)) == n,
    decreases n,
{
    if n < 10 {
        let s = decimal_bytes(n);
        assert(s.drop_last() =~= Seq::<u8>::empty());
        assert(digits_value(s.drop_last()) == 0);
    } else {
        lemma_decimal_bytes_value(n / 10);
        let s = decimal_bytes(n);
        assert(s.drop_last() =~= decimal_bytes(n / 10));
    }
}

/// `decimal_text` and `decimal_bytes` are the same digits, once as characters
/// and once as bytes.
pub proof fn lemma_decimal_text_is_ascii(n: nat)
    ensures
        decimal_text(n).len() == decimal_bytes(n).len(),
        forall|i: int|
            0 <= i < decimal_text(n).len() ==> (#[trigger] decimal_text(n)[i]) as u8
                == decimal_bytes(n)[i],
    decreases n,
{
    if n >= 10 {
        lemma_decimal_text_is_ascii(n / 10);
    }
}

} // verus!

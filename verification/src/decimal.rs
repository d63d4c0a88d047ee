//! Reading a number from its decimal digits.

use vstd::prelude::*;
use vstd::string::StrSliceExecFns;

verus! {

/// Whether every character is one of the digits `0` to `9`.
pub open spec fn all_digits(text: Seq<char>) -> bool {
    forall|i: int| 0 <= i < text.len() ==> '0' <= #[trigger] text[i] <= '9'
}

/// The number that a digit stands for.
pub open spec fn digit_value(digit: char) -> nat {
    (digit as nat - '0' as nat) as nat
}

/// The number that a sequence of digits stands for; zero for no digits.
pub open spec fn digits_value(digits: Seq<char>) -> nat
    decreases digits.len(),
{
    if digits.len() == 0 {
        0
    } else {
        digits_value(digits.drop_last()) * 10 + digit_value(digits.last())
    }
}

/// The digits of a text: the text without a leading `+`.
pub open spec fn unsigned_part(text: Seq<char>) -> Seq<char> {
    if text.len() > 0 && text[0] == '+' {
        text.subrange(1, text.len() as int)
    } else {
        text
    }
}

/// The number that a text stands for: one or more digits, with or without a
/// `+` before them, whose number fits in 64 bits. Any other text stands for
/// no number.
pub open spec fn decimal_u64(text: Seq<char>) -> Option<u64> {
    let digits = unsigned_part(text);
    if digits.len() > 0 && all_digits(digits) && digits_value(digits) <= u64::MAX {
        Some(digits_value(digits) as u64)
    } else {
        None
    }
}

/// More digits never stand for less: the number of the first digits of a
/// sequence of digits is at most the number of all of them.
pub proof fn first_digits_are_no_more(digits: Seq<char>, k: int)
    requires
        0 <= k <= digits.len(),
    ensures
        digits_value(digits.take(k)) <= digits_value(digits),
    decreases digits.len() - k,
{
    if k == digits.len() {
        assert(digits.take(k) =~= digits);
    } else {
        first_digits_are_no_more(digits.drop_last(), k);
        assert(digits.drop_last().take(k) =~= digits.take(k));
    }
}

/// Reads a number from a text: see [`decimal_u64`].
pub fn read_decimal_u64(text: &str) -> (r: Option<u64>)
    ensures
        r == decimal_u64(text@),
{
    let ghost digits = unsigned_part(text@);
    if !text.is_ascii() {
        proof {
            let i = choose|i: int| 0 <= i < text@.len() && !('\0' <= #[trigger] text@[i] <= '\u{7f}');
            if text@.len() > 0 && text@[0] == '+' {
                assert(i >= 1);
                assert(digits[i - 1] == text@[i]);
            } else {
                assert(digits[i] == text@[i]);
            }
            assert(!all_digits(digits));
        }
        return None;
    }
    let bytes = text.as_bytes_vec();
    proof {
        vstd::string::is_ascii_spec_bytes(text);
        assert(bytes@.len() == text@.len());
        assert(forall|i: int| 0 <= i < bytes@.len() ==> #[trigger] bytes@[i] == text@[i] as u8);
        assert(forall|i: int| 0 <= i < text@.len() ==> '\0' <= #[trigger] text@[i] <= '\u{7f}');
    }
    let n = bytes.len();
    let start: usize = if n > 0 && bytes[0] == 43u8 {
        1
    } else {
        0
    };
    assert(digits =~= text@.subrange(start as int, n as int)) by {
        if n > 0 {
            assert('\0' <= text@[0] <= '\u{7f}');
            assert(bytes@[0] == text@[0] as u8);
        }
    }
    if start == n {
        return None;
    }
    let mut value: u64 = 0;
    let mut i: usize = start;
    assert(digits.take(0) =~= Seq::<char>::empty());
    while i < n
        invariant
            start <= i <= n,
            n == bytes@.len(),
            n == text@.len(),
            digits == text@.subrange(start as int, n as int),
            digits == unsigned_part(text@),
            forall|k: int| 0 <= k < n ==> #[trigger] bytes@[k] == text@[k] as u8,
            forall|k: int| 0 <= k < n ==> '\0' <= #[trigger] text@[k] <= '\u{7f}',
            all_digits(digits.take(i - start)),
            value == digits_value(digits.take(i - start)),
        decreases n - i,
    {
        let byte = bytes[i];
        let ghost c = text@[i as int];
        assert('\0' <= c <= '\u{7f}');
        assert(byte == c as u8);
        assert(digits[i - start] == c);
        if byte < 48u8 || byte > 57u8 {
            assert(!('0' <= c <= '9'));
            assert(!all_digits(digits));
            return None;
        }
        assert('0' <= c <= '9');
        let digit: u64 = (byte - 48u8) as u64;
        assert(digit == digit_value(c));
        let ghost longer = digits.take(i - start + 1);
        assert(longer.drop_last() =~= digits.take(i - start));
        assert(longer.last() == c);
        assert(digits_value(longer) == value * 10 + digit);
        if value > (u64::MAX - digit) / 10 {
            proof {
                assert(value * 10 + digit > u64::MAX) by (nonlinear_arith)
                    requires
                        value > (u64::MAX - digit) / 10,
                        digit < 10,
                ;
                first_digits_are_no_more(digits, i - start + 1);
            }
            return None;
        }
        assert(value * 10 + digit <= u64::MAX) by (nonlinear_arith)
            requires
                value <= (u64::MAX - digit) / 10,
                digit < 10,
        ;
        value = value * 10 + digit;
        assert(all_digits(longer)) by {
            assert forall|k: int| 0 <= k < longer.len() implies '0' <= #[trigger] longer[k]
                <= '9' by {
                if k < i - start {
                    assert(digits.take(i - start)[k] == longer[k]);
                }
            }
        }
        i += 1;
    }
    assert(digits.take(n - start) =~= digits);
    Some(value)
}

} // verus!

//! Unsigned decimal text.
//!
//! A block height arrives as text. It is read the way Rust reads a `u64`:
//! an optional `+`, then at least one decimal digit and nothing else, with
//! any number of leading zeros, and a value no larger than `u64::MAX`.

use vstd::prelude::*;
use vstd::string::*;

verus! {

/// Whether `c` is one of `0` to `9`.
pub open spec fn is_decimal_digit(c: char) -> bool {
    '0' <= c <= '9'
}

/// The number that the digit `c` stands for.
pub open spec fn digit_value(c: char) -> nat
    recommends
        is_decimal_digit(c),
{
    (c as int - '0' as int) as nat
}

/// Whether every character of `digits` is a decimal digit.
pub open spec fn all_decimal_digits(digits: Seq<char>) -> bool {
    forall|i: int| 0 <= i < digits.len() ==> is_decimal_digit(#[trigger] digits[i])
}

/// The number that a run of digits denotes, most significant digit first.
pub open spec fn digits_value(digits: Seq<char>) -> nat
    recommends
        all_decimal_digits(digits),
    decreases digits.len(),
{
    if digits.len() == 0 {
        0
    } else {
        10 * digits_value(digits.drop_last()) + digit_value(digits.last())
    }
}

/// `text` without its leading `+`, if it has one.
pub open spec fn without_plus_sign(text: Seq<char>) -> Seq<char> {
    if text.len() > 0 && text[0] == '+' {
        text.skip(1)
    } else {
        text
    }
}

/// The number that `text` denotes, if it is well-formed and fits in 64 bits.
pub open spec fn unsigned_value(text: Seq<char>) -> Option<u64> {
    let digits = without_plus_sign(text);
    if digits.len() > 0 && all_decimal_digits(digits) && digits_value(digits) <= u64::MAX {
        Some(digits_value(digits) as u64)
    } else {
        None
    }
}

/// The digit that stands for `d`.
pub open spec fn digit_of(d: nat) -> char
    recommends
        d < 10,
{
    ('0' as int + d) as char
}

/// The usual decimal writing of `n`: no sign, and no leading zero but for
/// zero itself.
pub open spec fn decimal_digits(n: nat) -> Seq<char>
    decreases n,
{
    if n < 10 {
        seq![digit_of(n)]
    } else {
        decimal_digits(n / 10).push(digit_of(n % 10))
    }
}

/// Ten to the power of `k`.
pub open spec fn power_of_ten(k: nat) -> nat
    decreases k,
{
    if k == 0 {
        1
    } else {
        10 * power_of_ten((k - 1) as nat)
    }
}

/// The usual writing of a number consists of digits, starts with no sign,
/// and denotes that number.
pub proof fn lemma_decimal_digits_denote_their_number(n: nat)
    ensures
        decimal_digits(n).len() >= 1,
        all_decimal_digits(decimal_digits(n)),
        without_plus_sign(decimal_digits(n)) == decimal_digits(n),
        digits_value(decimal_digits(n)) == n,
    decreases n,
{
    let digits = decimal_digits(n);
    if n < 10 {
        assert(digits.drop_last() =~= Seq::<char>::empty());
        assert(digits_value(digits.drop_last()) == 0);
        assert(digits.last() == digit_of(n));
    } else {
        let front = decimal_digits(n / 10);
        lemma_decimal_digits_denote_their_number(n / 10);
        assert(digits.drop_last() =~= front);
        assert(digits.last() == digit_of(n % 10));
        assert(digits[0] == front[0]);
        assert forall|i: int| 0 <= i < digits.len() implies is_decimal_digit(
            #[trigger] digits[i],
        ) by {
            if i < front.len() {
                assert(digits[i] == front[i]);
            }
        }
    }
}

/// A number below ten to the `k` is written with at most `k` digits.
pub proof fn lemma_decimal_digits_are_few(n: nat, k: nat)
    requires
        k >= 1,
        n < power_of_ten(k),
    ensures
        decimal_digits(n).len() <= k,
    decreases n,
{
    if n >= 10 {
        reveal_with_fuel(power_of_ten, 2);
        lemma_decimal_digits_are_few(n / 10, (k - 1) as nat);
    }
}

/// Every number that fits in 64 bits is read back from its usual writing,
/// which has at most 20 digits.
pub proof fn lemma_usual_writing_is_read_back(n: u64)
    ensures
        unsigned_value(decimal_digits(n as nat)) == Some(n),
        1 <= decimal_digits(n as nat).len() <= 20,
{
    lemma_decimal_digits_denote_their_number(n as nat);
    assert(power_of_ten(20) == 100_000_000_000_000_000_000nat) by {
        reveal_with_fuel(power_of_ten, 21);
    }
    lemma_decimal_digits_are_few(n as nat, 20);
}

/// Appending digits never makes the value smaller.
proof fn lemma_prefix_value_is_no_larger(digits: Seq<char>, n: int)
    requires
        0 <= n <= digits.len(),
    ensures
        digits_value(digits.take(n)) <= digits_value(digits),
    decreases digits.len() - n,
{
    if n == digits.len() {
        assert(digits.take(n) =~= digits);
    } else {
        lemma_prefix_value_is_no_larger(digits.drop_last(), n);
        assert(digits.drop_last().take(n) =~= digits.take(n));
    }
}

/// One more digit multiplies the value so far by ten and adds the digit.
proof fn lemma_value_of_one_more_digit(digits: Seq<char>, n: int)
    requires
        0 <= n < digits.len(),
    ensures
        digits_value(digits.take(n + 1)) == 10 * digits_value(digits.take(n)) + digit_value(
            digits[n],
        ),
{
    assert(digits.take(n + 1).drop_last() =~= digits.take(n));
    assert(digits.take(n + 1).last() == digits[n]);
}

/// Text with a character outside ASCII denotes no number.
proof fn lemma_non_ascii_text_has_no_value(text: Seq<char>)
    requires
        !vstd::utf8::is_ascii_chars(text),
    ensures
        unsigned_value(text) is None,
{
    let i = choose|i: int| 0 <= i < text.len() && !('\0' <= #[trigger] text[i] <= '\u{7f}');
    let digits = without_plus_sign(text);
    if text[0] == '+' {
        assert(digits[i - 1] == text[i]);
        assert(!is_decimal_digit(digits[i - 1]));
    } else {
        assert(!is_decimal_digit(digits[i]));
    }
}

/// Reads an unsigned 64-bit number from decimal text.
///
/// The result is `None` for the empty text, for a lone `+`, where anything
/// but a digit follows the optional `+`, and where the number exceeds
/// `u64::MAX`.
pub fn parse_unsigned(text: &str) -> (value: Option<u64>)
    ensures
        value == unsigned_value(text@),
{
    broadcast use is_ascii_spec_bytes;

    if !text.is_ascii() {
        proof {
            lemma_non_ascii_text_has_no_value(text@);
        }
        return None;
    }
    let bytes = text.as_bytes();
    let n: usize = bytes.len();
    let start: usize = if n > 0 && bytes[0] == 43u8 {
        1
    } else {
        0
    };
    let ghost digits = without_plus_sign(text@);
    assert(digits.len() == n - start);
    if start == n {
        return None;
    }
    let mut acc: u64 = 0;
    let mut i: usize = start;
    assert(digits.take(0) =~= Seq::<char>::empty());
    while i < n
        invariant
            start <= i <= n,
            n == text@.len(),
            bytes@.len() == n,
            vstd::utf8::is_ascii_chars(text@),
            forall|j: int| 0 <= j < n ==> bytes@[j] == text@[j] as u8,
            digits == without_plus_sign(text@),
            digits.len() == n - start,
            forall|j: int| 0 <= j < digits.len() ==> digits[j] == text@[j + start],
            forall|j: int| 0 <= j < i - start ==> is_decimal_digit(#[trigger] digits[j]),
            acc == digits_value(digits.take(i - start)),
        decreases n - i,
    {
        let b: u8 = bytes[i];
        let ghost c = text@[i as int];
        assert(c == digits[i - start]);
        assert('\0' <= c <= '\u{7f}');
        assert(b == c as u8);
        if b < 48u8 || b > 57u8 {
            assert(!is_decimal_digit(digits[i - start]));
            return None;
        }
        let d: u64 = (b - 48u8) as u64;
        proof {
            assert(is_decimal_digit(c));
            assert(d == digit_value(c));
            lemma_value_of_one_more_digit(digits, i - start);
        }
        if acc > (u64::MAX - d) / 10 {
            proof {
                lemma_prefix_value_is_no_larger(digits, i - start + 1);
            }
            return None;
        }
        acc = acc * 10 + d;
        i = i + 1;
    }
    assert(digits.take(i - start) =~= digits);
    Some(acc)
}

} // verus!

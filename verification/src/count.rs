//! Follower counts as the user types them.
//!
//! A follower count is entered as text. The text stands for a count when it
//! is a run of decimal digits, optionally led by a plus sign, whose value a
//! record can hold. Any other text stands for nothing, and the editing
//! policy replaces it by zero.

use vstd::prelude::*;
use vstd::string::*;

verus! {

/// The largest follower count a record can hold.
pub const MAX_FOLLOWERS: i32 = 2_147_483_647;

/// Whether `c` is one of the ten ASCII decimal digits.
pub open spec fn is_digit(c: char) -> bool {
    '0' <= c <= '9'
}

/// The number that the digit `c` stands for.
pub open spec fn digit_value(c: char) -> nat
    recommends
        is_digit(c),
{
    (c as int - '0' as int) as nat
}

/// Whether every character of `s` is a decimal digit.
pub open spec fn all_digits(s: Seq<char>) -> bool {
    forall|i: int| 0 <= i < s.len() ==> is_digit(#[trigger] s[i])
}

/// The number that a run of digits writes in base ten; the empty run
/// writes zero.
pub open spec fn decimal_value(s: Seq<char>) -> nat
    recommends
        all_digits(s),
    decreases s.len(),
{
    if s.len() == 0 {
        0
    } else {
        decimal_value(s.drop_last()) * 10 + digit_value(s.last())
    }
}

/// The text without its leading plus sign, if it has one.
pub open spec fn unsigned_part(s: Seq<char>) -> Seq<char> {
    if s.len() > 0 && s[0] == '+' {
        s.drop_first()
    } else {
        s
    }
}

/// Whether `s` is the text of a follower count: at least one digit, nothing
/// but digits after an optional plus sign, and a value of at most
/// [`MAX_FOLLOWERS`].
pub open spec fn is_count_text(s: Seq<char>) -> bool {
    let digits = unsigned_part(s);
    &&& digits.len() > 0
    &&& all_digits(digits)
    &&& decimal_value(digits) <= MAX_FOLLOWERS
}

/// The count that `s` stands for, where it stands for one.
pub open spec fn count_of(s: Seq<char>) -> Option<int> {
    if is_count_text(s) {
        Some(decimal_value(unsigned_part(s)) as int)
    } else {
        None
    }
}

/// The count that an edit with the text `s` stores: the count that `s`
/// stands for, and zero for any other text.
pub open spec fn count_or_zero(s: Seq<char>) -> int {
    match count_of(s) {
        Some(n) => n,
        None => 0,
    }
}

/// A run of digits is worth at least as much as each of its prefixes.
pub proof fn lemma_prefix_value_le(s: Seq<char>, k: int)
    requires
        0 <= k <= s.len(),
    ensures
        decimal_value(s.subrange(0, k)) <= decimal_value(s),
    decreases s.len() - k,
{
    if k == s.len() {
        assert(s.subrange(0, k) =~= s);
    } else {
        lemma_prefix_value_le(s.drop_last(), k);
        assert(s.drop_last().subrange(0, k) =~= s.subrange(0, k));
    }
}

/// The text of a follower count holds nothing but ASCII.
pub proof fn lemma_count_text_is_ascii(s: Seq<char>)
    requires
        is_count_text(s),
    ensures
        vstd::utf8::is_ascii_chars(s),
{
    let digits = unsigned_part(s);
    assert forall|i: int| 0 <= i < s.len() implies '\0' <= #[trigger] s[i] <= '\u{7f}' by {
        if s[0] != '+' {
            assert(is_digit(digits[i]));
        } else if i > 0 {
            assert(is_digit(digits[i - 1]));
        }
    }
}

/// Reads a follower count from `text`.
///
/// Returns the count when `text` is an optional plus sign followed by one
/// or more decimal digits whose value is at most [`MAX_FOLLOWERS`], and
/// `None` for every other text: the empty text, a lone sign, a minus sign,
/// blanks, letters, or a number too large to hold.
pub fn parse_count(text: &str) -> (r: Option<i32>)
    ensures
        r is Some <==> is_count_text(text@),
        r matches Some(n) ==> 0 <= n && count_of(text@) == Some(n as int),
{
    if !text.is_ascii() {
        proof {
            if is_count_text(text@) {
                lemma_count_text_is_ascii(text@);
            }
        }
        return None;
    }
    let bytes = text.as_bytes();
    proof {
        is_ascii_spec_bytes(text);
    }
    let n = bytes.len();
    let start: usize = if n > 0 && bytes[0] == 43u8 {
        1
    } else {
        0
    };
    let ghost digits = unsigned_part(text@);
    if start == n {
        return None;
    }
    let mut value: i64 = 0;
    let mut i: usize = start;
    while i < n
        invariant
            start <= i <= n,
            n == text@.len(),
            n == bytes@.len(),
            is_ascii(text),
            forall|j: int| 0 <= j < n ==> bytes@[j] == #[trigger] text@[j] as u8,
            digits == unsigned_part(text@),
            digits == text@.subrange(start as int, n as int),
            all_digits(digits.subrange(0, i - start)),
            value == decimal_value(digits.subrange(0, i - start)),
            0 <= value <= MAX_FOLLOWERS,
        decreases n - i,
    {
        let b = bytes[i];
        let ghost k = i - start;
        assert(b == digits[k] as u8);
        if b < 48u8 || b > 57u8 {
            assert(!is_digit(digits[k]));
            return None;
        }
        let d: i64 = (b - 48u8) as i64;
        proof {
            let longer = digits.subrange(0, k + 1);
            assert(longer.drop_last() =~= digits.subrange(0, k));
            assert(decimal_value(longer) == value * 10 + d);
            assert forall|j: int| 0 <= j < longer.len() implies is_digit(#[trigger] longer[j]) by {
                if j < k {
                    assert(longer[j] == digits.subrange(0, k)[j]);
                }
            }
        }
        let next: i64 = value * 10 + d;
        if next > MAX_FOLLOWERS as i64 {
            proof {
                lemma_prefix_value_le(digits, k + 1);
            }
            return None;
        }
        value = next;
        i = i + 1;
    }
    assert(digits.subrange(0, i - start) =~= digits);
    Some(value as i32)
}

/// Reads a follower count from `text`, with zero in place of any text that
/// is no count. Nothing is rejected: an edit always stores a count.
pub fn parse_or_zero(text: &str) -> (n: i32)
    ensures
        n == count_or_zero(text@),
        0 <= n <= MAX_FOLLOWERS,
{
    match parse_count(text) {
        Some(n) => n,
        None => 0,
    }
}

} // verus!

//! Decimal text: reading a signed 32-bit integer from typed characters and
//! writing one out.

use vstd::prelude::*;

verus! {

/// `c` is one of the ten ASCII digits.
pub open spec fn is_digit(c: char) -> bool {
    '0' <= c && c <= '9'
}

/// The number that the digit `c` stands for.
pub open spec fn digit_value(c: char) -> int {
    c as int - 48
}

/// The digit that stands for `d`, for `d` from 0 to 9.
pub open spec fn digit_char(d: int) -> char {
    (d + 48) as char
}

/// Every character of `s` is a digit.
pub open spec fn all_digits(s: Seq<char>) -> bool {
    forall|i: int| 0 <= i < s.len() ==> is_digit(#[trigger] s[i])
}

/// The number that a row of digits denotes in base ten; the empty row denotes 0.
pub open spec fn digits_value(s: Seq<char>) -> int
    decreases s.len(),
{
    if s.len() == 0 {
        0
    } else {
        10 * digits_value(s.drop_last()) + digit_value(s.last())
    }
}

/// What a text denotes as a signed 32-bit integer: an optional `+` or `-`,
/// then at least one digit and nothing else, with a value that fits. Every
/// other text denotes nothing.
pub open spec fn spec_parse_i32(s: Seq<char>) -> Option<i32> {
    let signed = s.len() > 0 && (s[0] == '-' || s[0] == '+');
    let body = if signed {
        s.subrange(1, s.len() as int)
    } else {
        s
    };
    let value = if s.len() > 0 && s[0] == '-' {
        -digits_value(body)
    } else {
        digits_value(body)
    };
    if body.len() > 0 && all_digits(body) && i32::MIN <= value <= i32::MAX {
        Some(value as i32)
    } else {
        None
    }
}

/// The digits of `n` in base ten, without leading zeros.
pub open spec fn digits_of(n: nat) -> Seq<char>
    decreases n,
{
    if n < 10 {
        seq![digit_char(n as int)]
    } else {
        digits_of(n / 10).push(digit_char((n % 10) as int))
    }
}

/// The decimal text of `n`: a `-` in front of the digits where `n` is negative.
pub open spec fn spec_decimal(n: int) -> Seq<char> {
    if n < 0 {
        seq!['-'] + digits_of((-n) as nat)
    } else {
        digits_of(n as nat)
    }
}

/// A row of digits denotes no negative number.
pub proof fn lemma_digits_value_nonnegative(s: Seq<char>)
    requires
        all_digits(s),
    ensures
        digits_value(s) >= 0,
    decreases s.len(),
{
    if s.len() > 0 {
        lemma_digits_value_nonnegative(s.drop_last());
    }
}

/// A row of digits denotes at least what any of its beginnings denotes.
pub proof fn lemma_prefix_value_le(s: Seq<char>, k: int)
    requires
        all_digits(s),
        0 <= k <= s.len(),
    ensures
        digits_value(s.subrange(0, k)) <= digits_value(s),
    decreases s.len(),
{
    if k == s.len() {
        assert(s.subrange(0, k) =~= s);
    } else {
        let front = s.drop_last();
        assert(front.subrange(0, k) =~= s.subrange(0, k));
        lemma_prefix_value_le(front, k);
        lemma_digits_value_nonnegative(front);
    }
}

/// The digits of a number are at least one, are digits, and denote the number.
pub proof fn lemma_digits_of_denote(n: nat)
    ensures
        digits_of(n).len() >= 1,
        all_digits(digits_of(n)),
        digits_value(digits_of(n)) == n,
    decreases n,
{
    let s = digits_of(n);
    if n < 10 {
        assert(digits_value(s.drop_last()) == 0);
    } else {
        let front = digits_of(n / 10);
        lemma_digits_of_denote(n / 10);
        assert(s.drop_last() =~= front);
        assert forall|i: int| 0 <= i < s.len() implies is_digit(#[trigger] s[i]) by {
            if i < front.len() {
                assert(s[i] == front[i]);
            }
        }
    }
}

/// Reading the decimal text of a number gives the number back.
pub proof fn lemma_parse_of_decimal(n: i32)
    ensures
        spec_parse_i32(spec_decimal(n as int)) == Some(n),
{
    let s = spec_decimal(n as int);
    if n < 0 {
        let body = digits_of((-n) as nat);
        lemma_digits_of_denote((-n) as nat);
        assert(s.subrange(1, s.len() as int) =~= body);
    } else {
        lemma_digits_of_denote(n as nat);
    }
}

/// Reads `text` as a signed 32-bit integer in base ten.
pub fn parse_i32(text: &str) -> (parsed: Option<i32>)
    ensures
        parsed == spec_parse_i32(text@),
{
    let n = text.unicode_len();
    if n == 0 {
        return None;
    }
    let first = text.get_char(0);
    let negative = first == '-';
    let start: usize = if first == '-' || first == '+' {
        1
    } else {
        0
    };
    let ghost body = text@.subrange(start as int, n as int);
    assert(start == 0 ==> body =~= text@);
    if start == n {
        return None;
    }
    let mut magnitude: i64 = 0;
    let mut i: usize = start;
    while i < n
        invariant
            start <= i <= n,
            n == text@.len(),
            negative == (text@[0] == '-'),
            start == if text@[0] == '-' || text@[0] == '+' { 1int } else { 0int },
            body == text@.subrange(start as int, n as int),
            all_digits(body.subrange(0, i - start)),
            magnitude == digits_value(body.subrange(0, i - start)),
            0 <= magnitude <= 2147483648,
        decreases n - i,
    {
        let c = text.get_char(i);
        let ghost seen = body.subrange(0, i + 1 - start);
        assert(seen.drop_last() =~= body.subrange(0, i - start));
        if !('0' <= c && c <= '9') {
            assert(!is_digit(body[i - start]));
            return None;
        }
        let digit: i64 = (c as u32 - 48) as i64;
        magnitude = magnitude * 10 + digit;
        if magnitude > 2147483648 {
            proof {
                assert(start == 0 ==> body =~= text@);
                if all_digits(body) {
                    lemma_prefix_value_le(body, i + 1 - start);
                }
            }
            return None;
        }
        i += 1;
    }
    assert(body.subrange(0, n - start) =~= body);
    if negative {
        Some((-magnitude) as i32)
    } else if magnitude > 2147483647 {
        None
    } else {
        Some(magnitude as i32)
    }
}

/// Appends the digits of `n` to `out`.
fn push_digits(out: &mut String, n: u32)
    ensures
        final(out)@ == old(out)@ + digits_of(n as nat),
    decreases n,
{
    if n >= 10 {
        push_digits(out, n / 10);
    }
    let d: u8 = (n % 10) as u8;
    out.push((48 + d) as char);
}

/// Writes `n` in base ten.
pub fn render_i32(n: i32) -> (text: String)
    ensures
        text@ == spec_decimal(n as int),
{
    let mut text = String::new();
    let wide: i64 = n as i64;
    if wide < 0 {
        text.push('-');
        push_digits(&mut text, (-wide) as u32);
    } else {
        push_digits(&mut text, wide as u32);
    }
    text
}

} // verus!

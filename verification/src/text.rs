//! Decimal numerals and the other pieces of text the bot reads and writes.

use vstd::prelude::*;
use vstd::string::{StringExecFns, StringSliceAdditionalSpecFns};

verus! {

/// Whether `c` is one of the ten decimal digits.
pub open spec fn is_digit(c: char) -> bool {
    '0' <= c <= '9'
}

/// The number a decimal digit stands for; 0 for any other character.
pub open spec fn digit_value(c: char) -> nat {
    if is_digit(c) {
        (c as int - '0' as int) as nat
    } else {
        0
    }
}

/// The decimal digit that stands for `d`, for `d` below ten.
pub open spec fn digit_char(d: nat) -> char {
    if d == 0 {
        '0'
    } else if d == 1 {
        '1'
    } else if d == 2 {
        '2'
    } else if d == 3 {
        '3'
    } else if d == 4 {
        '4'
    } else if d == 5 {
        '5'
    } else if d == 6 {
        '6'
    } else if d == 7 {
        '7'
    } else if d == 8 {
        '8'
    } else {
        '9'
    }
}

/// Whether `s` consists of decimal digits only.
pub open spec fn all_digits(s: Seq<char>) -> bool {
    forall|i: int| 0 <= i < s.len() ==> is_digit(#[trigger] s[i])
}

/// Whether `s` is a decimal numeral: one or more digits and nothing else.
pub open spec fn is_numeral(s: Seq<char>) -> bool {
    s.len() > 0 && all_digits(s)
}

/// The number that the digits of `s` denote, most significant digit first.
pub open spec fn numeral_value(s: Seq<char>) -> nat
    decreases s.len(),
{
    if s.len() == 0 {
        0
    } else {
        10 * numeral_value(s.drop_last()) + digit_value(s.last())
    }
}

/// The decimal numeral of `n`, without leading zeros.
pub open spec fn numeral(n: nat) -> Seq<char>
    decreases n,
{
    if n < 10 {
        seq![digit_char(n)]
    } else {
        numeral(n / 10).push(digit_char(n % 10))
    }
}

/// The decimal numeral of `n`, preceded by a minus sign if `n` is negative.
pub open spec fn signed_numeral(n: int) -> Seq<char> {
    if n < 0 {
        seq!['-'] + numeral((-n) as nat)
    } else {
        numeral(n as nat)
    }
}

/// `s` without the plus sign that may precede an unsigned number.
pub open spec fn without_plus(s: Seq<char>) -> Seq<char> {
    if s.len() > 0 && s[0] == '+' {
        s.skip(1)
    } else {
        s
    }
}

/// What `s` says as an unsigned 64-bit number: an optional plus sign followed
/// by a numeral whose value fits. Everything else says nothing.
pub open spec fn parsed_u64(s: Seq<char>) -> Option<u64> {
    let digits = without_plus(s);
    if is_numeral(digits) && numeral_value(digits) <= u64::MAX {
        Some(numeral_value(digits) as u64)
    } else {
        None
    }
}

/// The strings of `parts` in order, with `separator` between neighbours.
pub open spec fn joined(parts: Seq<Seq<char>>, separator: Seq<char>) -> Seq<char>
    decreases parts.len(),
{
    if parts.len() == 0 {
        Seq::empty()
    } else if parts.len() == 1 {
        parts[0]
    } else {
        joined(parts.drop_last(), separator) + separator + parts.last()
    }
}

/// A numeral's value does not shrink when digits are added at its end.
pub proof fn lemma_value_of_prefix(s: Seq<char>, k: int)
    requires
        0 <= k <= s.len(),
    ensures
        numeral_value(s.take(k)) <= numeral_value(s),
    decreases s.len(),
{
    if k == s.len() {
        assert(s.take(k) == s);
    } else {
        assert(s.drop_last().take(k) == s.take(k));
        lemma_value_of_prefix(s.drop_last(), k);
    }
}

/// The numeral of a number consists of digits and denotes that number.
pub proof fn lemma_numeral_denotes(n: nat)
    ensures
        is_numeral(numeral(n)),
        numeral_value(numeral(n)) == n,
        numeral(n)[0] != '+',
    decreases n,
{
    if n < 10 {
        let s = numeral(n);
        assert(s.drop_last().len() == 0);
        assert(numeral_value(s) == 10 * numeral_value(s.drop_last()) + digit_value(s.last()));
    } else {
        lemma_numeral_denotes(n / 10);
        let s = numeral(n);
        assert(s.drop_last() == numeral(n / 10));
        assert(s.last() == digit_char(n % 10));
        assert(numeral_value(s) == 10 * numeral_value(s.drop_last()) + digit_value(s.last()));
    }
}

/// Writing a number as a numeral and reading the numeral back gives the
/// number.
pub proof fn lemma_numeral_round_trip(n: u64)
    ensures
        parsed_u64(numeral(n as nat)) == Some(n),
{
    lemma_numeral_denotes(n as nat);
}

/// The one-character string of the digit for `d`.
fn digit_text(d: u64) -> (text: &'static str)
    requires
        d < 10,
    ensures
        text@ == seq![digit_char(d as nat)],
{
    proof {
        reveal_strlit("0");
        reveal_strlit("1");
        reveal_strlit("2");
        reveal_strlit("3");
        reveal_strlit("4");
        reveal_strlit("5");
        reveal_strlit("6");
        reveal_strlit("7");
        reveal_strlit("8");
        reveal_strlit("9");
    }
    if d == 0 {
        "0"
    } else if d == 1 {
        "1"
    } else if d == 2 {
        "2"
    } else if d == 3 {
        "3"
    } else if d == 4 {
        "4"
    } else if d == 5 {
        "5"
    } else if d == 6 {
        "6"
    } else if d == 7 {
        "7"
    } else if d == 8 {
        "8"
    } else {
        "9"
    }
}

/// Appends the decimal numeral of `n` to `out`.
pub fn push_numeral(out: &mut String, n: u64)
    ensures
        final(out)@ == old(out)@ + numeral(n as nat),
    decreases n,
{
    if n >= 10 {
        push_numeral(out, n / 10);
    }
    out.append(digit_text(n % 10));
    assert(final(out)@ == old(out)@ + numeral(n as nat)) by {
        if n >= 10 {
            assert(old(out)@ + numeral((n / 10) as nat) + seq![digit_char((n % 10) as nat)]
                == old(out)@ + numeral(n as nat));
        }
    }
}

/// The decimal numeral of `n`.
pub fn decimal_text(n: u64) -> (text: String)
    ensures
        text@ == numeral(n as nat),
{
    let mut text = String::new();
    push_numeral(&mut text, n);
    text
}

/// Reads an unsigned 64-bit number: an optional plus sign, then decimal
/// digits.
pub fn parse_u64(s: &str) -> (number: Option<u64>)
    ensures
        number == parsed_u64(s@),
{
    let mut value: u64 = 0;
    let mut first = true;
    let mut plus = false;
    let mut any_digit = false;
    for c in it: s.chars()
        invariant
            it.seq() == s@,
            first == (it.index() == 0),
            plus == (it.index() > 0 && s@[0] == '+'),
            plus ==> it.index() >= 1,
            any_digit == (it.index() > (if plus { 1int } else { 0int })),
            all_digits(s@.subrange(if plus { 1int } else { 0int }, it.index() as int)),
            value == numeral_value(s@.subrange(if plus { 1int } else { 0int }, it.index() as int)),
    {
        let ghost i = it.index() as int;
        let ghost start = if plus { 1int } else { 0int };
        assert(c == s@[i]);
        if first && c == '+' {
            plus = true;
            assert(s@.subrange(1, 1) =~= Seq::<char>::empty());
        } else if c >= '0' && c <= '9' {
            let digit: u64 = (c as u32 - '0' as u32) as u64;
            let ghost read = s@.subrange(start, i + 1);
            assert(read.drop_last() == s@.subrange(start, i));
            assert(read.last() == c);
            assert(numeral_value(read) == 10 * value + digit);
            assert(all_digits(read)) by {
                assert forall|j: int| 0 <= j < read.len() implies is_digit(#[trigger] read[j]) by {
                    if j < read.len() - 1 {
                        assert(read[j] == s@.subrange(start, i)[j]);
                    }
                }
            }
            let scaled = value.checked_mul(10);
            let next = match scaled {
                Some(scaled) => scaled.checked_add(digit),
                None => None,
            };
            match next {
                Some(next) => {
                    value = next;
                    any_digit = true;
                },
                None => {
                    proof {
                        let digits = without_plus(s@);
                        assert(digits.take(i + 1 - start) == read);
                        lemma_value_of_prefix(digits, i + 1 - start);
                    }
                    return None;
                },
            }
        } else {
            proof {
                let digits = without_plus(s@);
                assert(digits[i - start] == c);
            }
            return None;
        }
        first = false;
    }
    proof {
        let start = if plus { 1int } else { 0int };
        assert(without_plus(s@) == s@.subrange(start, s@.len() as int));
    }
    if any_digit {
        Some(value)
    } else {
        None
    }
}

/// Whether two strings hold the same characters.
pub fn same_text(a: &str, b: &str) -> (same: bool)
    ensures
        same == (a@ == b@),
{
    let left = a.as_bytes();
    let right = b.as_bytes();
    proof {
        vstd::utf8::encode_utf8_decode_utf8(a@);
        vstd::utf8::encode_utf8_decode_utf8(b@);
    }
    if left.len() != right.len() {
        return false;
    }
    let mut i: usize = 0;
    while i < left.len()
        invariant
            i <= left.len(),
            left.len() == right.len(),
            left@ == a.spec_bytes(),
            right@ == b.spec_bytes(),
            forall|j: int| 0 <= j < i ==> left@[j] == right@[j],
        decreases left.len() - i,
    {
        if left[i] != right[i] {
            return false;
        }
        i = i + 1;
    }
    assert(left@ =~= right@);
    true
}

/// Appends the decimal numeral of `n` to `out`, with a minus sign if `n` is
/// negative.
pub fn push_signed_numeral(out: &mut String, n: i64)
    ensures
        final(out)@ == old(out)@ + signed_numeral(n as int),
{
    if n < 0 {
        proof {
            reveal_strlit("-");
        }
        out.append("-");
        let size: u64 = if n == i64::MIN {
            9223372036854775808
        } else {
            (-n) as u64
        };
        push_numeral(out, size);
        assert(old(out)@ + "-"@ + numeral(size as nat) == old(out)@ + (seq!['-'] + numeral(
            size as nat,
        )));
    } else {
        push_numeral(out, n as u64);
    }
}

/// The strings of `parts` in order, with `separator` between neighbours.
pub fn join(parts: &Vec<String>, separator: &str) -> (text: String)
    ensures
        text@ == joined(parts.deep_view(), separator@),
{
    let mut text = String::new();
    let mut i: usize = 0;
    while i < parts.len()
        invariant
            i <= parts.len(),
            text@ == joined(parts.deep_view().take(i as int), separator@),
        decreases parts.len() - i,
    {
        let ghost before = parts.deep_view().take(i as int);
        let ghost after = parts.deep_view().take(i + 1);
        assert(after.drop_last() == before);
        assert(after.last() == parts[i as int]@);
        if i > 0 {
            text.append(separator);
        }
        text.append(parts[i].as_str());
        i = i + 1;
    }
    assert(parts.deep_view().take(parts.len() as int) == parts.deep_view());
    text
}

} // verus!

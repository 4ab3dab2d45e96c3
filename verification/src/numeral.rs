//! Unsigned decimal numerals: reading one from a text and writing one out.

use vstd::prelude::*;

verus! {

/// Whether a character is one of the digits `0` to `9`.
pub open spec fn is_digit(c: char) -> bool {
    '0' <= c <= '9'
}

/// The value of a digit.
pub open spec fn digit_value(c: char) -> nat {
    (c as nat - '0' as nat) as nat
}

/// Whether a text holds digits only.
pub open spec fn all_digits(s: Seq<char>) -> bool {
    forall|i: int| 0 <= i < s.len() ==> is_digit(#[trigger] s[i])
}

/// The number that a text of digits denotes.
pub open spec fn digits_value(s: Seq<char>) -> nat
    decreases s.len(),
{
    if s.len() == 0 {
        0
    } else {
        digits_value(s.drop_last()) * 10 + digit_value(s.last())
    }
}

/// A numeral without the plus sign that may stand in front of it.
pub open spec fn unsigned_part(s: Seq<char>) -> Seq<char> {
    if s.len() > 0 && s[0] == '+' {
        s.drop_first()
    } else {
        s
    }
}

/// The number that a text denotes, where the text is a numeral of a number
/// that fits 64 bits: an optional plus sign, then one digit or more, and
/// nothing else.
pub open spec fn parsed_u64(s: Seq<char>) -> Option<u64> {
    let digits = unsigned_part(s);
    if digits.len() > 0 && all_digits(digits) && digits_value(digits) <= u64::MAX {
        Some(digits_value(digits) as u64)
    } else {
        None
    }
}

/// The numeral of a number: its decimal digits, without leading zeros.
pub open spec fn decimal_digits(n: nat) -> Seq<char>
    decreases n,
{
    if n < 10 {
        seq![digit_char(n)]
    } else {
        decimal_digits(n / 10).push(digit_char(n % 10))
    }
}

/// The digit of a value below ten.
pub open spec fn digit_char(d: nat) -> char {
    (d + '0' as nat) as char
}

/// A longer text of digits denotes no smaller a number than its beginning.
proof fn lemma_value_grows(s: Seq<char>, k: int)
    requires
        0 <= k <= s.len(),
    ensures
        digits_value(s.take(k)) <= digits_value(s),
    decreases s.len() - k,
{
    if k == s.len() {
        assert(s.take(k) =~= s);
    } else {
        lemma_value_grows(s, k + 1);
        assert(s.take(k + 1).drop_last() =~= s.take(k));
    }
}

/// Reads an unsigned decimal numeral. The text is accepted if it is an
/// optional plus sign followed by one digit or more, with nothing before or
/// after, and if the number fits 64 bits; every other text is refused.
pub fn parse_u64(s: &str) -> (r: Option<u64>)
    ensures
        r == parsed_u64(s@),
{
    broadcast use vstd::string::group_string_axioms;

    let ghost digits = unsigned_part(s@);
    let ghost mut count: int = 0;
    let mut value: u64 = 0;
    let mut at_start = true;
    let mut seen_digit = false;
    assert(digits.take(0) =~= Seq::<char>::empty());
    for c in it: s.chars()
        invariant
            it.seq() == s@,
            digits == unsigned_part(s@),
            at_start <==> it.index() == 0,
            0 <= count <= digits.len(),
            count == it.index() - (s@.len() - digits.len()) || (at_start && count == 0),
            seen_digit <==> count > 0,
            all_digits(digits.take(count)),
            value == digits_value(digits.take(count)),
    {
        if at_start && c == '+' {
            at_start = false;
        } else {
            at_start = false;
            assert(digits[count] == c);
            if !('0' <= c && c <= '9') {
                assert(!is_digit(digits[count]));
                return None;
            }
            let d = (c as u32 - '0' as u32) as u64;
            proof {
                assert(digits.take(count + 1).drop_last() =~= digits.take(count));
                assert(digits.take(count + 1).last() == c);
                assert(digits_value(digits.take(count + 1)) == value * 10 + d);
                lemma_value_grows(digits, count + 1);
            }
            if value > (u64::MAX - d) / 10 {
                assert(digits_value(digits) > u64::MAX);
                return None;
            }
            value = value * 10 + d;
            seen_digit = true;
            proof {
                count = count + 1;
            }
        }
    }
    assert(digits.take(count) =~= digits);
    if seen_digit {
        Some(value)
    } else {
        None
    }
}

fn digit_text(d: u64) -> (r: &'static str)
    requires
        d < 10,
    ensures
        r@ == seq![digit_char(d as nat)],
{
    proof {
        reveal_strlit("0");
        reveal_strlit("1");
        reveal_strlit("2");
        reveal_strlit("3");
        reveal_strlit("4");
        reveal_strlit("5");
        reveal_strlit("6");
        reveal_strlit("7");
        reveal_strlit("8");
        reveal_strlit("9");
    }
    let text = if d == 0 {
        "0"
    } else if d == 1 {
        "1"
    } else if d == 2 {
        "2"
    } else if d == 3 {
        "3"
    } else if d == 4 {
        "4"
    } else if d == 5 {
        "5"
    } else if d == 6 {
        "6"
    } else if d == 7 {
        "7"
    } else if d == 8 {
        "8"
    } else {
        "9"
    };
    assert(text@ =~= seq![digit_char(d as nat)]);
    text
}

fn append_decimal(text: &mut String, n: u64)
    ensures
        final(text)@ == old(text)@ + decimal_digits(n as nat),
    decreases n,
{
    if n >= 10 {
        append_decimal(text, n / 10);
    }
    text.append(digit_text(n % 10));
    assert(old(text)@ + decimal_digits(n as nat) =~= if n >= 10 {
        (old(text)@ + decimal_digits((n / 10) as nat)).push(digit_char((n % 10) as nat))
    } else {
        old(text)@.push(digit_char(n as nat))
    });
}

/// Writes a number as its decimal numeral.
pub fn decimal_text(n: u64) -> (r: String)
    ensures
        r@ == decimal_digits(n as nat),
{
    let mut text = String::new();
    append_decimal(&mut text, n);
    text
}

/// A numeral that was written out reads back as the number it was written
/// for.
pub proof fn lemma_numeral_round_trip(n: u64)
    ensures
        parsed_u64(decimal_digits(n as nat)) == Some(n),
{
    lemma_digits_of_numeral(n as nat);
}

/// A numeral holds digits only, does not start with a plus sign, and
/// denotes the number it was written for.
proof fn lemma_digits_of_numeral(n: nat)
    ensures
        decimal_digits(n).len() > 0,
        all_digits(decimal_digits(n)),
        digits_value(decimal_digits(n)) == n,
        decimal_digits(n)[0] != '+',
    decreases n,
{
    if n < 10 {
        let s = seq![digit_char(n)];
        assert(s.drop_last() =~= Seq::<char>::empty());
        assert(digits_value(s.drop_last()) == 0);
    } else {
        lemma_digits_of_numeral(n / 10);
        let s = decimal_digits(n);
        assert(s.drop_last() =~= decimal_digits(n / 10));
    }
}

} // verus!

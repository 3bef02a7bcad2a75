//! Decimal numerals: how numbers are shown and how a port number is read back.
use vstd::prelude::*;
use vstd::string::StringExecFns;

verus! {

/// The character of a decimal digit.
pub open spec fn digit_char(digit: int) -> char {
    (48 + digit) as char
}

/// Whether a character is a decimal digit.
pub open spec fn is_digit(c: char) -> bool {
    '0' <= c <= '9'
}

/// The decimal numeral of a number, without leading zeros.
pub open spec fn numeral(n: nat) -> Seq<char>
    decreases n,
{
    if n < 10 {
        seq![digit_char(n as int)]
    } else {
        numeral(n / 10).push(digit_char((n % 10) as int))
    }
}

/// The decimal numeral of an integer, with a minus sign in front where it is negative.
pub open spec fn signed_numeral(n: int) -> Seq<char> {
    if n < 0 {
        seq!['-'] + numeral((-n) as nat)
    } else {
        numeral(n as nat)
    }
}

/// Whether a text is made of decimal digits alone.
pub open spec fn all_digits(text: Seq<char>) -> bool {
    forall|i: int| 0 <= i < text.len() ==> is_digit(#[trigger] text[i])
}

/// The number that a text of decimal digits stands for.
pub open spec fn digits_value(text: Seq<char>) -> nat
    decreases text.len(),
{
    if text.len() == 0 {
        0
    } else {
        digits_value(text.drop_last()) * 10 + (text.last() as int - 48) as nat
    }
}

/// What is left of a text without one leading plus sign.
pub open spec fn without_plus(text: Seq<char>) -> Seq<char> {
    if text.len() > 0 && text[0] == '+' {
        text.drop_first()
    } else {
        text
    }
}

/// The port number that a text stands for: an optional plus sign, then one digit or more and
/// nothing else, with a value that fits.
pub open spec fn port_of(text: Seq<char>) -> Option<u16> {
    let digits = without_plus(text);
    if digits.len() == 0 || !all_digits(digits) || digits_value(digits) > u16::MAX {
        None
    } else {
        Some(digits_value(digits) as u16)
    }
}

/// The value of a text of digits is at least that of each of its beginnings.
proof fn lemma_value_of_beginning(text: Seq<char>, n: int)
    requires
        0 <= n <= text.len(),
    ensures
        digits_value(text.take(n)) <= digits_value(text),
    decreases text.len(),
{
    if n == text.len() {
        assert(text.take(n) =~= text);
    } else {
        lemma_value_of_beginning(text.drop_last(), n);
        assert(text.drop_last().take(n) =~= text.take(n));
    }
}

/// A numeral is made of digits, is not empty, and stands for the number it was made from.
pub proof fn lemma_numeral_stands_for_its_number(n: nat)
    ensures
        numeral(n).len() > 0,
        all_digits(numeral(n)),
        digits_value(numeral(n)) == n,
    decreases n,
{
    if n < 10 {
        assert(numeral(n).drop_last() =~= Seq::<char>::empty());
        assert(digits_value(Seq::<char>::empty()) == 0);
    } else {
        lemma_numeral_stands_for_its_number(n / 10);
        assert(numeral(n).drop_last() =~= numeral(n / 10));
    }
}

/// Reading the numeral of a port number gives that port number back.
pub proof fn law_port_reads_back(port: u16)
    ensures
        port_of(numeral(port as nat)) == Some(port),
{
    lemma_numeral_stands_for_its_number(port as nat);
    assert(is_digit(numeral(port as nat)[0]));
}

/// The text of one digit.
fn digit_text(digit: u64) -> (text: &'static str)
    requires
        digit < 10,
    ensures
        text@ == seq![digit_char(digit as int)],
{
    proof {
        reveal_strlit("0");
        reveal_strlit("1");
        reveal_strlit("2");
        reveal_strlit("3");
        reveal_strlit("4");
        reveal_strlit("5");
        reveal_strlit("6");
        reveal_strlit("7");
        reveal_strlit("8");
        reveal_strlit("9");
    }
    match digit {
        0 => "0",
        1 => "1",
        2 => "2",
        3 => "3",
        4 => "4",
        5 => "5",
        6 => "6",
        7 => "7",
        8 => "8",
        _ => "9",
    }
}

/// The decimal numeral of a number.
pub fn numeral_text(n: u64) -> (text: String)
    ensures
        text@ == numeral(n as nat),
    decreases n,
{
    if n < 10 {
        digit_text(n).to_string()
    } else {
        let mut text = numeral_text(n / 10);
        text.append(digit_text(n % 10));
        text
    }
}

/// The decimal numeral of an integer.
pub fn signed_numeral_text(n: i64) -> (text: String)
    ensures
        text@ == signed_numeral(n as int),
{
    if n < 0 {
        proof {
            reveal_strlit("-");
        }
        let mut text = "-".to_string();
        let magnitude: u64 = (-(n as i128)) as u64;
        text.append(numeral_text(magnitude).as_str());
        assert(text@ =~= signed_numeral(n as int));
        text
    } else {
        numeral_text(n as u64)
    }
}

/// Reads a port number.
pub fn parse_port(text: &str) -> (port: Option<u16>)
    ensures
        port == port_of(text@),
{
    let len: usize = text.unicode_len();
    let start: usize = if len > 0 && text.get_char(0) == '+' {
        1
    } else {
        0
    };
    let ghost digits = without_plus(text@);
    assert(digits =~= text@.skip(start as int));
    if start == len {
        return None;
    }
    let mut value: u32 = 0;
    let mut i: usize = start;
    while i < len
        invariant
            start <= i <= len,
            len == text@.len(),
            digits == text@.skip(start as int),
            digits.len() == len - start,
            digits == without_plus(text@),
            value <= u16::MAX,
            value == digits_value(digits.take(i - start)),
            all_digits(digits.take(i - start)),
        decreases len - i,
    {
        let c = text.get_char(i);
        assert(c == digits[i - start]);
        if c < '0' || c > '9' {
            assert(!is_digit(digits[i - start]));
            return None;
        }
        value = value * 10 + (c as u32 - 48);
        i += 1;
        assert(digits.take(i - start).drop_last() =~= digits.take(i - start - 1));
        assert(digits.take(i - start).last() == c);
        if value > 0xFFFF {
            proof {
                lemma_value_of_beginning(digits, i - start);
            }
            return None;
        }
        assert forall|j: int| 0 <= j < i - start implies is_digit(
            #[trigger] digits.take(i - start)[j],
        ) by {
            if j < i - start - 1 {
                assert(is_digit(digits.take(i - start - 1)[j]));
            }
        }
    }
    assert(digits.take(len - start) =~= digits);
    Some(value as u16)
}

} // verus!

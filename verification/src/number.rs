//! Decimal numbers: reading them, and their place in clock times.

use vstd::prelude::*;
use vstd::string::*;

use crate::text;
use crate::text::{chars_of, push_decimal, push_two_digits};

verus! {

/// Why a text is not a number.
#[derive(Debug, Clone, Copy, PartialEq, Eq, Structural)]
pub enum NumberFault {
    Empty,
    InvalidDigit,
    TooLarge,
}

impl NumberFault {
    pub open spec fn message(self) -> Seq<char> {
        match self {
            NumberFault::Empty => "cannot parse integer from empty string"@,
            NumberFault::InvalidDigit => "invalid digit found in string"@,
            NumberFault::TooLarge => "number too large to fit in target type"@,
        }
    }

    /// The fault in words.
    pub fn text(&self) -> (text: String)
        ensures
            text@ == self.message(),
    {
        match self {
            NumberFault::Empty => "cannot parse integer from empty string".to_owned(),
            NumberFault::InvalidDigit => "invalid digit found in string".to_owned(),
            NumberFault::TooLarge => "number too large to fit in target type".to_owned(),
        }
    }
}

/// The value of a decimal digit.
pub open spec fn digit_value(c: char) -> Option<nat> {
    if '0' <= c <= '9' {
        Some((c as int - '0' as int) as nat)
    } else {
        None
    }
}

/// Reads digits from left to right, with `value` read so far.
pub open spec fn digits_value(value: nat, digits: Seq<char>) -> Result<u64, NumberFault>
    decreases digits.len(),
{
    if digits.len() == 0 {
        Ok(value as u64)
    } else {
        match digit_value(digits[0]) {
            None => Err(NumberFault::InvalidDigit),
            Some(digit) => if value * 10 + digit > u64::MAX {
                Err(NumberFault::TooLarge)
            } else {
                digits_value(value * 10 + digit, digits.drop_first())
            },
        }
    }
}

/// The number that a text stands for: decimal digits, with a plus sign before
/// them or without.
pub open spec fn number_value(s: Seq<char>) -> Result<u64, NumberFault> {
    if s.len() == 0 {
        Err(NumberFault::Empty)
    } else if s == seq!['+'] {
        Err(NumberFault::InvalidDigit)
    } else if s[0] == '+' {
        digits_value(0, s.drop_first())
    } else {
        digits_value(0, s)
    }
}

fn digit_of(c: char) -> (digit: Option<u64>)
    ensures
        match digit {
            Some(digit) => digit < 10 && digit_value(c) == Some(digit as nat),
            None => digit_value(c) is None,
        },
{
    if '0' <= c && c <= '9' {
        Some(c as u64 - '0' as u64)
    } else {
        None
    }
}

/// Reads a number.
pub fn parse_u64(value: &str) -> (result: Result<u64, NumberFault>)
    ensures
        result == number_value(value@),
{
    let chars: Vec<char> = chars_of(value);
    assert(chars@.subrange(0, chars@.len() as int) =~= value@);
    parse_chars(&chars, 0, chars.len())
}

/// Reads the number that stands at `from..to`.
pub fn parse_chars(chars: &Vec<char>, from: usize, to: usize) -> (result: Result<u64, NumberFault>)
    requires
        from <= to <= chars@.len(),
    ensures
        result == number_value(chars@.subrange(from as int, to as int)),
{
    let ghost s = chars@.subrange(from as int, to as int);
    if from == to {
        return Err(NumberFault::Empty);
    }
    let mut at: usize = from;
    if chars[from] == '+' {
        if to - from == 1 {
            assert(s =~= seq!['+']);
            return Err(NumberFault::InvalidDigit);
        }
        at = from + 1;
        assert(s.drop_first() =~= chars@.subrange(at as int, to as int));
    } else {
        assert(s[0] != '+');
        assert(s != seq!['+']) by {
            assert(seq!['+'][0] == '+');
        }
    }
    let mut value: u64 = 0;
    while at < to
        invariant
            from <= at <= to <= chars@.len(),
            s == chars@.subrange(from as int, to as int),
            number_value(s) == digits_value(value as nat, chars@.subrange(at as int, to as int)),
        decreases to - at,
    {
        let ghost rest = chars@.subrange(at as int, to as int);
        assert(rest.drop_first() =~= chars@.subrange(at + 1, to as int));
        match digit_of(chars[at]) {
            None => {
                return Err(NumberFault::InvalidDigit);
            },
            Some(digit) => match value.checked_mul(10) {
                None => {
                    return Err(NumberFault::TooLarge);
                },
                Some(tenfold) => match tenfold.checked_add(digit) {
                    None => {
                        return Err(NumberFault::TooLarge);
                    },
                    Some(next) => {
                        value = next;
                    },
                },
            },
        }
        at += 1;
    }
    Ok(value)
}

/// Seconds as a clock shows them: minutes and seconds, and hours before them
/// where there are any.
pub open spec fn clock_text(total: nat) -> Seq<char> {
    let hours = total / 3_600;
    let minutes = (total % 3_600) / 60;
    let seconds = total % 60;
    if hours > 0 {
        text::decimal(hours) + ":"@ + text::two_digits(minutes) + ":"@ + text::two_digits(seconds)
    } else {
        text::decimal(minutes) + ":"@ + text::two_digits(seconds)
    }
}

/// Seconds as a clock shows them.
pub fn format_clock(total_seconds: u64) -> (clock: String)
    ensures
        clock@ == clock_text(total_seconds as nat),
{
    let hours: u64 = total_seconds / 3_600;
    let minutes: u64 = (total_seconds % 3_600) / 60;
    let seconds: u64 = total_seconds % 60;
    let mut clock: String = String::new();
    if hours > 0 {
        push_decimal(&mut clock, hours);
        clock.append(":");
        push_two_digits(&mut clock, minutes);
        clock.append(":");
        push_two_digits(&mut clock, seconds);
    } else {
        push_decimal(&mut clock, minutes);
        clock.append(":");
        push_two_digits(&mut clock, seconds);
    }
    assert(clock@ =~= clock_text(total_seconds as nat));
    clock
}

proof fn lemma_digits_append(value: nat, first: Seq<char>, second: Seq<char>)
    requires
        value <= u64::MAX,
        digits_value(value, first) is Ok,
    ensures
        digits_value(value, first + second) == digits_value(
            digits_value(value, first)->Ok_0 as nat,
            second,
        ),
    decreases first.len(),
{
    if first.len() == 0 {
        assert(first + second =~= second);
    } else {
        let digit = digit_value(first[0])->0;
        lemma_digits_append(value * 10 + digit, first.drop_first(), second);
        assert((first + second).drop_first() =~= first.drop_first() + second);
    }
}

/// A number that is written in decimal is read back as it was, and the text
/// begins with a digit.
pub proof fn law_number_is_read_back(n: nat)
    requires
        n <= u64::MAX,
    ensures
        number_value(text::decimal(n)) == Ok::<u64, NumberFault>(n as u64),
        digits_value(0, text::decimal(n)) == Ok::<u64, NumberFault>(n as u64),
        text::decimal(n).len() > 0,
        forall|i: int|
            0 <= i < text::decimal(n).len() ==> '0' <= #[trigger] text::decimal(n)[i] <= '9',
    decreases n,
{
    reveal_with_fuel(digits_value, 2);
    let written = text::decimal(n);
    if n < 10 {
        assert(written.drop_first() =~= Seq::empty());
    } else {
        law_number_is_read_back(n / 10);
        let last = seq![text::digit((n % 10) as int)];
        assert(written =~= text::decimal(n / 10) + last);
        lemma_digits_append(0, text::decimal(n / 10), last);
        assert(last.drop_first() =~= Seq::empty());
    }
    assert(written[0] != '+');
    assert(written != seq!['+']) by {
        assert(seq!['+'][0] == '+');
    }
}

/// The number that digits stand for, the last one counting units.
pub open spec fn place_value(digits: Seq<char>) -> nat
    decreases digits.len(),
{
    if digits.len() == 0 {
        0
    } else {
        place_value(digits.drop_last()) * 10 + (digits.last() as int - '0' as int) as nat
    }
}

/// Every character is a decimal digit.
pub open spec fn all_digits(s: Seq<char>) -> bool {
    forall|i: int| 0 <= i < s.len() ==> '0' <= #[trigger] s[i] <= '9'
}

proof fn lemma_last_digit(value: nat, digits: Seq<char>, last: char)
    requires
        value <= u64::MAX,
        digits_value(value, digits) is Ok,
        '0' <= last <= '9',
    ensures
        ({
            let read = digits_value(value, digits)->Ok_0 * 10 + (last as int - '0' as int);
            digits_value(value, digits.push(last)) == if read <= u64::MAX {
                Ok::<u64, NumberFault>(read as u64)
            } else {
                Err(NumberFault::TooLarge)
            }
        }),
{
    reveal_with_fuel(digits_value, 2);
    lemma_digits_append(value, digits, seq![last]);
    assert(digits.push(last) =~= digits + seq![last]);
    assert(seq![last].drop_first() =~= Seq::empty());
}

proof fn lemma_fault_stays(value: nat, digits: Seq<char>, more: Seq<char>)
    requires
        value <= u64::MAX,
        digits_value(value, digits) is Err,
    ensures
        digits_value(value, digits + more) == digits_value(value, digits),
    decreases digits.len(),
{
    if digits.len() > 0 {
        assert((digits + more)[0] == digits[0]);
        assert((digits + more).drop_first() =~= digits.drop_first() + more);
        match digit_value(digits[0]) {
            Some(digit) => if value * 10 + digit <= u64::MAX {
                lemma_fault_stays(value * 10 + digit, digits.drop_first(), more);
            },
            None => {},
        }
    }
}

proof fn lemma_digits_are_their_value(digits: Seq<char>)
    requires
        all_digits(digits),
    ensures
        digits_value(0, digits) == if place_value(digits) <= u64::MAX {
            Ok::<u64, NumberFault>(place_value(digits) as u64)
        } else {
            Err(NumberFault::TooLarge)
        },
    decreases digits.len(),
{
    if digits.len() > 0 {
        let first = digits.drop_last();
        let last = digits.last();
        assert(digits =~= first.push(last));
        assert(last == digits[digits.len() - 1]);
        lemma_digits_are_their_value(first);
        if place_value(first) <= u64::MAX {
            lemma_last_digit(0, first, last);
        } else {
            lemma_fault_stays(0, first, seq![last]);
            assert(digits =~= first + seq![last]);
        }
    }
}

proof fn lemma_only_digits_are_read(value: nat, digits: Seq<char>)
    requires
        value <= u64::MAX,
        digits_value(value, digits) is Ok,
    ensures
        all_digits(digits),
    decreases digits.len(),
{
    if digits.len() > 0 {
        let digit = digit_value(digits[0])->0;
        lemma_only_digits_are_read(value * 10 + digit, digits.drop_first());
        assert forall|i: int| 0 <= i < digits.len() implies '0' <= #[trigger] digits[i] <= '9' by {
            if i > 0 {
                assert(digits[i] == digits.drop_first()[i - 1]);
            }
        }
    }
}

/// A number is read exactly from decimal digits whose value fits, with a plus
/// sign before them or without, and leading zeros or none. Digits that stand
/// for too much are told to be too large, no text to be empty, and a text that
/// is read is nothing but digits behind the sign.
pub proof fn law_digits_stand_for_their_value(digits: Seq<char>, s: Seq<char>)
    requires
        digits.len() > 0,
        all_digits(digits),
    ensures
        place_value(digits) <= u64::MAX ==> number_value(digits) == Ok::<u64, NumberFault>(
            place_value(digits) as u64,
        ),
        place_value(digits) > u64::MAX ==> number_value(digits) == Err::<u64, NumberFault>(
            NumberFault::TooLarge,
        ),
        number_value(seq!['+'] + digits) == number_value(digits),
        number_value(s) is Ok ==> s.len() > 0 && (all_digits(s) || s[0] == '+' && s.len() > 1
            && all_digits(s.skip(1))),
        s.len() == 0 <==> number_value(s) == Err::<u64, NumberFault>(NumberFault::Empty),
{
    lemma_digits_are_their_value(digits);
    assert('0' <= digits[0] <= '9');
    assert(digits != seq!['+']) by {
        assert(seq!['+'][0] == '+');
    }
    let signed = seq!['+'] + digits;
    assert(signed.drop_first() =~= digits);
    assert(signed != seq!['+']) by {
        assert(signed.len() > 1);
    }
    if number_value(s) is Ok {
        if s[0] == '+' {
            assert(s.len() > 1) by {
                if s.len() == 1 {
                    assert(s =~= seq!['+']);
                }
            }
            lemma_only_digits_are_read(0, s.drop_first());
            assert(s.skip(1) =~= s.drop_first());
        } else {
            lemma_only_digits_are_read(0, s);
        }
    }
    lemma_never_empty_fault(0, s);
    if s.len() > 0 {
        lemma_never_empty_fault(0, s.drop_first());
    }
}

proof fn lemma_never_empty_fault(value: nat, digits: Seq<char>)
    ensures
        digits_value(value, digits) != Err::<u64, NumberFault>(NumberFault::Empty),
    decreases digits.len(),
{
    if digits.len() > 0 {
        match digit_value(digits[0]) {
            Some(digit) => lemma_never_empty_fault(value * 10 + digit, digits.drop_first()),
            None => {},
        }
    }
}

/// A clock shows minutes as they are and seconds with two digits. From an hour
/// on it shows the hours as they are, and minutes and seconds with two digits.
pub proof fn law_clock_shows_hours_minutes_seconds(hours: nat, minutes: nat, seconds: nat)
    requires
        minutes < 60,
        seconds < 60,
    ensures
        clock_text(minutes * 60 + seconds) == text::decimal(minutes) + seq![':'] + text::two_digits(
            seconds,
        ),
        hours > 0 ==> clock_text(hours * 3_600 + minutes * 60 + seconds) == text::decimal(hours)
            + seq![':'] + text::two_digits(minutes) + seq![':'] + text::two_digits(seconds),
{
    reveal_strlit(":");
    assert(":"@ =~= seq![':']);
    let total = hours * 3_600 + minutes * 60 + seconds;
    let short = minutes * 60 + seconds;
    assert(short / 3_600 == 0 && short % 3_600 == short && short / 60 == minutes && short % 60
        == seconds);
    assert(total / 3_600 == hours && total % 3_600 == short && total % 60 == seconds);
}

} // verus!

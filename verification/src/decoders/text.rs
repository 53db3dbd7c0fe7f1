use vstd::prelude::*;
use vstd::string::*;

verus! {

/// Whether `c` is one of the ten decimal digits.
pub open spec fn is_digit(c: char) -> bool {
    '0' <= c && c <= '9'
}

/// The number that the digit `c` stands for.
pub open spec fn digit_of(c: char) -> int {
    c as int - 48
}

/// Whether `s` holds decimal digits only.
pub open spec fn all_digits(s: Seq<char>) -> bool {
    forall|i: int| 0 <= i < s.len() ==> is_digit(#[trigger] s[i])
}

/// The number that the digits of `s` write in base ten; zero for no digits.
pub open spec fn digits_value(s: Seq<char>) -> int
    decreases s.len(),
{
    if s.len() == 0 {
        0
    } else {
        digits_value(s.drop_last()) * 10 + digit_of(s.last())
    }
}

/// The integer that `s` writes: an optional sign, then one digit or more.
/// `None` where `s` has another form.
pub open spec fn integer_of(s: Seq<char>) -> Option<int> {
    if s.len() > 0 && s[0] == '-' {
        let digits = s.drop_first();
        if digits.len() > 0 && all_digits(digits) {
            Some(-digits_value(digits))
        } else {
            None
        }
    } else if s.len() > 0 && s[0] == '+' {
        let digits = s.drop_first();
        if digits.len() > 0 && all_digits(digits) {
            Some(digits_value(digits))
        } else {
            None
        }
    } else if s.len() > 0 && all_digits(s) {
        Some(digits_value(s))
    } else {
        None
    }
}

/// The number written by digits is never negative, and it grows with every
/// digit that is appended.
pub proof fn lemma_digits_value_grows(s: Seq<char>)
    requires
        all_digits(s),
    ensures
        digits_value(s) >= 0,
        s.len() > 0 ==> digits_value(s) >= digits_value(s.drop_last()),
    decreases s.len(),
{
    if s.len() > 0 {
        lemma_digits_value_grows(s.drop_last());
        assert(is_digit(s[s.len() - 1]));
    }
}

/// The characters of `text`, one by one.
pub fn chars_of(text: &str) -> (chars: Vec<char>)
    ensures
        chars@ == text@,
{
    let n = text.unicode_len();
    let mut chars: Vec<char> = Vec::new();
    let mut i: usize = 0;
    while i < n
        invariant
            n == text@.len(),
            i <= n,
            chars@ == text@.take(i as int),
        decreases n - i,
    {
        chars.push(text.get_char(i));
        i = i + 1;
    }
    chars
}

/// The largest number that `scan_digits` tells apart from larger ones.
pub const DIGITS_CAP: u128 = 1_000_000_000_000_000_000_000_000;

/// Reads `chars[from..to]` as digits. Returns `None` where one of them is
/// no digit, and else their number, or `DIGITS_CAP` where the number is that
/// large or larger.
pub(crate) fn scan_digits(chars: &Vec<char>, from: usize, to: usize) -> (value: Option<u128>)
    requires
        from <= to <= chars.len(),
    ensures
        value is Some <==> all_digits(chars@.subrange(from as int, to as int)),
        value matches Some(v) ==> {
            let exact = digits_value(chars@.subrange(from as int, to as int));
            if exact < DIGITS_CAP {
                v == exact
            } else {
                v == DIGITS_CAP
            }
        },
{
    let mut acc: u128 = 0;
    let mut i: usize = from;
    while i < to
        invariant
            from <= i <= to <= chars.len(),
            all_digits(chars@.subrange(from as int, i as int)),
            acc <= DIGITS_CAP,
            ({
                let exact = digits_value(chars@.subrange(from as int, i as int));
                if exact < DIGITS_CAP {
                    acc == exact
                } else {
                    acc == DIGITS_CAP
                }
            }),
        decreases to - i,
    {
        let c = chars[i];
        let ghost before = chars@.subrange(from as int, i as int);
        let ghost after = chars@.subrange(from as int, i + 1);
        assert(after.drop_last() == before);
        assert(after.last() == c);
        if !(c >= '0' && c <= '9') {
            assert(!is_digit(chars@.subrange(from as int, to as int)[i - from]));
            return None;
        }
        assert(all_digits(after)) by {
            assert forall|j: int| 0 <= j < after.len() implies is_digit(#[trigger] after[j]) by {
                if j < before.len() {
                    assert(after[j] == before[j]);
                }
            }
        }
        proof {
            lemma_digits_value_grows(after);
            lemma_digits_value_grows(before);
        }
        let d: u128 = (c as u32 - 48) as u128;
        if acc >= DIGITS_CAP {
            acc = DIGITS_CAP;
        } else {
            let next: u128 = acc * 10 + d;
            acc = if next >= DIGITS_CAP {
                DIGITS_CAP
            } else {
                next
            };
        }
        i = i + 1;
    }
    assert(chars@.subrange(from as int, i as int) == chars@.subrange(from as int, to as int));
    Some(acc)
}

/// Reads `text` as an integer of 64 bits: an optional sign, then one digit or
/// more. Returns `None` where `text` has another form or the integer does
/// not fit.
pub fn parse_i64(text: &str) -> (value: Option<i64>)
    ensures
        value is Some <==> (integer_of(text@) matches Some(v) && i64::MIN <= v <= i64::MAX),
        value matches Some(v) ==> integer_of(text@) == Some(v as int),
{
    let chars = chars_of(text);
    let n = chars.len();
    if n == 0 {
        return None;
    }
    let first = chars[0];
    let negative = first == '-';
    let start: usize = if first == '-' || first == '+' {
        1
    } else {
        0
    };
    if start == n {
        return None;
    }
    assert(chars@.subrange(start as int, n as int) == if start == 1 {
        text@.drop_first()
    } else {
        text@
    });
    match scan_digits(&chars, start, n) {
        None => None,
        Some(magnitude) => {
            if negative {
                if magnitude <= 9_223_372_036_854_775_808u128 {
                    Some((-(magnitude as i128)) as i64)
                } else {
                    None
                }
            } else {
                if magnitude <= 9_223_372_036_854_775_807u128 {
                    Some(magnitude as i64)
                } else {
                    None
                }
            }
        },
    }
}

} // verus!

use crate::decoders::errors::{DecoderError, DecoderErrorKind};
use crate::decoders::text::{
    all_digits, chars_of, digits_value, is_digit, lemma_digits_value_grows, scan_digits,
    DIGITS_CAP,
};
use vstd::prelude::*;

verus! {

/// A coordinate is held in ten-millionths of a degree.
pub const E7_SCALE: i64 = 10_000_000;

/// How many decimal digits write `n`.
pub open spec fn decimal_digits(n: nat) -> nat
    decreases n,
{
    if n < 10 {
        1
    } else {
        1 + decimal_digits(n / 10)
    }
}

/// `v` without its sign.
pub open spec fn magnitude(v: int) -> nat {
    if v < 0 {
        (-v) as nat
    } else {
        v as nat
    }
}

/// Ten to the power `k`.
pub open spec fn pow10(k: nat) -> nat
    decreases k,
{
    if k == 0 {
        1
    } else {
        10 * pow10((k - 1) as nat)
    }
}

/// A number has at most `k` digits exactly when it is below ten to the `k`.
pub proof fn lemma_decimal_digits_bound(n: nat, k: nat)
    requires
        k >= 1,
    ensures
        decimal_digits(n) <= k <==> n < pow10(k),
    decreases k,
{
    reveal_with_fuel(pow10, 2);
    if n >= 10 {
        if k == 1 {
            assert(decimal_digits(n / 10) >= 1);
        } else {
            lemma_decimal_digits_bound(n / 10, (k - 1) as nat);
        }
    } else {
        assert(pow10(k) >= 10) by {
            lemma_pow10_grows(1, k);
        }
    }
}

/// Powers of ten grow with the exponent.
pub proof fn lemma_pow10_grows(j: nat, k: nat)
    requires
        j <= k,
    ensures
        pow10(j) <= pow10(k),
        pow10(j) >= 1,
    decreases k,
{
    if j < k {
        lemma_pow10_grows(j, (k - 1) as nat);
    } else if k > 0 {
        lemma_pow10_grows((j - 1) as nat, (k - 1) as nat);
    }
}

/// A coordinate written with seven digits or fewer was not scaled: it is
/// refused. The sign does not count as a digit.
pub open spec fn e7_is_scaled(value: int) -> bool {
    decimal_digits(magnitude(value)) > 7
}

/// Reads a coordinate given in ten-millionths of a degree, and hands it
/// back where it has more than seven digits.
pub fn parse_geolocation_e7(geolocation_e7: i64) -> (degrees_e7: Result<i64, DecoderError>)
    ensures
        degrees_e7 is Ok <==> e7_is_scaled(geolocation_e7 as int),
        degrees_e7 matches Ok(v) ==> v == geolocation_e7,
        degrees_e7 matches Err(e) ==> e.spec_kind() == DecoderErrorKind::GeoParse,
{
    proof {
        reveal_with_fuel(pow10, 8);
        lemma_decimal_digits_bound(magnitude(geolocation_e7 as int), 7);
    }
    if -E7_SCALE < geolocation_e7 && geolocation_e7 < E7_SCALE {
        Err(DecoderError::of_kind(DecoderErrorKind::GeoParse, "Geographic Coordinate has too few digits"))
    } else {
        Ok(geolocation_e7)
    }
}

/// Where `c` first stands in `s`; the length of `s` where it does not occur.
pub open spec fn position_of(s: Seq<char>, c: char) -> int
    decreases s.len(),
{
    if s.len() == 0 {
        0
    } else if s[0] == c {
        0
    } else {
        1 + position_of(s.drop_first(), c)
    }
}

/// `position_of` is the first index that holds `c`, or the length.
pub proof fn lemma_position_of(s: Seq<char>, c: char, i: int)
    requires
        0 <= i <= s.len(),
        forall|j: int| 0 <= j < i ==> s[j] != c,
        i < s.len() ==> s[i] == c,
    ensures
        position_of(s, c) == i,
    decreases s.len(),
{
    if s.len() > 0 && i > 0 {
        let rest = s.drop_first();
        assert forall|j: int| 0 <= j < i - 1 implies rest[j] != c by {
            assert(rest[j] == s[j + 1]);
        }
        lemma_position_of(rest, c, i - 1);
    }
}

/// The fraction digits `fraction` in ten-millionths: its first seven digits,
/// with zeros in the place of those that are missing. Further digits are
/// dropped.
pub open spec fn fraction_e7(fraction: Seq<char>) -> int {
    if fraction.len() >= 7 {
        digits_value(fraction.take(7))
    } else {
        digits_value(fraction) * pow10((7 - fraction.len()) as nat)
    }
}

/// The decimal number that `s` writes, in ten-millionths: an optional sign,
/// digits, and optionally a point and more digits, with one digit at least.
/// `None` where `s` has another form or the number does not fit 64 bits.
pub open spec fn decimal_e7(s: Seq<char>) -> Option<int> {
    let negative = s.len() > 0 && s[0] == '-';
    let signed = s.len() > 0 && (s[0] == '-' || s[0] == '+');
    let body = if signed {
        s.drop_first()
    } else {
        s
    };
    let point = position_of(body, '.');
    let whole = body.take(point);
    let fraction = if point < body.len() {
        body.skip(point + 1)
    } else {
        Seq::<char>::empty()
    };
    if all_digits(whole) && all_digits(fraction) && whole.len() + fraction.len() > 0 {
        let size = digits_value(whole) * E7_SCALE + fraction_e7(fraction);
        let value = if negative {
            -size
        } else {
            size
        };
        if i64::MIN <= value <= i64::MAX {
            Some(value)
        } else {
            None
        }
    } else {
        None
    }
}

/// Whether `s` begins with `geo:`.
pub open spec fn has_geo_prefix(s: Seq<char>) -> bool {
    s.len() >= 4 && s[0] == 'g' && s[1] == 'e' && s[2] == 'o' && s[3] == ':'
}

/// The position that `text` writes as `geo:<latitude>,<longitude>`, both in
/// ten-millionths of a degree. There is exactly one comma; `geo:` may be left
/// out. `None` where `text` has another form.
pub open spec fn geolocation_of(text: Seq<char>) -> Option<(int, int)> {
    let comma = position_of(text, ',');
    if comma < text.len() && position_of(text.skip(comma + 1), ',') == text.len() - comma - 1 {
        let first = text.take(comma);
        let latitude = if has_geo_prefix(first) {
            first.skip(4)
        } else {
            first
        };
        let longitude = text.skip(comma + 1);
        match (decimal_e7(latitude), decimal_e7(longitude)) {
            (Some(lat), Some(lon)) => Some((lat, lon)),
            _ => None,
        }
    } else {
        None
    }
}

/// Finds `c` in `chars[from..to]`: the index of its first occurrence, or `to`.
pub(crate) fn find_char(chars: &Vec<char>, c: char, from: usize, to: usize) -> (at: usize)
    requires
        from <= to <= chars.len(),
    ensures
        from <= at <= to,
        at - from == position_of(chars@.subrange(from as int, to as int), c),
{
    let mut i: usize = from;
    while i < to && chars[i] != c
        invariant
            from <= i <= to <= chars.len(),
            forall|j: int| from <= j < i ==> chars@[j] != c,
        decreases to - i,
    {
        i = i + 1;
    }
    proof {
        lemma_position_of(chars@.subrange(from as int, to as int), c, i - from);
    }
    i
}

/// The first eight powers of ten.
pub proof fn lemma_pow10_values()
    ensures
        pow10(0) == 1,
        pow10(1) == 10,
        pow10(2) == 100,
        pow10(3) == 1_000,
        pow10(4) == 10_000,
        pow10(5) == 100_000,
        pow10(6) == 1_000_000,
        pow10(7) == 10_000_000,
{
    reveal_with_fuel(pow10, 8);
}

/// Reads `chars[from..to]` as the digits of a fraction, in ten-millionths.
/// Returns `None` where one of them is no digit.
pub(crate) fn parse_fraction_e7(chars: &Vec<char>, from: usize, to: usize) -> (value: Option<u128>)
    requires
        from <= to <= chars.len(),
    ensures
        value is Some <==> all_digits(chars@.subrange(from as int, to as int)),
        value matches Some(v) ==> v == fraction_e7(chars@.subrange(from as int, to as int)) && v
            < 10_000_000,
{
    let ghost fraction = chars@.subrange(from as int, to as int);
    if scan_digits(chars, from, to).is_none() {
        return None;
    }
    let kept_to: usize = if to - from >= 7 {
        from + 7
    } else {
        to
    };
    let ghost kept = chars@.subrange(from as int, kept_to as int);
    assert(kept == if fraction.len() >= 7 {
        fraction.take(7)
    } else {
        fraction
    });
    assert(all_digits(kept)) by {
        assert forall|j: int| 0 <= j < kept.len() implies is_digit(
            #[trigger] kept[j],
        ) by {
            assert(kept[j] == fraction[j]);
        }
    }
    proof {
        lemma_digits_below_power(kept);
        lemma_pow10_values();
        lemma_pow10_grows(kept.len(), 7);
    }
    let mut scaled: u128 = match scan_digits(chars, from, kept_to) {
        Some(v) => v,
        None => { return None; },
    };
    let mut width: usize = kept_to - from;
    assert(scaled == digits_value(kept) * pow10(0)) by {
        assert(digits_value(kept) < DIGITS_CAP);
    }
    while width < 7
        invariant
            width <= 7,
            kept.len() <= width,
            kept == if fraction.len() >= 7 {
                fraction.take(7)
            } else {
                fraction
            },
            scaled == digits_value(kept) * pow10((width - kept.len()) as nat),
            scaled < pow10(width as nat),
        decreases 7 - width,
    {
        proof {
            lemma_pow10_grows((width + 1) as nat, 7);
            lemma_pow10_values();
            lemma_scale_step(digits_value(kept), (width - kept.len()) as nat);
            assert(pow10((width + 1) as nat) == 10 * pow10(width as nat)) by {
                reveal_with_fuel(pow10, 2);
            }
        }
        scaled = scaled * 10;
        width = width + 1;
    }
    proof {
        lemma_pow10_values();
    }
    Some(scaled)
}

/// One more zero behind a number multiplies it by ten.
pub proof fn lemma_scale_step(v: int, k: nat)
    ensures
        v * pow10(k + 1) == v * pow10(k) * 10,
{
    reveal_with_fuel(pow10, 2);
    assert(v * (10 * pow10(k)) == v * pow10(k) * 10) by (nonlinear_arith);
}

/// Reads `chars[from..to]` as a decimal number in ten-millionths.
pub(crate) fn parse_decimal_e7(chars: &Vec<char>, from: usize, to: usize) -> (value: Option<i64>)
    requires
        from <= to <= chars.len(),
    ensures
        value is Some <==> decimal_e7(chars@.subrange(from as int, to as int)) is Some,
        value matches Some(v) ==> decimal_e7(chars@.subrange(from as int, to as int)) == Some(
            v as int,
        ),
{
    let ghost s = chars@.subrange(from as int, to as int);
    let negative = from < to && chars[from] == '-';
    let signed = from < to && (chars[from] == '-' || chars[from] == '+');
    let start: usize = if signed {
        from + 1
    } else {
        from
    };
    let ghost body = chars@.subrange(start as int, to as int);
    assert(body == if signed {
        s.drop_first()
    } else {
        s
    });
    let point = find_char(chars, '.', start, to);
    let ghost whole = chars@.subrange(start as int, point as int);
    assert(whole == body.take(point - start));
    let fraction_from: usize = if point < to {
        point + 1
    } else {
        to
    };
    let ghost fraction = chars@.subrange(fraction_from as int, to as int);
    assert(fraction == if point - start < body.len() {
        body.skip(point - start + 1)
    } else {
        Seq::<char>::empty()
    });
    let whole_value = match scan_digits(chars, start, point) {
        Some(v) => v,
        None => { return None; },
    };
    let scaled = match parse_fraction_e7(chars, fraction_from, to) {
        Some(v) => v,
        None => { return None; },
    };
    if point - start + (to - fraction_from) == 0 {
        return None;
    }
    combine_e7(negative, whole_value, scaled, Ghost(digits_value(whole)))
}

/// Puts the parts of a decimal number together: `whole` units (or
/// `DIGITS_CAP` for `exact` units, where there are that many or more) and
/// `scaled` ten-millionths, with the sign. `None` where the number does not
/// fit 64 bits.
fn combine_e7(negative: bool, whole: u128, scaled: u128, Ghost(exact): Ghost<int>) -> (value:
    Option<i64>)
    requires
        scaled < 10_000_000,
        exact >= 0,
        if exact < DIGITS_CAP {
            whole == exact
        } else {
            whole == DIGITS_CAP
        },
    ensures
        ({
            let size = exact * E7_SCALE + scaled;
            let signed = if negative {
                -size
            } else {
                size
            };
            &&& value is Some <==> i64::MIN <= signed <= i64::MAX
            &&& value matches Some(v) ==> v == signed
        }),
{
    if whole >= 1_000_000_000_000u128 {
        assert(exact * E7_SCALE + scaled > 9_223_372_036_854_775_808) by (nonlinear_arith)
            requires
                exact >= 1_000_000_000_000,
                scaled >= 0,
                E7_SCALE == 10_000_000,
        ;
        return None;
    }
    let size: u128 = whole * 10_000_000u128 + scaled;
    if negative {
        if size <= 9_223_372_036_854_775_808u128 {
            Some((-(size as i128)) as i64)
        } else {
            None
        }
    } else {
        if size <= 9_223_372_036_854_775_807u128 {
            Some(size as i64)
        } else {
            None
        }
    }
}

/// Digits write a number below ten to the power of their count.
pub proof fn lemma_digits_below_power(s: Seq<char>)
    requires
        all_digits(s),
    ensures
        0 <= digits_value(s) < pow10(s.len()),
    decreases s.len(),
{
    if s.len() > 0 {
        let front = s.drop_last();
        assert(is_digit(s[s.len() - 1]));
        assert forall|j: int| 0 <= j < front.len() implies is_digit(
            #[trigger] front[j],
        ) by {
            assert(front[j] == s[j]);
        }
        lemma_digits_below_power(front);
    }
}

/// Reads a position written as `geo:<latitude>,<longitude>`; both come back
/// in ten-millionths of a degree. Digits after the seventh of a fraction are
/// dropped.
pub fn parse_geolocation(geolocation: &str) -> (position: Result<(i64, i64), DecoderError>)
    ensures
        position is Ok <==> geolocation_of(geolocation@) is Some,
        position matches Ok(p) ==> geolocation_of(geolocation@) == Some((p.0 as int, p.1 as int)),
        position matches Err(e) ==> e.spec_kind() == DecoderErrorKind::GeoParse,
{
    let chars = chars_of(geolocation);
    let n = chars.len();
    let ghost text = geolocation@;
    assert(chars@.subrange(0, n as int) == text);
    let comma = find_char(&chars, ',', 0, n);
    if comma >= n {
        return Err(DecoderError::of_kind(DecoderErrorKind::GeoParse, "Unable to parse location string"));
    }
    assert(chars@.subrange(comma + 1, n as int) == text.skip(comma + 1));
    let second = find_char(&chars, ',', comma + 1, n);
    if second < n {
        return Err(DecoderError::of_kind(DecoderErrorKind::GeoParse, "Unable to parse location string"));
    }
    let ghost first = text.take(comma as int);
    let prefixed = comma >= 4 && chars[0] == 'g' && chars[1] == 'e' && chars[2] == 'o' && chars[3]
        == ':';
    assert(prefixed == has_geo_prefix(first));
    let latitude_from: usize = if prefixed {
        4
    } else {
        0
    };
    assert(chars@.subrange(latitude_from as int, comma as int) == if prefixed {
        first.skip(4)
    } else {
        first
    });
    let latitude = parse_decimal_e7(&chars, latitude_from, comma);
    let longitude = parse_decimal_e7(&chars, comma + 1, n);
    match (latitude, longitude) {
        (Some(lat), Some(lon)) => Ok((lat, lon)),
        _ => Err(DecoderError::of_kind(DecoderErrorKind::GeoParse, "Unable to parse location string")),
    }
}

} // verus!

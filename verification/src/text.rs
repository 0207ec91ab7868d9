//! Text layout: fitting a line to an exact width and writing fixed-point
//! numbers as right-aligned decimals.

use vstd::prelude::*;
use vstd::std_specs::iter::IteratorSpec;

verus! {

/// Specification of `String::push` of the standard library: the character is
/// appended at the end of the string and nothing else changes.
pub assume_specification[ String::push ](text: &mut String, ch: char)
    ensures
        final(text)@ == old(text)@.push(ch),
;

/// `count` blanks.
pub open spec fn blanks(count: int) -> Seq<char> {
    Seq::new(
        if count > 0 {
            count as nat
        } else {
            0
        },
        |i: int| ' ',
    )
}

/// `text` cut or filled with trailing blanks to exactly `width` characters.
pub open spec fn padded(text: Seq<char>, width: int) -> Seq<char> {
    if text.len() >= width {
        text.subrange(0, width)
    } else {
        text + blanks(width - text.len())
    }
}

/// `text` with as many leading blanks as it lacks to `width` characters; a
/// longer text is left as it is.
pub open spec fn right_aligned(text: Seq<char>, width: int) -> Seq<char> {
    blanks(width - text.len()) + text
}

/// The character of a decimal digit.
pub open spec fn digit_glyph(digit: int) -> char {
    ((48 + digit) as u8) as char
}

/// Ten to the power `exponent`.
pub open spec fn pow10(exponent: nat) -> nat
    decreases exponent,
{
    if exponent == 0 {
        1
    } else {
        10 * pow10((exponent - 1) as nat)
    }
}

/// The decimal numeral of `value`, without leading zeros.
pub open spec fn decimal(value: nat) -> Seq<char>
    decreases value,
{
    if value < 10 {
        seq![digit_glyph(value as int)]
    } else {
        decimal(value / 10).push(digit_glyph((value % 10) as int))
    }
}

/// The last `digits` decimal digits of `value`, leading zeros included.
pub open spec fn fraction(value: nat, digits: nat) -> Seq<char>
    decreases digits,
{
    if digits == 0 {
        Seq::empty()
    } else {
        fraction(value / 10, (digits - 1) as nat).push(digit_glyph((value % 10) as int))
    }
}

/// The numeral of the quantity `value / 10^decimals` with exactly `decimals`
/// digits behind the point; without a point when `decimals` is zero.
pub open spec fn fixed_text(value: nat, decimals: nat) -> Seq<char> {
    if decimals == 0 {
        decimal(value)
    } else {
        decimal(value / pow10(decimals)).push('.') + fraction(value, decimals)
    }
}

/// The character of a decimal digit.
pub fn digit_char(digit: u8) -> (glyph: char)
    requires
        digit < 10,
    ensures
        glyph == digit_glyph(digit as int),
{
    (48u8 + digit) as char
}

/// Appends `count` blanks.
pub fn push_blanks(out: &mut String, count: usize)
    ensures
        final(out)@ == old(out)@ + blanks(count as int),
{
    let mut done: usize = 0;
    while done < count
        invariant
            done <= count,
            out@ == old(out)@ + blanks(done as int),
        decreases count - done,
    {
        out.push(' ');
        done += 1;
    }
}

/// Ten to the power `exponent`, for exponents whose power fits the word.
pub fn pow10_u64(exponent: u32) -> (power: u64)
    requires
        exponent <= 19,
    ensures
        power == pow10(exponent as nat),
        power >= 1,
{
    let mut power: u64 = 1;
    let mut done: u32 = 0;
    proof {
        lemma_pow10_fits();
    }
    while done < exponent
        invariant
            done <= exponent <= 19,
            power == pow10(done as nat),
            1 <= power <= pow10(19),
        decreases exponent - done,
    {
        proof {
            lemma_pow10_monotone((done + 1) as nat, 19);
            lemma_pow10_fits();
        }
        power = power * 10;
        done += 1;
    }
    power
}

/// The nineteenth power of ten, the largest that fits 64 bits.
pub proof fn lemma_pow10_fits()
    ensures
        pow10(19) == 10_000_000_000_000_000_000,
{
    reveal_with_fuel(pow10, 20);
}

/// A larger exponent gives a larger or equal power of ten.
pub proof fn lemma_pow10_monotone(low: nat, high: nat)
    requires
        low <= high,
    ensures
        1 <= pow10(low) <= pow10(high),
    decreases high,
{
    if low == high {
        if low > 0 {
            lemma_pow10_monotone((low - 1) as nat, (high - 1) as nat);
        }
    } else {
        lemma_pow10_monotone(low, (high - 1) as nat);
    }
}

/// The number of digits of the decimal numeral of `value`.
pub fn decimal_len(value: u64) -> (len: usize)
    ensures
        len == decimal(value as nat).len(),
        1 <= len <= 20,
    decreases value,
{
    if value < 10 {
        1
    } else {
        let shorter: usize = decimal_len(value / 10);
        proof {
            lemma_decimal_len_bound(value as nat);
        }
        shorter + 1
    }
}

/// A numeral of a 64-bit value has at most twenty digits.
pub proof fn lemma_decimal_len_bound(value: nat)
    requires
        value <= u64::MAX,
    ensures
        1 <= decimal(value).len() <= 20,
{
    reveal_with_fuel(decimal, 21);
}

/// Appends the decimal numeral of `value`.
pub fn push_decimal(out: &mut String, value: u64)
    ensures
        final(out)@ == old(out)@ + decimal(value as nat),
    decreases value,
{
    if value < 10 {
        out.push(digit_char(value as u8));
    } else {
        push_decimal(out, value / 10);
        out.push(digit_char((value % 10) as u8));
    }
}

/// Appends the last `digits` decimal digits of `value`, leading zeros
/// included.
pub fn push_fraction(out: &mut String, value: u64, digits: u32)
    ensures
        final(out)@ == old(out)@ + fraction(value as nat, digits as nat),
        fraction(value as nat, digits as nat).len() == digits,
    decreases digits,
{
    if digits == 0 {
    } else {
        push_fraction(out, value / 10, digits - 1);
        out.push(digit_char((value % 10) as u8));
    }
}

/// Appends the numeral of `value / 10^decimals` with exactly `decimals`
/// digits behind the point, led by as many blanks as it lacks to `width`
/// characters.
pub fn push_fixed(out: &mut String, value: u64, decimals: u32, width: usize)
    requires
        decimals <= 19,
    ensures
        final(out)@ == old(out)@ + right_aligned(
            fixed_text(value as nat, decimals as nat),
            width as int,
        ),
{
    let scale: u64 = pow10_u64(decimals);
    let whole: u64 = value / scale;
    let len: usize = if decimals == 0 {
        decimal_len(whole)
    } else {
        decimal_len(whole) + 1 + decimals as usize
    };
    if len < width {
        push_blanks(out, width - len);
    }
    push_decimal(out, whole);
    if decimals > 0 {
        out.push('.');
        push_fraction(out, value, decimals);
    } else {
        assert(whole == value) by (nonlinear_arith)
            requires
                whole == value / scale,
                scale == 1,
        ;
    }
}

/// Cuts `text` to at most `width` characters and fills it with trailing
/// blanks to exactly `width` characters.
pub fn pad_to_width(text: &str, width: u16) -> (out: String)
    ensures
        out@ == padded(text@, width as int),
        out@.len() == width,
{
    let max: usize = width as usize;
    let mut out = String::new();
    let mut chars = text.chars();
    let mut taken: usize = 0;
    let mut exhausted = false;
    while taken < max && !exhausted
        invariant
            taken <= max,
            taken <= text@.len(),
            out@ == text@.subrange(0, taken as int),
            chars.remaining() == text@.subrange(taken as int, text@.len() as int),
            exhausted ==> taken == text@.len(),
        decreases max - taken + (if exhausted { 0int } else { 1int }),
    {
        match chars.next() {
            Some(ch) => {
                out.push(ch);
                taken += 1;
            },
            None => {
                exhausted = true;
            },
        }
    }
    if taken < max {
        push_blanks(&mut out, max - taken);
    }
    out
}

} // verus!

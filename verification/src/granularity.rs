//! The `mmap` granularity setting.
//!
//! The heap obtains pages from the system in multiples of a granularity that is
//! fixed when the library is built. It is given as text, either in hexadecimal
//! behind a `0x` prefix or in decimal, and it must be a power of two.
use vstd::prelude::*;
use vstd::string::StringSliceAdditionalSpecFns;

verus! {

/// Why a run of digits does not read as a `u64` (the faults of `u64::from_str_radix`).
#[derive(Clone, Copy, Debug, PartialEq, Eq, Structural)]
pub enum ParseFault {
    /// There is no text at all.
    Empty,
    /// A byte is not a digit of the radix (a lone sign counts as one).
    InvalidDigit,
    /// The value does not fit in a `u64`.
    PosOverflow,
}

/// Why a granularity setting is refused.
#[derive(Clone, Copy, Debug, PartialEq, Eq, Structural)]
pub enum GranularityError {
    /// The text is not a number.
    Parse(ParseFault),
    /// The number is not a power of two.
    NotPowerOfTwo(u64),
}

/// The granularity that the library is built with when none is given: 2 MiB.
pub const DEFAULT_GRANULARITY: u64 = 0x200000;

/// `n` is a power of two: 1, 2, 4, 8, ...
pub open spec fn is_power_of_two(n: int) -> bool
    decreases n,
{
    if n <= 0 {
        false
    } else if n == 1 {
        true
    } else {
        n % 2 == 0 && is_power_of_two(n / 2)
    }
}

/// The value of one ASCII byte as a digit of `radix` (10 or 16), as `char::to_digit` gives it.
pub open spec fn digit_value(b: u8, radix: u32) -> Option<u64> {
    if 48 <= b <= 57 && (b - 48) < radix {
        Some((b - 48) as u64)
    } else if radix == 16 && 97 <= b <= 102 {
        Some((b - 87) as u64)
    } else if radix == 16 && 65 <= b <= 70 {
        Some((b - 55) as u64)
    } else {
        None
    }
}

/// Reading `digits` from left to right: the value so far is multiplied by the radix
/// and the next digit added; the first byte that is no digit, or the first step whose
/// value leaves the range of `u64`, ends the reading with that fault.
pub open spec fn read_digits(digits: Seq<u8>, radix: u32) -> Result<u64, ParseFault>
    decreases digits.len(),
{
    if digits.len() == 0 {
        Ok(0)
    } else {
        match read_digits(digits.drop_last(), radix) {
            Err(fault) => Err(fault),
            Ok(prefix) => match digit_value(digits.last(), radix) {
                None => Err(ParseFault::InvalidDigit),
                Some(d) => if prefix * radix + d > u64::MAX {
                    Err(ParseFault::PosOverflow)
                } else {
                    Ok((prefix * radix + d) as u64)
                },
            },
        }
    }
}

/// What `u64::from_str_radix` makes of the bytes `text`: an empty text is `Empty`,
/// a lone sign is an invalid digit, one leading `+` is skipped.
pub open spec fn read_u64(text: Seq<u8>, radix: u32) -> Result<u64, ParseFault> {
    if text.len() == 0 {
        Err(ParseFault::Empty)
    } else if text.len() == 1 && (text[0] == 43 || text[0] == 45) {
        Err(ParseFault::InvalidDigit)
    } else if text[0] == 43 {
        read_digits(text.drop_first(), radix)
    } else {
        read_digits(text, radix)
    }
}

/// The text starts with the hexadecimal prefix `0x`.
pub open spec fn has_hex_prefix(text: Seq<u8>) -> bool {
    text.len() >= 2 && text[0] == 48 && text[1] == 120
}

/// The number that the setting `text` reads as: hexadecimal behind `0x`, else decimal.
pub open spec fn read_setting(text: Seq<u8>) -> Result<u64, ParseFault> {
    if has_hex_prefix(text) {
        read_u64(text.skip(2), 16)
    } else {
        read_u64(text, 10)
    }
}

/// The granularity that the setting `text` stands for, or why it is refused.
pub open spec fn granularity_of(text: Seq<u8>) -> Result<u64, GranularityError> {
    let read = if has_hex_prefix(text) {
        read_u64(text.skip(2), 16)
    } else {
        read_u64(text, 10)
    };
    match read {
        Err(fault) => Err(GranularityError::Parse(fault)),
        Ok(g) => if is_power_of_two(g as int) {
            Ok(g)
        } else {
            Err(GranularityError::NotPowerOfTwo(g))
        },
    }
}

/// One step of the single-bit test: for `g > 1`, `g & (g - 1)` is zero exactly when
/// `g` is even and its half passes the same test.
proof fn lemma_single_bit_step(g: u64)
    requires
        g > 1,
    ensures
        (g & ((g - 1) as u64)) == 0 <==> (g % 2 == 0 && ((g / 2) & ((g / 2 - 1) as u64)) == 0),
{
    assert((g & ((g - 1) as u64)) == 0u64 <==> ((g & 1u64) == 0u64 && ((g >> 1u64) & ((g >> 1u64) - 1u64) as u64)
        == 0u64)) by (bit_vector)
        requires
            g > 1u64,
    ;
    assert((g & 1u64) == 0u64 <==> g % 2 == 0) by (bit_vector);
    assert(g >> 1u64 == g / 2) by (bit_vector);
}

/// A nonzero `u64` with no two bits set is a power of two, and conversely.
pub proof fn lemma_single_bit_is_power_of_two(g: u64)
    ensures
        (g != 0 && (g & ((g - 1) as u64)) == 0) <==> is_power_of_two(g as int),
    decreases g,
{
    if g == 0 {
    } else if g == 1 {
        assert((1u64 & 0u64) == 0u64) by (bit_vector);
    } else {
        lemma_single_bit_step(g);
        lemma_single_bit_is_power_of_two(g / 2);
    }
}

/// A setting is accepted only with a nonzero value that has a single bit set;
/// a value that reads but has more bits set, or none, is refused as no power
/// of two; a text that does not read is refused with its fault.
pub proof fn lemma_setting_laws(text: Seq<u8>)
    ensures
        granularity_of(text) matches Ok(g) ==> g != 0 && (g & ((g - 1) as u64)) == 0,
        read_setting(text) matches Ok(g) ==> (g != 0 && (g & ((g - 1) as u64)) == 0
            ==> granularity_of(text) == Ok::<u64, GranularityError>(g)),
        read_setting(text) matches Ok(g) ==> (!(g != 0 && (g & ((g - 1) as u64)) == 0)
            ==> granularity_of(text) == Err::<u64, GranularityError>(
            GranularityError::NotPowerOfTwo(g),
        )),
        read_setting(text) matches Err(fault) ==> granularity_of(text) == Err::<u64, GranularityError>(
            GranularityError::Parse(fault),
        ),
{
    match read_setting(text) {
        Ok(g) => {
            lemma_single_bit_is_power_of_two(g);
        },
        Err(_) => {},
    }
}

/// Tells whether `g` is a power of two.
pub fn power_of_two(g: u64) -> (r: bool)
    ensures
        r == is_power_of_two(g as int),
{
    proof {
        lemma_single_bit_is_power_of_two(g);
    }
    if g == 0 {
        false
    } else {
        g & (g - 1) == 0
    }
}

fn digit(b: u8, radix: u32) -> (r: Option<u64>)
    requires
        radix == 10 || radix == 16,
    ensures
        r == digit_value(b, radix),
{
    if 48 <= b && b <= 57 && ((b - 48) as u32) < radix {
        Some((b - 48) as u64)
    } else if radix == 16 && 97 <= b && b <= 102 {
        Some((b - 87) as u64)
    } else if radix == 16 && 65 <= b && b <= 70 {
        Some((b - 55) as u64)
    } else {
        None
    }
}

/// Reads `text[start..]` as digits of `radix`.
fn read_digits_from(text: &[u8], start: usize, radix: u32) -> (r: Result<u64, ParseFault>)
    requires
        radix == 10 || radix == 16,
        start <= text@.len(),
    ensures
        r == read_digits(text@.skip(start as int), radix),
{
    let mut value: u64 = 0;
    let mut i: usize = start;
    assert(text@.skip(start as int).take(0) =~= Seq::<u8>::empty());
    while i < text.len()
        invariant
            radix == 10 || radix == 16,
            start <= i <= text@.len(),
            read_digits(text@.skip(start as int).take(i - start), radix) == Ok::<u64, ParseFault>(value),
        decreases text@.len() - i,
    {
        let ghost done = text@.skip(start as int).take(i - start);
        let ghost next = text@.skip(start as int).take(i + 1 - start);
        assert(next.drop_last() =~= done);
        assert(next.last() == text@[i as int]);
        let d = match digit(text[i], radix) {
            None => {
                proof {
                    lemma_fault_persists(text@.skip(start as int), radix, i + 1 - start);
                    assert(text@.skip(start as int).take(text@.len() - start) =~= text@.skip(start as int));
                }
                return Err(ParseFault::InvalidDigit);
            },
            Some(d) => d,
        };
        let next_value = match value.checked_mul(radix as u64) {
            None => None,
            Some(m) => m.checked_add(d),
        };
        match next_value {
            None => {
                proof {
                    lemma_fault_persists(text@.skip(start as int), radix, i + 1 - start);
                    assert(text@.skip(start as int).take(text@.len() - start) =~= text@.skip(start as int));
                }
                return Err(ParseFault::PosOverflow);
            },
            Some(v) => {
                value = v;
            },
        }
        i = i + 1;
    }
    assert(text@.skip(start as int).take(i - start) =~= text@.skip(start as int));
    Ok(value)
}

/// Once a prefix of the digits is at fault, so is every longer prefix, with the same fault.
proof fn lemma_fault_persists(digits: Seq<u8>, radix: u32, n: int)
    requires
        0 <= n <= digits.len(),
        read_digits(digits.take(n), radix) is Err,
    ensures
        read_digits(digits, radix) == read_digits(digits.take(n), radix),
    decreases digits.len() - n,
{
    if n < digits.len() {
        let longer = digits.take(n + 1);
        assert(longer.drop_last() =~= digits.take(n));
        lemma_fault_persists(digits, radix, n + 1);
    } else {
        assert(digits.take(n) =~= digits);
    }
}

/// Reads `text[start..]` as a `u64` in `radix`, as `u64::from_str_radix` does.
fn read_number(text: &[u8], start: usize, radix: u32) -> (r: Result<u64, ParseFault>)
    requires
        radix == 10 || radix == 16,
        start <= text@.len(),
    ensures
        r == read_u64(text@.skip(start as int), radix),
{
    let ghost s = text@.skip(start as int);
    if start == text.len() {
        return Err(ParseFault::Empty);
    }
    let first = text[start];
    assert(s[0] == first);
    if start + 1 == text.len() && (first == 43 || first == 45) {
        return Err(ParseFault::InvalidDigit);
    }
    if first == 43 {
        assert(s.drop_first() =~= text@.skip(start + 1));
        read_digits_from(text, start + 1, radix)
    } else {
        read_digits_from(text, start, radix)
    }
}

/// Reads a granularity setting given as bytes: hexadecimal behind `0x`, else
/// decimal; the value must be a power of two.
pub fn parse_granularity_bytes(text: &[u8]) -> (r: Result<u64, GranularityError>)
    ensures
        r == granularity_of(text@),
        r matches Ok(g) ==> g != 0 && (g & ((g - 1) as u64)) == 0,
        read_setting(text@) matches Ok(g) ==> (g != 0 && (g & ((g - 1) as u64)) == 0 ==> r
            == Ok::<u64, GranularityError>(g)),
        read_setting(text@) matches Ok(g) ==> (!(g != 0 && (g & ((g - 1) as u64)) == 0) ==> r
            == Err::<u64, GranularityError>(GranularityError::NotPowerOfTwo(g))),
        read_setting(text@) matches Err(fault) ==> r == Err::<u64, GranularityError>(
            GranularityError::Parse(fault),
        ),
{
    proof {
        lemma_setting_laws(text@);
    }
    let hex = text.len() >= 2 && text[0] == 48 && text[1] == 120;
    let read = if hex {
        read_number(text, 2, 16)
    } else {
        assert(text@.skip(0) =~= text@);
        read_number(text, 0, 10)
    };
    match read {
        Err(fault) => Err(GranularityError::Parse(fault)),
        Ok(g) => if power_of_two(g) {
            Ok(g)
        } else {
            Err(GranularityError::NotPowerOfTwo(g))
        },
    }
}

/// Reads a granularity setting such as `"0x200000"` or `"65536"`.
pub fn parse_granularity(text: &str) -> (r: Result<u64, GranularityError>)
    ensures
        r == granularity_of(text.spec_bytes()),
        r matches Ok(g) ==> g != 0 && (g & ((g - 1) as u64)) == 0,
        read_setting(text.spec_bytes()) matches Ok(g) ==> (!(g != 0 && (g & ((g - 1) as u64)) == 0)
            ==> r == Err::<u64, GranularityError>(GranularityError::NotPowerOfTwo(g))),
{
    parse_granularity_bytes(text.as_bytes())
}

} // verus!

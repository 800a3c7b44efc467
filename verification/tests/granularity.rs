use portable_dlmalloc::granularity::{
    parse_granularity, parse_granularity_bytes, power_of_two, GranularityError, ParseFault,
    DEFAULT_GRANULARITY,
};

#[test]
fn default_setting_is_two_mebibytes() {
    assert_eq!(parse_granularity("0x200000"), Ok(0x200000));
    assert_eq!(DEFAULT_GRANULARITY, 0x200000);
    assert_eq!(parse_granularity("0x200000"), Ok(DEFAULT_GRANULARITY));
}

#[test]
fn decimal_setting() {
    assert_eq!(parse_granularity("65536"), Ok(65536));
    assert_eq!(parse_granularity("1"), Ok(1));
    assert_eq!(parse_granularity("+4096"), Ok(4096));
}

#[test]
fn hexadecimal_setting_either_case() {
    assert_eq!(parse_granularity("0x20000"), Ok(0x20000));
    assert_eq!(parse_granularity("0xA0"), Err(GranularityError::NotPowerOfTwo(160)));
    assert_eq!(parse_granularity("0x8000000000000000"), Ok(0x8000_0000_0000_0000));
    assert_eq!(parse_granularity("0x+10"), Ok(16));
}

#[test]
fn empty_settings() {
    assert_eq!(parse_granularity(""), Err(GranularityError::Parse(ParseFault::Empty)));
    assert_eq!(parse_granularity("0x"), Err(GranularityError::Parse(ParseFault::Empty)));
}

#[test]
fn invalid_digits() {
    assert_eq!(parse_granularity("+"), Err(GranularityError::Parse(ParseFault::InvalidDigit)));
    assert_eq!(parse_granularity("-"), Err(GranularityError::Parse(ParseFault::InvalidDigit)));
    assert_eq!(parse_granularity("-16"), Err(GranularityError::Parse(ParseFault::InvalidDigit)));
    assert_eq!(parse_granularity("0X10"), Err(GranularityError::Parse(ParseFault::InvalidDigit)));
    assert_eq!(parse_granularity("0x1g"), Err(GranularityError::Parse(ParseFault::InvalidDigit)));
    assert_eq!(parse_granularity("16 "), Err(GranularityError::Parse(ParseFault::InvalidDigit)));
    assert_eq!(parse_granularity("ab"), Err(GranularityError::Parse(ParseFault::InvalidDigit)));
    assert_eq!(parse_granularity("0x-1"), Err(GranularityError::Parse(ParseFault::InvalidDigit)));
}

#[test]
fn overflowing_settings() {
    assert_eq!(
        parse_granularity("18446744073709551616"),
        Err(GranularityError::Parse(ParseFault::PosOverflow))
    );
    assert_eq!(
        parse_granularity("0x10000000000000000"),
        Err(GranularityError::Parse(ParseFault::PosOverflow))
    );
    // The first fault met from the left decides.
    assert_eq!(
        parse_granularity("99999999999999999999z"),
        Err(GranularityError::Parse(ParseFault::PosOverflow))
    );
    assert_eq!(
        parse_granularity("9z999999999999999999999"),
        Err(GranularityError::Parse(ParseFault::InvalidDigit))
    );
}

#[test]
fn settings_that_are_no_power_of_two() {
    assert_eq!(parse_granularity("0"), Err(GranularityError::NotPowerOfTwo(0)));
    assert_eq!(parse_granularity("12"), Err(GranularityError::NotPowerOfTwo(12)));
    assert_eq!(parse_granularity("0x1F"), Err(GranularityError::NotPowerOfTwo(31)));
    assert_eq!(
        parse_granularity("18446744073709551615"),
        Err(GranularityError::NotPowerOfTwo(u64::MAX))
    );
}

#[test]
fn power_of_two_values() {
    assert!(!power_of_two(0));
    assert!(power_of_two(1));
    assert!(power_of_two(2));
    assert!(!power_of_two(3));
    assert!(power_of_two(64));
    assert!(!power_of_two(96));
    assert!(power_of_two(1 << 63));
    assert!(!power_of_two(u64::MAX));
}

fn std_reading(text: &str) -> Result<u64, GranularityError> {
    let (radix, digits) = match text.strip_prefix("0x") {
        Some(rest) => (16, rest),
        None => (10, text),
    };
    match u64::from_str_radix(digits, radix) {
        Ok(g) => {
            if g == 0 || (g & (g - 1)) != 0 {
                Err(GranularityError::NotPowerOfTwo(g))
            } else {
                Ok(g)
            }
        }
        Err(e) => {
            let fault = match e.kind() {
                std::num::IntErrorKind::Empty => ParseFault::Empty,
                std::num::IntErrorKind::PosOverflow => ParseFault::PosOverflow,
                _ => ParseFault::InvalidDigit,
            };
            Err(GranularityError::Parse(fault))
        }
    }
}

#[test]
fn agrees_with_std_reading() {
    let samples = [
        "", "0x", "+", "-", "0", "1", "2", "3", "+8", "-8", "0x+8", "0x-8", "0xff", "0xFF",
        "0x100", "0x1000", "4096", "4097", "0x200000", "2097152", "0X200000", "0x 1", " 1",
        "1 ", "18446744073709551615", "18446744073709551616", "9223372036854775808",
        "0xffffffffffffffff", "0x10000000000000000", "0x8000000000000000", "00000016",
        "0x0000000000000000000000001", "99999999999999999999z", "z99999999999999999999",
        "0xg", "é", "0x1é",
    ];
    for s in samples.iter() {
        assert_eq!(parse_granularity(s), std_reading(s), "setting {:?}", s);
        assert_eq!(parse_granularity_bytes(s.as_bytes()), std_reading(s), "setting {:?}", s);
    }
}

#[test]
fn every_single_bit_is_accepted() {
    for k in 0..64u32 {
        let g: u64 = 1u64 << k;
        assert_eq!(parse_granularity(&format!("{}", g)), Ok(g));
        assert_eq!(parse_granularity(&format!("0x{:x}", g)), Ok(g));
        if g > 2 {
            assert_eq!(
                parse_granularity(&format!("{}", g - 1)),
                Err(GranularityError::NotPowerOfTwo(g - 1))
            );
        }
    }
}

use kforge::numeral::{to_decimal, to_hex};

#[test]
fn hex_of_the_documented_example() {
    assert_eq!(to_hex(4096), "0x1000");
    assert_eq!(to_hex(512), "0x200");
}

#[test]
fn hex_of_zero_has_one_digit() {
    assert_eq!(to_hex(0), "0x0");
}

#[test]
fn hex_is_lower_case_without_leading_zeros() {
    assert_eq!(to_hex(10), "0xa");
    assert_eq!(to_hex(15), "0xf");
    assert_eq!(to_hex(16), "0x10");
    assert_eq!(to_hex(255), "0xff");
    assert_eq!(to_hex(0xdead_beef), "0xdeadbeef");
    assert_eq!(to_hex(0x0012_3456), "0x123456");
}

#[test]
fn hex_of_the_largest_number() {
    assert_eq!(to_hex(usize::MAX), format!("{:#x}", usize::MAX));
    assert_eq!(to_hex(u32::MAX as usize), "0xffffffff");
}

#[test]
fn hex_agrees_with_the_standard_formatting() {
    let mut n: usize = 0;
    while n < 70_000 {
        assert_eq!(to_hex(n), format!("{:#x}", n));
        n += 1;
    }
    let mut big: usize = 1;
    while big < usize::MAX / 3 {
        assert_eq!(to_hex(big), format!("{:#x}", big));
        assert_eq!(to_hex(big - 1), format!("{:#x}", big - 1));
        big = big * 3 + 1;
    }
}

#[test]
fn hex_reads_back_as_the_number() {
    for n in [0usize, 1, 9, 10, 4095, 4096, 65_535, 1_000_000, usize::MAX] {
        let text = to_hex(n);
        assert!(text.starts_with("0x"));
        assert_eq!(usize::from_str_radix(&text[2..], 16), Ok(n));
    }
}

#[test]
fn hex_of_different_numbers_differs() {
    assert_ne!(to_hex(0x10), to_hex(0x100));
    assert_ne!(to_hex(1), to_hex(0x1_0000_0001));
}

#[test]
fn decimal_of_small_numbers() {
    assert_eq!(to_decimal(0), "0");
    assert_eq!(to_decimal(7), "7");
    assert_eq!(to_decimal(10), "10");
    assert_eq!(to_decimal(4096), "4096");
    assert_eq!(to_decimal(1_234_567_890), "1234567890");
}

#[test]
fn decimal_agrees_with_the_standard_formatting() {
    let mut n: usize = 0;
    while n < 20_000 {
        assert_eq!(to_decimal(n), format!("{}", n));
        n += 1;
    }
    assert_eq!(to_decimal(usize::MAX), format!("{}", usize::MAX));
}

#[test]
fn decimal_reads_back_as_the_number() {
    for n in [0usize, 5, 99, 100, 65_536, usize::MAX] {
        assert_eq!(to_decimal(n).parse::<usize>(), Ok(n));
    }
}

use hemu_gui::debug_dump::hex_dump_line;
use hemu_gui::numbers::{parse_address_exec, parse_u64_exec, parse_usize_exec};
use hemu_gui::status_bar::cycles_text;

#[test]
fn addresses() {
    assert_eq!(parse_address_exec("0x8000"), Some(0x8000));
    assert_eq!(parse_address_exec("0Xff"), Some(255));
    assert_eq!(parse_address_exec("32768"), Some(32768));
    assert_eq!(parse_address_exec("+12"), Some(12));
    assert_eq!(parse_address_exec("0x"), None);
    assert_eq!(parse_address_exec(""), None);
    assert_eq!(parse_address_exec("0x1_0"), None);
    assert_eq!(parse_address_exec("4294967296"), None);
    assert_eq!(parse_address_exec("0xFFFFFFFF"), Some(u32::MAX));
}

#[test]
fn decimal_numbers() {
    assert_eq!(parse_u64_exec("18446744073709551615"), Some(u64::MAX));
    assert_eq!(parse_u64_exec("18446744073709551616"), None);
    assert_eq!(parse_usize_exec("42"), Some(42));
    assert_eq!(parse_usize_exec("-1"), None);
}

#[test]
fn written_numbers_read_back() {
    // The address column of a dump line, read back as "0x" and its digits.
    let line = hex_dump_line(0xBEEF, &[]);
    let digits = line.split(':').next().unwrap();
    assert_eq!(parse_address_exec(&format!("0x{}", digits)), Some(0xBEEF));
    // A cycle count of the status bar, read back as a decimal number.
    assert_eq!(parse_u64_exec(&cycles_text(999)), Some(999));
}

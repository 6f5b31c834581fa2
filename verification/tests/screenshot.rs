use hemu_gui::local_time::{dump_timestamp_text, timestamp_text, LocalTime};
use hemu_gui::screenshot::{new_screenshot_file_name, rgb_bytes, screenshot_file_name, screenshot_png};

#[test]
fn pixels_become_rgb_triples() {
    assert_eq!(rgb_bytes(&[0x00112233, 0xFFAABBCC]), vec![0x11, 0x22, 0x33, 0xAA, 0xBB, 0xCC]);
    assert!(rgb_bytes(&[]).is_empty());
}

#[test]
fn file_names_pad_the_random_part() {
    assert_eq!(screenshot_file_name("20240101120000", 7), "20240101120000007.png");
    assert_eq!(screenshot_file_name("20240101120000", 42), "20240101120000042.png");
    assert_eq!(screenshot_file_name("20240101120000", 999), "20240101120000999.png");
}

#[test]
fn fresh_file_name_shape() {
    let name = new_screenshot_file_name();
    assert!(name.ends_with(".png"));
    assert_eq!(name.len(), 21);
    assert!(name[..17].chars().all(|c| c.is_ascii_digit()));
}

#[test]
fn frames_encode_as_png() {
    let png = screenshot_png(&[0x00FF0000, 0x0000FF00], 2, 1).unwrap();
    assert_eq!(&png[..8], &[137, 80, 78, 71, 13, 10, 26, 10]);
    assert!(screenshot_png(&[0; 3], 2, 1).is_err());
    assert!(screenshot_png(&[], 0, 0).is_err());
}

fn at(year: i32, month: u32, day: u32, hour: u32, minute: u32, second: u32, nanosecond: u32) -> LocalTime {
    LocalTime { year, month, day, hour, minute, second, nanosecond }
}

fn chrono_format(t: &LocalTime, pattern: &str) -> String {
    chrono::NaiveDate::from_ymd_opt(t.year, t.month, t.day)
        .unwrap()
        .and_hms_nano_opt(t.hour, t.minute, t.second, t.nanosecond)
        .unwrap()
        .format(pattern)
        .to_string()
}

fn chrono_stamp(t: &LocalTime) -> String {
    chrono_format(t, "%Y%m%d%H%M%S")
}

#[test]
fn timestamps_are_fourteen_digits() {
    assert_eq!(timestamp_text(&at(2024, 1, 2, 3, 4, 5, 0)), "20240102030405");
    assert_eq!(timestamp_text(&at(1999, 12, 31, 23, 59, 59, 999_999_999)), "19991231235959");
}

#[test]
fn timestamps_write_what_chrono_writes() {
    let cases = [
        at(2024, 1, 2, 3, 4, 5, 0),
        at(1999, 12, 31, 23, 59, 59, 1_500_000_000),
        at(5, 6, 7, 8, 9, 10, 0),
        at(12345, 1, 1, 0, 0, 0, 0),
        at(-5, 1, 1, 0, 0, 0, 0),
        at(-12345, 1, 1, 0, 0, 0, 0),
    ];
    for t in cases.iter() {
        assert_eq!(timestamp_text(t), chrono_stamp(t));
    }
    assert_eq!(timestamp_text(&at(1999, 12, 31, 23, 59, 59, 1_500_000_000)), "19991231235960");
    assert_eq!(timestamp_text(&at(5, 6, 7, 8, 9, 10, 0)), "00050607080910");
    assert_eq!(timestamp_text(&at(12345, 1, 1, 0, 0, 0, 0)), "+123450101000000");
    assert_eq!(timestamp_text(&at(-5, 1, 1, 0, 0, 0, 0)), "-00050101000000");
}

#[test]
fn dump_timestamps_write_what_chrono_writes() {
    let cases = [
        at(2024, 1, 2, 3, 4, 5, 0),
        at(1999, 12, 31, 23, 59, 59, 1_500_000_000),
        at(5, 6, 7, 8, 9, 10, 0),
        at(12345, 1, 1, 0, 0, 0, 0),
        at(-5, 1, 1, 0, 0, 0, 0),
    ];
    for t in cases.iter() {
        assert_eq!(dump_timestamp_text(t), chrono_format(t, "%Y-%m-%d %H:%M:%S"));
    }
    assert_eq!(dump_timestamp_text(&at(2024, 1, 2, 3, 4, 5, 0)), "2024-01-02 03:04:05");
}

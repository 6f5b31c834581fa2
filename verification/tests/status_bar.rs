use hemu_gui::status_bar::{cycles_text, ip_text, join_parts, render_status_bar, STATUS_BAR_HEIGHT};

#[test]
fn instruction_pointer_widths() {
    assert_eq!(ip_text(0x1234), "$1234");
    assert_eq!(ip_text(0x12), "$0012");
    assert_eq!(ip_text(0x123456), "$123456");
    assert_eq!(ip_text(0x12345678), "$12345678");
    assert_eq!(ip_text(0x01000000), "$01000000");
}

#[test]
fn cycle_counts() {
    assert_eq!(cycles_text(999), "999");
    assert_eq!(cycles_text(1_000), "1K");
    assert_eq!(cycles_text(999_999), "999K");
    assert_eq!(cycles_text(2_500_000), "2M");
}

#[test]
fn joined_parts() {
    let parts = vec!["Software".to_string(), "60fps".to_string(), "$8000".to_string()];
    assert_eq!(join_parts(&parts, " \u{b7} "), "Software \u{b7} 60fps \u{b7} $8000");
    assert_eq!(join_parts(&[], ", "), "");
}

#[test]
fn bar_fills_the_bottom_rows() {
    let (w, h) = (320usize, 240usize);
    let mut buf = vec![0u32; w * h];
    let height = render_status_bar(&mut buf, w, h, None, "", &[]);
    assert_eq!(height, STATUS_BAR_HEIGHT);
    assert_eq!(buf[(h - 20) * w], 0xFF1E1E2E);
    assert_eq!(buf[h * w - 1], 0xFF1E1E2E);
    assert_eq!(buf[(h - 21) * w + w - 1], 0);
}

#[test]
fn too_low_screen_has_no_bar() {
    let mut buf = vec![5u32; 100 * 10];
    assert_eq!(render_status_bar(&mut buf, 100, 10, Some("X"), "hello", &[]), 0);
    assert!(buf.iter().all(|&p| p == 5));
}

#[test]
fn texts_use_their_colours() {
    let (w, h) = (400usize, 100usize);
    let mut buf = vec![0u32; w * h];
    let right = vec!["Software".to_string()];
    render_status_bar(&mut buf, w, h, Some("PAUSED"), "Loaded", &right);
    assert!(buf.contains(&0xFFFABD2F));
    assert!(buf.contains(&0xFF8EC07C));
    assert!(buf.contains(&0xFFABABAB));
}

use hemu_gui::ui_render::{
    create_default_screen, create_mount_point_selector, create_speed_selector_overlay, draw_text,
    draw_text_lines, fill_rect, has_required_mounts, blend_over, speed_lines_exec, MountPointInfo,
};

#[test]
fn glyph_pixels_of_a() {
    let (w, h) = (16usize, 16usize);
    let mut buf = vec![0u32; w * h];
    draw_text(&mut buf, w, h, "A", 0, 0, 0xFFFFFFFF);
    // Top row of 'A' is 0x3C: columns 2..=5 lit.
    assert_eq!(buf[0], 0);
    assert_eq!(buf[1], 0);
    assert_eq!(buf[2], 0xFFFFFFFF);
    assert_eq!(buf[5], 0xFFFFFFFF);
    assert_eq!(buf[6], 0);
    // Last row of the cell is empty.
    assert!(buf[7 * w..7 * w + 8].iter().all(|&p| p == 0));
}

#[test]
fn text_stops_at_the_right_edge() {
    let (w, h) = (12usize, 8usize);
    let mut buf = vec![0u32; w * h];
    draw_text(&mut buf, w, h, "HH", 0, 0, 1);
    // 'H' row 0 = 0x66 lights columns 1, 2, 5 and 6 of its cell. The second 'H'
    // starts at x = 8 and reaches the right edge: it is clipped, and drawing stops.
    assert_eq!(buf[1], 1);
    assert_eq!(buf[8], 0);
    assert_eq!(buf[9], 1);
    assert_eq!(buf[10], 1);
    assert_eq!(buf[11], 0);
}

#[test]
fn lines_stop_at_the_bottom() {
    let (w, h) = (32usize, 20usize);
    let mut buf = vec![0u32; w * h];
    draw_text_lines(&mut buf, w, h, &["A", "A", "A"], 0, 0, 10, 5);
    assert_eq!(buf[2], 5); // first line
    assert_eq!(buf[10 * w + 2], 5); // second line at y = 10
    // Third line at y = 20 does not fit.
}

#[test]
fn fill_rect_clips() {
    let (w, h) = (4usize, 3usize);
    let mut buf = vec![0u32; w * h];
    fill_rect(&mut buf, w, h, 2, 1, 5, 5, 9);
    assert_eq!(buf, vec![0, 0, 0, 0, 0, 0, 9, 9, 0, 0, 9, 9]);
}

#[test]
fn default_screen_background() {
    let buf = create_default_screen(256, 240);
    assert_eq!(buf.len(), 256 * 240);
    assert_eq!(buf[0], 0xFF1A1A2E);
}

#[test]
fn speed_overlay_marks_the_current_speed() {
    let lines = speed_lines_exec(Some(3));
    assert_eq!(lines[3], "> 3 - Normal (1x)");
    assert_eq!(lines[0], "  0 - Pause (0x)");
    let buf = create_speed_selector_overlay(400, 300, None);
    assert_eq!(buf[0], 0xC0000000);
    assert!(buf.contains(&0xFFFFFFFF));
}

#[test]
fn required_mounts() {
    let mp = |id: &str, required: bool| MountPointInfo {
        id: id.to_string(),
        name: id.to_string(),
        extensions: vec![],
        required,
    };
    let points = vec![mp("BIOS", true), mp("FloppyA", false)];
    assert!(has_required_mounts(&points, &[true, false]));
    assert!(!has_required_mounts(&points, &[false, true]));
    assert!(has_required_mounts(&[], &[]));
}

#[test]
fn mount_point_selector_lists_points() {
    let points = vec![MountPointInfo {
        id: "Cartridge".to_string(),
        name: "Cartridge Slot".to_string(),
        extensions: vec!["nes".to_string()],
        required: true,
    }];
    let buf = create_mount_point_selector(320, 240, &points);
    assert_eq!(buf.len(), 320 * 240);
    assert!(buf.contains(&0xFFFFFFFF));
}

#[test]
fn blending_overlays() {
    let base = [0x0010_2030u32, 0xFF00_0000, 0xFF00_0000, 0x1234_5678];
    let overlay = [0x00FF_FFFFu32, 0xFFAA_BBCC, 0x80FF_FFFF, 0x0100_0000];
    let out = blend_over(&base, &overlay);
    assert_eq!(out[0], 0x0010_2030); // transparent: base kept as it is
    assert_eq!(out[1], 0xFFAA_BBCC); // opaque: overlay
    // Half-transparent white over black: 255 * 128 / 255 = 128 per channel.
    assert_eq!(out[2], 0xFF80_8080);
    // Nearly transparent black over 0x345678: (c * 254) / 255 per channel.
    assert_eq!(out[3], 0xFF00_0000 | (0x34 * 254 / 255) << 16 | (0x56 * 254 / 255) << 8 | (0x78 * 254 / 255));
}

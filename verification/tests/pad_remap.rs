use hemu_gui::pad_remap::{gameboy_pad, gba_pad, megadrive_pad, n64_buttons, sms_pad};

#[test]
fn nothing_pressed() {
    assert_eq!(gameboy_pad(0), 0xFF);
    assert_eq!(gba_pad(0), 0);
    assert_eq!(sms_pad(0), 0xFF);
    assert_eq!(megadrive_pad(0), 0xFFFF);
}

#[test]
fn gameboy_bit_order() {
    // Right (bit 7) goes to bit 0, A (bit 0) to bit 4, inverted.
    assert_eq!(gameboy_pad(0x80), 0xFE);
    assert_eq!(gameboy_pad(0x01), 0xEF);
    assert_eq!(gameboy_pad(0xFF), 0x00);
}

#[test]
fn gba_bit_order() {
    assert_eq!(gba_pad(0x0F), 0x0F);
    assert_eq!(gba_pad(0x80), 0x10); // Right
    assert_eq!(gba_pad(0x40), 0x20); // Left
    assert_eq!(gba_pad(0x10), 0x40); // Up
    assert_eq!(gba_pad(0x20), 0x80); // Down
}

#[test]
fn sms_and_megadrive() {
    assert_eq!(sms_pad(0x10), 0xFE); // Up
    assert_eq!(sms_pad(0x02), 0xEF); // B -> button 1
    assert_eq!(sms_pad(0x01), 0xDF); // A -> button 2
    assert_eq!(sms_pad(0x0C), 0xFF); // Select and Start have no SMS bit
    assert_eq!(megadrive_pad(0x04), 0xFFDF); // Select -> C
    assert_eq!(megadrive_pad(0x08), 0xFF7F); // Start
}

#[test]
fn n64_buttons_from_state() {
    let b = n64_buttons(0b1001_1001);
    assert!(b.a && b.start && b.d_up && b.d_right);
    assert!(!b.b && !b.d_down && !b.d_left);
}

use hemu_gui::controller::{
    get_chip8_controller_state, get_colecovision_controller_state, get_controller_state,
    get_gw_controller_state, get_snes_controller_state, key_mapping_to_button,
};

fn mapping() -> [Option<u32>; 12] {
    // a, b, select, start, up, down, left, right, x, y, l, r
    [Some(1), Some(2), Some(3), Some(4), Some(5), Some(6), Some(7), Some(8), Some(9), Some(10), None, Some(12)]
}

#[test]
fn key_maps_to_its_button() {
    let m = mapping();
    assert_eq!(key_mapping_to_button(1, &m), Some(0));
    assert_eq!(key_mapping_to_button(8, &m), Some(7));
    assert_eq!(key_mapping_to_button(12, &m), Some(11));
    assert_eq!(key_mapping_to_button(99, &m), None);
}

#[test]
fn first_button_wins_for_a_shared_key() {
    let mut m = mapping();
    m[5] = Some(1); // down shares A's key
    assert_eq!(key_mapping_to_button(1, &m), Some(0));
}

#[test]
fn pad_state_bits() {
    let m = mapping();
    let mut down = [false; 12];
    down[0] = true; // A
    down[7] = true; // Right
    down[8] = true; // X is not on the 8-button pad
    assert_eq!(get_controller_state(&m, &down), 0b1000_0001);
}

#[test]
fn snes_state_includes_extra_buttons() {
    let m = mapping();
    let mut down = [false; 12];
    down[8] = true; // X
    down[11] = true; // R
    down[1] = true; // B
    assert_eq!(get_snes_controller_state(&m, &down), (1 << 6) | (1 << 4) | (1 << 15));
}

#[test]
fn chip8_and_handhelds() {
    let mut keys = [false; 16];
    keys[0] = true;
    keys[15] = true;
    // The first key is keypad 1, the last keypad F.
    assert_eq!(get_chip8_controller_state(&keys), 0x8002);
    let mut gw = [false; 8];
    gw[2] = true;
    assert_eq!(get_gw_controller_state(&gw), 0b100);
    // Left Shift (Select slot) and Enter (Start slot) are fire buttons A and B.
    let mut cv = [false; 8];
    cv[2] = true;
    cv[3] = true;
    assert_eq!(get_colecovision_controller_state(&cv), 0x03);
    // The A and B slots drive nothing; Right is bit 7.
    let mut cv2 = [false; 8];
    cv2[0] = true;
    cv2[1] = true;
    cv2[7] = true;
    assert_eq!(get_colecovision_controller_state(&cv2), 0x80);
}

use hemu_gui::selector::{SelectorManager, SelectorType, SelectorWindow};

#[test]
fn slot_keys() {
    let mut w = SelectorWindow::new(SelectorType::SaveSlot);
    assert_eq!(w.handle_key('1'), Some(Some(0)));
    assert_eq!(w.handle_key('5'), Some(Some(4)));
    assert_eq!(w.handle_key('6'), None);
    assert_eq!(w.handle_key('0'), None);
}

#[test]
fn speed_and_disk_keys() {
    let mut s = SelectorWindow::new(SelectorType::Speed);
    assert_eq!(s.handle_key('0'), Some(Some(0)));
    assert_eq!(s.handle_key('5'), Some(Some(5)));
    let mut d = SelectorWindow::new(SelectorType::DiskFormat);
    assert_eq!(d.handle_key('9'), Some(Some(8)));
    assert_eq!(d.handle_key('a'), None);
}

#[test]
fn manager_opens_and_closes() {
    let mut m = SelectorManager::new();
    assert!(!m.is_open());
    assert_eq!(m.handle_key('1'), None);
    m.show_load_slot_selector();
    assert!(m.is_open());
    assert_eq!(m.handle_key('2'), Some(Some(1)));
    m.close();
    assert!(!m.is_open());
}

#[test]
fn slot_selector_text() {
    let w = SelectorWindow::new(SelectorType::SaveSlot);
    let (width, height) = (500usize, 200usize);
    let mut buf = vec![0u32; width * height];
    w.render_slot_selector(&mut buf, width, height, 0, 0, "SAVE");
    assert!(buf[10 * width..18 * width].contains(&0xFFEBDBB2)); // title row
    assert!(buf[106 * width..114 * width].contains(&0xFF928374)); // hint row
}

#[test]
fn disk_format_selector_text() {
    let w = SelectorWindow::new(SelectorType::DiskFormat);
    let (width, height) = (500usize, 200usize);
    let mut buf = vec![0u32; width * height];
    w.render_disk_format_selector(&mut buf, width, height, 0, 0);
    assert!(buf[34 * width..42 * width].contains(&0xFFEBDBB2)); // first format
    assert!(buf[118 * width..126 * width].contains(&0xFF928374)); // hint row
}

#[test]
fn selector_window_layout() {
    let mut w = SelectorWindow::new(SelectorType::Speed);
    let buf = w.render(800, 600, Some(3));
    assert_eq!((w.x, w.y, w.width, w.height), (150, 100, 500, 400));
    assert_eq!(buf[0], 0xC0000000);
    assert_eq!(buf[100 * 800 + 150], 0xFF1E1E2E);
    assert!(buf.contains(&0xFF928374));
}

#[test]
fn small_screen_selector_fills_it() {
    let mut w = SelectorWindow::new(SelectorType::DiskFormat);
    let buf = w.render(300, 200, None);
    assert_eq!((w.x, w.y, w.width, w.height), (0, 0, 300, 200));
    assert_eq!(buf[0], 0xFF1E1E2E);
}

#[test]
fn manager_renders_only_an_open_selector() {
    let mut m = SelectorManager::new();
    assert!(m.render(640, 480, None).is_none());
    m.show_save_slot_selector();
    let buf = m.render(640, 480, None).unwrap();
    assert_eq!(buf.len(), 640 * 480);
    let w = m.active_selector.as_ref().unwrap();
    assert_eq!((w.x, w.y, w.width, w.height), (70, 40, 500, 400));
}

#[test]
fn escape_cancels() {
    let mut w = SelectorWindow::new(SelectorType::Speed);
    assert_eq!(w.handle_key('\u{1b}'), None); // the window does not handle ESC
    let mut m = SelectorManager::new();
    assert_eq!(m.handle_key('\u{1b}'), None); // nothing open: not handled
    m.show_save_slot_selector();
    assert_eq!(m.handle_key('\u{1b}'), Some(None));
    assert!(m.is_open());
}

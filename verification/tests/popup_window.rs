use hemu_gui::popup_window::{DebugTab, DebugWindow, HelpWindow, PopupWindowManager};
use hemu_gui::settings::Settings;

#[test]
fn toggling_popups() {
    let mut m = PopupWindowManager::new();
    assert!(!m.has_open_popup());
    m.toggle_debug();
    assert!(m.is_debug_open() && !m.is_help_open());
    m.toggle_help();
    assert!(m.is_help_open());
    m.toggle_debug();
    assert!(!m.is_debug_open() && m.is_help_open());
    m.close_all();
    assert!(!m.has_open_popup());
}

#[test]
fn fresh_debug_window() {
    let w = DebugWindow::new();
    assert_eq!(w.active_tab, DebugTab::Cpu);
    assert_eq!(w.log_level, "info");
    assert_eq!(w.log_scope, "all");
}

#[test]
fn tabs_and_labels() {
    let labels: Vec<&str> = DebugTab::all().iter().map(|t| t.label()).collect();
    assert_eq!(labels, vec!["Logs", "Memory", "Graphics", "CPU", "Bus/IRQ"]);
}

#[test]
fn help_window_layout() {
    let buf = HelpWindow::new().render(800, 600, &Settings::default());
    assert_eq!(buf.len(), 800 * 600);
    assert_eq!(buf[0], 0x80000000); // dimmed screen
    assert_eq!(buf[25 * 800 + 50], 0xFF282828); // title bar corner
    assert_eq!(buf[55 * 800 + 50], 0xFF1E1E2E); // window body
    assert_eq!(buf[599 * 800 + 799], 0x80000000);
}

#[test]
fn cpu_tab_without_info_shows_a_note() {
    let w = DebugWindow::new();
    let mut buf = vec![0u32; 300 * 40];
    w.render_cpu_tab(&mut buf, 300, 40, 0, 0, 300, None);
    assert!(buf.contains(&0xFF928374));
    assert!(!buf.contains(&0xFFEBDBB2));
}

#[test]
fn cpu_tab_lines_stop_at_the_bottom() {
    let w = DebugWindow::new();
    let (width, height) = (100usize, 20usize);
    let mut buf = vec![0u32; width * height];
    let lines = ["AAA", "AAA", "AAA"];
    w.render_cpu_tab(&mut buf, width, height, 0, 0, width, Some(&lines));
    // Only the first line fits: nothing is drawn from row 12 on.
    assert!(buf[..8 * width].contains(&0xFFEBDBB2));
    assert!(!buf[12 * width..].contains(&0xFFEBDBB2));
}

#[test]
fn memory_and_logs_tabs_draw_text() {
    let w = DebugWindow::new();
    let mut buf = vec![0u32; 400 * 20];
    w.render_memory_tab(&mut buf, 400, 20, 0, 0, 400);
    assert!(buf.contains(&0xFFEBDBB2));
    let mut buf2 = vec![0u32; 400 * 20];
    w.render_logs_tab(&mut buf2, 400, 20, 0, 0, 400);
    assert!(buf2.contains(&0xFFEBDBB2));
}

#[test]
fn debug_window_layout() {
    let w = DebugWindow::new();
    let buf = w.render(1000, 700, None, None, None, "Software");
    assert_eq!(buf.len(), 1000 * 700);
    assert_eq!(buf[0], 0x80000000);
    // Window 800 x 600 centred at (100, 50); title bar 30 high.
    assert_eq!(buf[50 * 1000 + 100], 0xFF282828);
    // Tabs start at y = 80, 160 wide; the CPU tab (fourth) is active.
    assert_eq!(buf[80 * 1000 + 100], 0xFF282828);
    assert_eq!(buf[80 * 1000 + 100 + 3 * 160], 0xFF3C3836);
    // Below the tabs, the body; the CPU tab shows its note in grey.
    assert_eq!(buf[106 * 1000 + 100], 0xFF1E1E2E);
    assert!(buf.contains(&0xFF928374));
}

#[test]
fn debug_window_memory_tab() {
    let mut w = DebugWindow::new();
    w.active_tab = DebugTab::Memory;
    w.memory_address = 0xC000;
    let buf = w.render(1000, 700, None, None, None, "Software");
    assert_eq!(buf[80 * 1000 + 100 + 160], 0xFF3C3836);
}

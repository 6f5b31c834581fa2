use hemu_gui::menu::{MenuAction, MenuBar, SpeedSetting};

#[test]
fn new_bar_has_five_menus_and_is_visible() {
    let bar = MenuBar::new();
    let labels: Vec<&str> = bar.menus.iter().map(|m| m.label.as_str()).collect();
    assert_eq!(labels, vec!["File", "Emulation", "State", "View", "Help"]);
    assert!(bar.is_visible());
    assert_eq!(bar.height(), 24);
    assert!(bar.active_menu.is_none());
}

#[test]
fn clicking_a_label_twice_closes_it() {
    let mut bar = MenuBar::new();
    assert_eq!(bar.handle_click(10, 5), None);
    assert_eq!(bar.active_menu, Some(0));
    assert_eq!(bar.handle_click(10, 5), None);
    assert_eq!(bar.active_menu, None);
}

#[test]
fn clicking_an_enabled_item_returns_its_action() {
    let mut bar = MenuBar::new();
    bar.handle_click(10, 5); // open File
    // Second item (Open ROM...) at y = 24 + 20..40
    assert_eq!(bar.handle_click(20, 50), Some(MenuAction::OpenRom));
    assert_eq!(bar.active_menu, None);
}

#[test]
fn clicking_a_disabled_item_closes_the_menu() {
    let mut bar = MenuBar::new();
    bar.handle_click(10, 5); // open File
    // Fourth item (Save Project...) is disabled until a ROM is loaded
    assert_eq!(bar.handle_click(20, 24 + 3 * 20 + 5), None);
    assert_eq!(bar.active_menu, None);
}

#[test]
fn hidden_bar_ignores_clicks() {
    let mut bar = MenuBar::new();
    bar.toggle();
    assert!(!bar.is_visible());
    assert_eq!(bar.height(), 0);
    assert_eq!(bar.handle_click(10, 5), None);
    assert_eq!(bar.active_menu, None);
}

#[test]
fn loading_a_rom_enables_save_project() {
    let mut bar = MenuBar::new();
    bar.update_menu_state(true, false, true, false);
    bar.handle_click(10, 5);
    assert_eq!(bar.handle_click(20, 24 + 3 * 20 + 5), Some(MenuAction::SaveProject));
}

#[test]
fn update_is_idempotent() {
    let mut a = MenuBar::new();
    a.update_menu_state(true, true, false, true);
    let first: Vec<bool> = a.menus.iter().flat_map(|m| m.items.iter().map(|i| i.enabled)).collect();
    a.update_menu_state(true, true, false, true);
    let second: Vec<bool> = a.menus.iter().flat_map(|m| m.items.iter().map(|i| i.enabled)).collect();
    assert_eq!(first, second);
}

#[test]
fn state_menu_slots() {
    let bar = MenuBar::new();
    let state = &bar.menus[2];
    assert_eq!(state.items.len(), 10);
    assert_eq!(state.items[0].label, "Save State Slot 1");
    assert_eq!(state.items[0].shortcut.as_deref(), Some("Ctrl+1"));
    assert_eq!(state.items[0].action, MenuAction::SaveState(1));
    assert_eq!(state.items[9].label, "Load State Slot 5");
    assert_eq!(state.items[9].action, MenuAction::LoadState(5));
}

#[test]
fn speed_items_exist() {
    let bar = MenuBar::new();
    let emu = &bar.menus[1];
    assert!(emu.items.iter().any(|i| i.action == MenuAction::Speed(SpeedSetting::Percent100)));
}

#[test]
fn render_draws_bar_background() {
    let bar = MenuBar::new();
    let (w, h) = (640usize, 480usize);
    let mut buf = vec![0u32; w * h];
    bar.render(&mut buf, w, h);
    assert_eq!(buf[0], 0xFF2A2A3E);
    assert_eq!(buf[23 * w + 639], 0xFF2A2A3E);
    assert_eq!(buf[24 * w], 0);
}

#[test]
fn render_hidden_bar_draws_nothing() {
    let mut bar = MenuBar::new();
    bar.toggle();
    let mut buf = vec![7u32; 100 * 100];
    bar.render(&mut buf, 100, 100);
    assert!(buf.iter().all(|&p| p == 7));
}

#[test]
fn render_open_dropdown_background() {
    let mut bar = MenuBar::new();
    bar.handle_click(90, 5); // Emulation menu (index 1)
    let (w, h) = (640usize, 480usize);
    let mut buf = vec![0u32; w * h];
    bar.render(&mut buf, w, h);
    // Dropdown starts at x = 8 + 80 = 88, y = 24; its top-left pixel has no glyph.
    assert_eq!(buf[24 * w + 88], 0xFF1A1A2E);
    assert_eq!(buf[24 * w + 87], 0);
}

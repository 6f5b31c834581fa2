//! In-application menu bar (rendered overlay)
//!
//! The bar holds five menus (File, Emulation, State, View, Help). Clicking a menu
//! label opens or closes its dropdown; clicking an enabled item of the open
//! dropdown returns that item's action and closes the dropdown; any other click
//! closes it. Which items are enabled follows the emulator's state.
use vstd::prelude::*;
use vstd::string::*;

use crate::text::{append_decimal, decimal, opt_view};
use crate::ui_render::{draw_text, draw_text_spec, fill_rect, fill_rect_spec};

verus! {

/// Height of the menu bar in pixels.
pub const MENU_BAR_HEIGHT: usize = 24;

/// Width of a menu label slot in the bar, in pixels.
pub const MENU_ITEM_WIDTH: usize = 80;

/// Emulation speed choices of the menu.
#[derive(Debug, Clone, Copy, PartialEq, Eq, Structural)]
pub enum SpeedSetting {
    Percent25,
    Percent50,
    Percent100,
    Percent200,
    Percent400,
}

/// Menu actions that can be triggered
#[derive(Debug, Clone, Copy, PartialEq, Eq, Structural)]
pub enum MenuAction {
    // File menu
    NewProject,
    OpenRom,
    OpenProject,
    SaveProject,
    MountPoints,
    Exit,
    // Emulation menu
    Reset,
    Pause,
    Resume,
    Speed(SpeedSetting),
    // State menu
    /// Slots 1-5
    SaveState(u8),
    /// Slots 1-5
    LoadState(u8),
    // View menu
    Screenshot,
    DebugInfo,
    CrtFilterToggle,
    StartLogging,
    StopLogging,
    // Help menu
    Help,
    About,
}

/// Menu item definition
#[derive(Debug, Clone)]
pub struct MenuItem {
    pub label: String,
    pub action: MenuAction,
    pub shortcut: Option<String>,
    pub enabled: bool,
}

/// Submenu definition
#[derive(Debug)]
pub struct Submenu {
    pub label: String,
    pub items: Vec<MenuItem>,
}

/// Menu bar system
#[derive(Debug)]
pub struct MenuBar {
    pub menus: Vec<Submenu>,
    pub active_menu: Option<usize>,
    pub visible: bool,
}

/// What a menu item shows and does.
pub struct MenuItemView {
    pub label: Seq<char>,
    pub action: MenuAction,
    pub shortcut: Option<Seq<char>>,
    pub enabled: bool,
}

/// A menu's label and items.
pub struct SubmenuView {
    pub label: Seq<char>,
    pub items: Seq<MenuItemView>,
}

impl View for MenuItem {
    type V = MenuItemView;

    open spec fn view(&self) -> MenuItemView {
        MenuItemView {
            label: self.label@,
            action: self.action,
            shortcut: opt_view(self.shortcut),
            enabled: self.enabled,
        }
    }
}

impl View for Submenu {
    type V = SubmenuView;

    open spec fn view(&self) -> SubmenuView {
        SubmenuView { label: self.label@, items: self.items@.map_values(|it: MenuItem| it@) }
    }
}

/// The views of a list of menus.
pub open spec fn menus_view(menus: Seq<Submenu>) -> Seq<SubmenuView> {
    menus.map_values(|m: Submenu| m@)
}

/// A menu item's view.
pub open spec fn item(
    label: Seq<char>,
    action: MenuAction,
    shortcut: Option<Seq<char>>,
    enabled: bool,
) -> MenuItemView {
    MenuItemView { label, action, shortcut, enabled }
}

/// The items of the State menu: "Save State Slot k" (Ctrl+k) for k in 1..=5, then
/// "Load State Slot k" (Ctrl+Shift+k), all disabled.
pub open spec fn state_menu_items() -> Seq<MenuItemView> {
    Seq::new(
        5,
        |k: int|
            item(
                "Save State Slot "@ + decimal((k + 1) as nat),
                MenuAction::SaveState((k + 1) as u8),
                Some("Ctrl+"@ + decimal((k + 1) as nat)),
                false,
            ),
    ) + Seq::new(
        5,
        |k: int|
            item(
                "Load State Slot "@ + decimal((k + 1) as nat),
                MenuAction::LoadState((k + 1) as u8),
                Some("Ctrl+Shift+"@ + decimal((k + 1) as nat)),
                false,
            ),
    )
}

/// The menus of a new menu bar.
pub open spec fn initial_menus() -> Seq<SubmenuView> {
    seq![
        SubmenuView {
            label: "File"@,
            items: seq![
                item("New Project..."@, MenuAction::NewProject, Some("Ctrl+N"@), true),
                item("Open ROM..."@, MenuAction::OpenRom, Some("Ctrl+O"@), true),
                item("Open Project..."@, MenuAction::OpenProject, Some("Ctrl+Shift+O"@), true),
                item("Save Project..."@, MenuAction::SaveProject, Some("Ctrl+S"@), false),
                item("Mount Points..."@, MenuAction::MountPoints, None, false),
                item("Exit"@, MenuAction::Exit, Some("Esc"@), true),
            ],
        },
        SubmenuView {
            label: "Emulation"@,
            items: seq![
                item("Reset"@, MenuAction::Reset, Some("Ctrl+R"@), false),
                item("Pause"@, MenuAction::Pause, Some("Ctrl+P"@), false),
                item("Resume"@, MenuAction::Resume, Some("Ctrl+P"@), false),
                item("Speed: 25%"@, MenuAction::Speed(SpeedSetting::Percent25), None, false),
                item("Speed: 50%"@, MenuAction::Speed(SpeedSetting::Percent50), None, false),
                item("Speed: 100%"@, MenuAction::Speed(SpeedSetting::Percent100), None, false),
                item("Speed: 200%"@, MenuAction::Speed(SpeedSetting::Percent200), None, false),
                item("Speed: 400%"@, MenuAction::Speed(SpeedSetting::Percent400), None, false),
            ],
        },
        SubmenuView { label: "State"@, items: state_menu_items() },
        SubmenuView {
            label: "View"@,
            items: seq![
                item("Take Screenshot"@, MenuAction::Screenshot, Some("F4"@), false),
                item("Debug Info"@, MenuAction::DebugInfo, Some("F10"@), true),
                item("CRT Filter"@, MenuAction::CrtFilterToggle, Some("F11"@), true),
                item("Start Logging"@, MenuAction::StartLogging, None, true),
                item("Stop Logging"@, MenuAction::StopLogging, None, false),
            ],
        },
        SubmenuView {
            label: "Help"@,
            items: seq![
                item("Help"@, MenuAction::Help, Some("F1"@), true),
                item("About"@, MenuAction::About, None, true),
            ],
        },
    ]
}

/// How many menus a bar can hold: the dropdown arithmetic of the last one fits in a usize.
pub open spec fn menu_count_ok(n: int) -> bool {
    n * 80 + 258 <= usize::MAX
}

/// The active menu and the returned action after a click at (`x`, `y`).
pub open spec fn spec_click(
    menus: Seq<SubmenuView>,
    active: Option<usize>,
    visible: bool,
    x: int,
    y: int,
) -> (Option<usize>, Option<MenuAction>) {
    if !visible {
        (active, None)
    } else if y < 24 {
        let idx = x / 80;
        if idx < menus.len() {
            if active == Some(idx as usize) {
                (None, None)
            } else {
                (Some(idx as usize), None)
            }
        } else {
            (active, None)
        }
    } else {
        match active {
            Some(m) => {
                let left = 8 + m * 80;
                let row = (y - 24) / 20;
                if m < menus.len() && left <= x < left + 250 && row < menus[m as int].items.len()
                    && menus[m as int].items[row].enabled {
                    (None, Some(menus[m as int].items[row].action))
                } else {
                    (None, None)
                }
            },
            None => (None, None),
        }
    }
}

/// Whether an item of menu number `menu` is enabled after the state update.
pub open spec fn updated_enabled(
    menu: int,
    it: MenuItemView,
    rom_loaded: bool,
    paused: bool,
    supports_save_states: bool,
    logging_active: bool,
) -> bool {
    match it.action {
        MenuAction::SaveProject | MenuAction::MountPoints => if menu == 0 {
            rom_loaded
        } else {
            it.enabled
        },
        MenuAction::Reset | MenuAction::Speed(_) => if menu == 1 {
            rom_loaded
        } else {
            it.enabled
        },
        MenuAction::Pause => if menu == 1 {
            rom_loaded && !paused
        } else {
            it.enabled
        },
        MenuAction::Resume => if menu == 1 {
            rom_loaded && paused
        } else {
            it.enabled
        },
        MenuAction::SaveState(_) | MenuAction::LoadState(_) => if menu == 2 {
            rom_loaded && supports_save_states
        } else {
            it.enabled
        },
        MenuAction::Screenshot => if menu == 3 {
            rom_loaded
        } else {
            it.enabled
        },
        MenuAction::StartLogging => if menu == 3 {
            !logging_active
        } else {
            it.enabled
        },
        MenuAction::StopLogging => if menu == 3 {
            logging_active
        } else {
            it.enabled
        },
        _ => it.enabled,
    }
}

/// The menus after the state update: only the `enabled` flags change.
pub open spec fn spec_update_menus(
    menus: Seq<SubmenuView>,
    rom_loaded: bool,
    paused: bool,
    supports_save_states: bool,
    logging_active: bool,
) -> Seq<SubmenuView> {
    Seq::new(
        menus.len(),
        |m: int|
            SubmenuView {
                label: menus[m].label,
                items: Seq::new(
                    menus[m].items.len(),
                    |i: int|
                        MenuItemView {
                            enabled: updated_enabled(
                                m,
                                menus[m].items[i],
                                rom_loaded,
                                paused,
                                supports_save_states,
                                logging_active,
                            ),
                            ..menus[m].items[i]
                        },
                ),
            },
    )
}

fn new_item(label: &str, action: MenuAction, shortcut: Option<&str>, enabled: bool) -> (it:
    MenuItem)
    ensures
        it@ == item(
            label@,
            action,
            match shortcut {
                Some(s) => Some(s@),
                None => None,
            },
            enabled,
        ),
{
    let shortcut = match shortcut {
        Some(s) => Some(String::from_str(s)),
        None => None,
    };
    MenuItem { label: String::from_str(label), action, shortcut, enabled }
}

/// Build a string from a literal prefix and a decimal number.
fn prefixed_number(prefix: &str, n: u8) -> (s: String)
    ensures
        s@ == prefix@ + decimal(n as nat),
{
    let mut s = String::from_str(prefix);
    append_decimal(&mut s, n as usize);
    s
}

/// `buf` with the first `rows` rows of a `width`-wide buffer filled with `color`
/// (the pixels that the buffer holds).
pub open spec fn top_rows_filled(buf: Seq<u32>, width: int, rows: int, color: u32) -> Seq<u32> {
    Seq::new(buf.len(), |p: int| if p < rows * width { color } else { buf[p] })
}

/// The colour of menu label `i`: highlighted when its menu is open.
pub open spec fn label_color(active: Option<usize>, i: int) -> u32 {
    if active == Some(i as usize) {
        0xFF16F2B3
    } else {
        0xFFFFFFFF
    }
}

/// `buf` with the first `n` menu labels drawn, label `i` at (8 + 80 i, 8).
pub open spec fn draw_labels(
    buf: Seq<u32>,
    width: int,
    height: int,
    menus: Seq<SubmenuView>,
    active: Option<usize>,
    n: int,
) -> Seq<u32>
    decreases n,
{
    if n <= 0 {
        buf
    } else {
        draw_text_spec(
            draw_labels(buf, width, height, menus, active, n - 1),
            width,
            height,
            menus[n - 1].label,
            8 + 80 * (n - 1),
            8,
            label_color(active, n - 1),
        )
    }
}

/// The left edge of the dropdown of menu `i`.
pub open spec fn dropdown_x(i: int) -> int {
    8 + 80 * i
}

/// The number of dropdown items that fit above the bottom edge (items are 20
/// pixels high, starting below the bar).
pub open spec fn dropdown_item_count(n: int, height: int) -> int {
    if height >= 44 {
        let fit = (height - 44) / 20 + 1;
        if n < fit {
            n
        } else {
            fit
        }
    } else {
        0
    }
}

/// The left edge of an item's shortcut: right-aligned in the 250-pixel dropdown,
/// 8 pixels per byte of the shortcut, but no further right than 180 pixels in.
pub open spec fn shortcut_x(x0: int, shortcut: Seq<char>) -> int {
    let right = x0 + 250 - 8 * vstd::utf8::encode_utf8(shortcut).len() - 8;
    if right < x0 + 180 {
        right
    } else {
        x0 + 180
    }
}

/// `buf` with a dropdown item drawn in the row starting at `y`: its label, then
/// its shortcut, dimmed when the item is disabled.
pub open spec fn draw_item(
    buf: Seq<u32>,
    width: int,
    height: int,
    it: MenuItemView,
    x0: int,
    y: int,
) -> Seq<u32> {
    let b = draw_text_spec(buf, width, height, it.label, x0 + 8, y + 6, if it.enabled {
        0xFFFFFFFF
    } else {
        0xFF666666
    });
    match it.shortcut {
        Some(sc) => draw_text_spec(b, width, height, sc, shortcut_x(x0, sc), y + 6, if it.enabled {
            0xFF888888
        } else {
            0xFF444444
        }),
        None => b,
    }
}

/// `buf` with the first `n` items of a dropdown drawn, item `i` at row 24 + 20 i.
pub open spec fn draw_items(
    buf: Seq<u32>,
    width: int,
    height: int,
    items: Seq<MenuItemView>,
    x0: int,
    n: int,
) -> Seq<u32>
    decreases n,
{
    if n <= 0 {
        buf
    } else {
        draw_item(
            draw_items(buf, width, height, items, x0, n - 1),
            width,
            height,
            items[n - 1],
            x0,
            24 + 20 * (n - 1),
        )
    }
}

/// `buf` with the dropdown of menu `i` drawn: its background (250 pixels wide, as
/// high as its items but not past the bottom edge), then the items that fit.
pub open spec fn dropdown_spec(
    buf: Seq<u32>,
    width: int,
    height: int,
    i: int,
    menu: SubmenuView,
) -> Seq<u32> {
    let x0 = dropdown_x(i);
    let h = if 20 * menu.items.len() < height - 24 {
        20 * menu.items.len() as int
    } else {
        height - 24
    };
    draw_items(
        fill_rect_spec(buf, width, height, x0, 24, 250, h, 0xFF1A1A2E),
        width,
        height,
        menu.items,
        x0,
        dropdown_item_count(menu.items.len() as int, height),
    )
}

/// The rendered menu bar: nothing when hidden; else the bar, the labels and the
/// dropdown of the open menu.
pub open spec fn menu_bar_spec(
    buf: Seq<u32>,
    width: int,
    height: int,
    menus: Seq<SubmenuView>,
    active: Option<usize>,
    visible: bool,
) -> Seq<u32> {
    if !visible {
        buf
    } else {
        let b = draw_labels(
            top_rows_filled(buf, width, 24, 0xFF2A2A3E),
            width,
            height,
            menus,
            active,
            menus.len() as int,
        );
        match active {
            Some(i) => if i < menus.len() {
                dropdown_spec(b, width, height, i as int, menus[i as int])
            } else {
                b
            },
            None => b,
        }
    }
}

/// A dropdown that can be drawn without arithmetic overflow: it sits below the bar
/// (`height >= 24`), its items' rows fit in a usize, and each shortcut of an item
/// that fits is narrow enough to right-align in the dropdown.
pub open spec fn dropdown_drawable(menu: SubmenuView, i: int, height: int) -> bool {
    &&& height >= 24
    &&& 20 * menu.items.len() + 64 <= usize::MAX
    &&& dropdown_x(i) + 266 <= usize::MAX
    &&& forall|k: int|
        0 <= k < dropdown_item_count(menu.items.len() as int, height) ==> match #[trigger] menu.items[k].shortcut {
            Some(sc) => 8 * vstd::utf8::encode_utf8(sc).len() + 8 <= dropdown_x(i) + 250,
            None => true,
        }
}

/// Screen sizes and menus for which the bar can be drawn without arithmetic
/// overflow.
pub open spec fn menu_bar_drawable(
    width: int,
    height: int,
    menus: Seq<SubmenuView>,
    active: Option<usize>,
) -> bool {
    &&& width * height <= usize::MAX
    &&& 24 * width <= usize::MAX
    &&& width <= usize::MAX - 8
    &&& height <= usize::MAX - 8
    &&& 80 * menus.len() + 8 <= usize::MAX
    &&& match active {
        Some(i) => i < menus.len() ==> dropdown_drawable(menus[i as int], i as int, height),
        None => true,
    }
}

/// Fill the first `rows` rows of a `width`-wide buffer.
fn fill_top_rows(buffer: &mut [u32], width: usize, rows: usize, color: u32)
    requires
        rows * width <= usize::MAX,
    ensures
        final(buffer)@ == top_rows_filled(old(buffer)@, width as int, rows as int, color),
{
    let end = if rows * width < buffer.len() {
        rows * width
    } else {
        buffer.len()
    };
    let ghost b0 = buffer@;
    let mut p: usize = 0;
    while p < end
        invariant
            p <= end,
            end <= b0.len(),
            end == (if rows * width < b0.len() {
                rows * width
            } else {
                b0.len() as int
            }),
            buffer@.len() == b0.len(),
            forall|q: int| 0 <= q < b0.len() ==> #[trigger] buffer@[q] == if q < p {
                color
            } else {
                b0[q]
            },
        decreases end - p,
    {
        buffer[p] = color;
        p += 1;
    }
    assert(buffer@ =~= top_rows_filled(b0, width as int, rows as int, color));
}

impl MenuBar {
    /// Render the menu bar at the top of the buffer
    pub fn render(&self, buffer: &mut [u32], width: usize, height: usize)
        requires
            self.visible ==> menu_bar_drawable(
                width as int,
                height as int,
                menus_view(self.menus@),
                self.active_menu,
            ),
        ensures
            final(buffer)@ == menu_bar_spec(
                old(buffer)@,
                width as int,
                height as int,
                menus_view(self.menus@),
                self.active_menu,
                self.visible,
            ),
    {
        if !self.visible {
            return;
        }
        let ghost menus = menus_view(self.menus@);
        fill_top_rows(buffer, width, MENU_BAR_HEIGHT, 0xFF2A2A3E);
        let ghost b1 = buffer@;
        let mut x_offset: usize = 8;
        let mut i: usize = 0;
        while i < self.menus.len()
            invariant
                i <= self.menus@.len(),
                menus == menus_view(self.menus@),
                x_offset == 8 + 80 * i,
                menu_bar_drawable(width as int, height as int, menus, self.active_menu),
                buffer@ == draw_labels(b1, width as int, height as int, menus, self.active_menu, i as int),
            decreases self.menus@.len() - i,
        {
            let color: u32 = if Some(i) == self.active_menu {
                0xFF16F2B3
            } else {
                0xFFFFFFFF
            };
            assert(menus[i as int].label == self.menus@[i as int].label@);
            draw_text(buffer, width, height, self.menus[i].label.as_str(), x_offset, 8, color);
            x_offset += MENU_ITEM_WIDTH;
            i += 1;
        }
        if let Some(menu_idx) = self.active_menu {
            if menu_idx < self.menus.len() {
                self.render_dropdown(buffer, width, height, menu_idx, &self.menus[menu_idx]);
            }
        }
    }

    /// Draw the dropdown of menu `menu_idx`.
    fn render_dropdown(
        &self,
        buffer: &mut [u32],
        width: usize,
        height: usize,
        menu_idx: usize,
        menu: &Submenu,
    )
        requires
            width * height <= usize::MAX,
            width <= usize::MAX - 8,
            height <= usize::MAX - 8,
            dropdown_drawable(menu@, menu_idx as int, height as int),
        ensures
            final(buffer)@ == dropdown_spec(
                old(buffer)@,
                width as int,
                height as int,
                menu_idx as int,
                menu@,
            ),
    {
        let dropdown_x: usize = 8 + menu_idx * MENU_ITEM_WIDTH;
        let dropdown_y: usize = MENU_BAR_HEIGHT;
        let dropdown_width: usize = 250;
        let item_height: usize = 20;
        let full_height: usize = menu.items.len() * item_height;
        let dropdown_height: usize = if full_height < height - dropdown_y {
            full_height
        } else {
            height - dropdown_y
        };
        fill_rect(buffer, width, height, dropdown_x, dropdown_y, dropdown_width, dropdown_height, 0xFF1A1A2E);
        let ghost b1 = buffer@;
        let ghost items = menu@.items;
        let mut i: usize = 0;
        while i < menu.items.len()
            invariant_except_break
                i <= menu.items@.len(),
                items == menu@.items,
                width * height <= usize::MAX,
                width <= usize::MAX - 8,
                height <= usize::MAX - 8,
                dropdown_drawable(menu@, menu_idx as int, height as int),
                dropdown_x == 8 + 80 * menu_idx,
                dropdown_y == 24,
                item_height == 20,
                dropdown_width == 250,
                i <= dropdown_item_count(items.len() as int, height as int),
                buffer@ == draw_items(b1, width as int, height as int, items, dropdown_x as int, i as int),
            ensures
                buffer@ == draw_items(
                    b1,
                    width as int,
                    height as int,
                    items,
                    dropdown_x as int,
                    dropdown_item_count(items.len() as int, height as int),
                ),
            decreases menu.items@.len() - i,
        {
            assert(20 * i + 64 <= usize::MAX) by (nonlinear_arith)
                requires
                    i < menu.items@.len(),
                    20 * menu.items@.len() + 64 <= usize::MAX,
            ;
            let y = dropdown_y + i * item_height;
            if y + item_height > height {
                assert(dropdown_item_count(items.len() as int, height as int) == i) by {
                    if height >= 44 {
                        assert((height - 44) / 20 + 1 <= i) by (nonlinear_arith)
                            requires
                                24 + 20 * i + 20 > height,
                                height >= 44,
                        ;
                    }
                }
                break;
            }
            assert(i < dropdown_item_count(items.len() as int, height as int)) by {
                assert((height - 44) / 20 + 1 > i) by (nonlinear_arith)
                    requires
                        24 + 20 * i + 20 <= height,
                ;
            }
            let item = &menu.items[i];
            assert(items[i as int] == item@);
            let text_color: u32 = if item.enabled {
                0xFFFFFFFF
            } else {
                0xFF666666
            };
            draw_text(buffer, width, height, item.label.as_str(), dropdown_x + 8, y + 6, text_color);
            match &item.shortcut {
                Some(shortcut) => {
                    assert(items[i as int].shortcut == Some(shortcut@));
                    let blen = shortcut.as_str().len();
                    let right = dropdown_x + dropdown_width - blen * 8 - 8;
                    let sx = if right < dropdown_x + 180 {
                        right
                    } else {
                        dropdown_x + 180
                    };
                    let shortcut_color: u32 = if item.enabled {
                        0xFF888888
                    } else {
                        0xFF444444
                    };
                    draw_text(buffer, width, height, shortcut.as_str(), sx, y + 6, shortcut_color);
                },
                None => {},
            }
            i += 1;
        }
    }

    /// A visible menu bar with no open menu and the initial menus.
    pub fn new() -> (bar: Self)
        ensures
            menus_view(bar.menus@) == initial_menus(),
            bar.active_menu is None,
            bar.visible,
    {
        let mut menus: Vec<Submenu> = Vec::new();

        // File menu
        let file_items = vec![
            new_item("New Project...", MenuAction::NewProject, Some("Ctrl+N"), true),
            new_item("Open ROM...", MenuAction::OpenRom, Some("Ctrl+O"), true),
            new_item("Open Project...", MenuAction::OpenProject, Some("Ctrl+Shift+O"), true),
            new_item("Save Project...", MenuAction::SaveProject, Some("Ctrl+S"), false),
            new_item("Mount Points...", MenuAction::MountPoints, None, false),
            new_item("Exit", MenuAction::Exit, Some("Esc"), true),
        ];
        menus.push(Submenu { label: String::from_str("File"), items: file_items });

        // Emulation menu
        let emu_items = vec![
            new_item("Reset", MenuAction::Reset, Some("Ctrl+R"), false),
            new_item("Pause", MenuAction::Pause, Some("Ctrl+P"), false),
            new_item("Resume", MenuAction::Resume, Some("Ctrl+P"), false),
            new_item("Speed: 25%", MenuAction::Speed(SpeedSetting::Percent25), None, false),
            new_item("Speed: 50%", MenuAction::Speed(SpeedSetting::Percent50), None, false),
            new_item("Speed: 100%", MenuAction::Speed(SpeedSetting::Percent100), None, false),
            new_item("Speed: 200%", MenuAction::Speed(SpeedSetting::Percent200), None, false),
            new_item("Speed: 400%", MenuAction::Speed(SpeedSetting::Percent400), None, false),
        ];
        menus.push(Submenu { label: String::from_str("Emulation"), items: emu_items });

        // State menu
        let mut state_items: Vec<MenuItem> = Vec::new();
        let mut i: u8 = 1;
        while i <= 5
            invariant
                1 <= i <= 6,
                state_items@.len() == i - 1,
                forall|k: int|
                    0 <= k < i - 1 ==> #[trigger] state_items@[k]@ == state_menu_items()[k],
            decreases 6 - i,
        {
            state_items.push(
                MenuItem {
                    label: prefixed_number("Save State Slot ", i),
                    action: MenuAction::SaveState(i),
                    shortcut: Some(prefixed_number("Ctrl+", i)),
                    enabled: false,
                },
            );
            i += 1;
        }
        let mut i: u8 = 1;
        while i <= 5
            invariant
                1 <= i <= 6,
                state_items@.len() == 4 + i,
                forall|k: int|
                    0 <= k < 4 + i ==> #[trigger] state_items@[k]@ == state_menu_items()[k],
            decreases 6 - i,
        {
            state_items.push(
                MenuItem {
                    label: prefixed_number("Load State Slot ", i),
                    action: MenuAction::LoadState(i),
                    shortcut: Some(prefixed_number("Ctrl+Shift+", i)),
                    enabled: false,
                },
            );
            i += 1;
        }
        menus.push(Submenu { label: String::from_str("State"), items: state_items });

        // View menu
        let view_items = vec![
            new_item("Take Screenshot", MenuAction::Screenshot, Some("F4"), false),
            new_item("Debug Info", MenuAction::DebugInfo, Some("F10"), true),
            new_item("CRT Filter", MenuAction::CrtFilterToggle, Some("F11"), true),
            new_item("Start Logging", MenuAction::StartLogging, None, true),
            new_item("Stop Logging", MenuAction::StopLogging, None, false),
        ];
        menus.push(Submenu { label: String::from_str("View"), items: view_items });

        // Help menu
        let help_items = vec![
            new_item("Help", MenuAction::Help, Some("F1"), true),
            new_item("About", MenuAction::About, None, true),
        ];
        menus.push(Submenu { label: String::from_str("Help"), items: help_items });

        assert(menus_view(menus@) =~= initial_menus()) by {
            assert(menus@[0]@.items =~= initial_menus()[0].items);
            assert(menus@[1]@.items =~= initial_menus()[1].items);
            assert(menus@[2]@.items =~= initial_menus()[2].items);
            assert(menus@[3]@.items =~= initial_menus()[3].items);
            assert(menus@[4]@.items =~= initial_menus()[4].items);
        }
        MenuBar { menus, active_menu: None, visible: true }
    }

    /// Toggle menu visibility
    pub fn toggle(&mut self)
        ensures
            final(self).visible == !old(self).visible,
            final(self).menus == old(self).menus,
            final(self).active_menu == old(self).active_menu,
    {
        self.visible = !self.visible;
    }

    /// Check if menu bar is visible
    pub fn is_visible(&self) -> (v: bool)
        ensures
            v == self.visible,
    {
        self.visible
    }

    /// Get the height of the menu bar when visible
    pub fn height(&self) -> (h: usize)
        ensures
            h == if self.visible {
                24usize
            } else {
                0usize
            },
    {
        if self.visible {
            MENU_BAR_HEIGHT
        } else {
            0
        }
    }

    /// Handle mouse click - returns action if a menu item was clicked
    pub fn handle_click(&mut self, x: usize, y: usize) -> (action: Option<MenuAction>)
        requires
            menu_count_ok(old(self).menus@.len() as int),
        ensures
            (final(self).active_menu, action) == spec_click(
                menus_view(old(self).menus@),
                old(self).active_menu,
                old(self).visible,
                x as int,
                y as int,
            ),
            final(self).menus == old(self).menus,
            final(self).visible == old(self).visible,
    {
        if !self.visible {
            return None;
        }
        // Check if click is in menu bar
        if y < MENU_BAR_HEIGHT {
            let menu_idx = x / MENU_ITEM_WIDTH;
            if menu_idx < self.menus.len() {
                if self.active_menu == Some(menu_idx) {
                    // Clicking the same menu closes it
                    self.active_menu = None;
                } else {
                    // Open the clicked menu
                    self.active_menu = Some(menu_idx);
                }
            }
            return None;
        }
        // Check if click is in dropdown
        if let Some(menu_idx) = self.active_menu {
            if menu_idx < self.menus.len() {
                let dropdown_x = 8 + menu_idx * MENU_ITEM_WIDTH;
                let dropdown_y = MENU_BAR_HEIGHT;
                let dropdown_width: usize = 250;
                let item_height: usize = 20;
                if x >= dropdown_x && x < dropdown_x + dropdown_width && y >= dropdown_y {
                    let item_idx = (y - dropdown_y) / item_height;
                    if item_idx < self.menus[menu_idx].items.len() {
                        // Only return action if item is enabled
                        if self.menus[menu_idx].items[item_idx].enabled {
                            let action = self.menus[menu_idx].items[item_idx].action;
                            // Close menu after selection
                            self.active_menu = None;
                            return Some(action);
                        }
                    }
                }
            }
        }
        // Click outside menu - close any open dropdown
        self.active_menu = None;
        None
    }

    /// Update menu state based on system status
    pub fn update_menu_state(
        &mut self,
        rom_loaded: bool,
        paused: bool,
        supports_save_states: bool,
        logging_active: bool,
    )
        ensures
            menus_view(final(self).menus@) == spec_update_menus(
                menus_view(old(self).menus@),
                rom_loaded,
                paused,
                supports_save_states,
                logging_active,
            ),
            final(self).active_menu == old(self).active_menu,
            final(self).visible == old(self).visible,
    {
        let ghost target = spec_update_menus(
            menus_view(self.menus@),
            rom_loaded,
            paused,
            supports_save_states,
            logging_active,
        );
        let mut m: usize = 0;
        while m < 4 && m < self.menus.len()
            invariant
                m <= 4,
                self.menus@.len() == old(self).menus@.len(),
                self.active_menu == old(self).active_menu,
                self.visible == old(self).visible,
                target == spec_update_menus(
                    menus_view(old(self).menus@),
                    rom_loaded,
                    paused,
                    supports_save_states,
                    logging_active,
                ),
                forall|k: int| 0 <= k < m && k < self.menus@.len() ==> #[trigger] self.menus@[k]@ == target[k],
                forall|k: int| m <= k < self.menus@.len() ==> #[trigger] self.menus@[k] == old(self).menus@[k],
            decreases 4 - m,
        {
            let n = self.menus[m].items.len();
            assert(self.menus@[m as int] == old(self).menus@[m as int]);
            let mut i: usize = 0;
            while i < n
                invariant
                    m < 4,
                    m < self.menus@.len(),
                    i <= n,
                    n == self.menus@[m as int].items@.len(),
                    n == old(self).menus@[m as int].items@.len(),
                    self.menus@.len() == old(self).menus@.len(),
                    self.active_menu == old(self).active_menu,
                    self.visible == old(self).visible,
                    target == spec_update_menus(
                        menus_view(old(self).menus@),
                        rom_loaded,
                        paused,
                        supports_save_states,
                        logging_active,
                    ),
                    self.menus@[m as int].label == old(self).menus@[m as int].label,
                    forall|k: int| 0 <= k < m ==> #[trigger] self.menus@[k]@ == target[k],
                    forall|k: int| m < k < self.menus@.len() ==> #[trigger] self.menus@[k] == old(self).menus@[k],
                    forall|j: int|
                        0 <= j < i ==> #[trigger] self.menus@[m as int].items@[j]@ == target[m as int].items[j],
                    forall|j: int|
                        i <= j < n ==> #[trigger] self.menus@[m as int].items@[j] == old(self).menus@[m as int].items@[j],
                decreases n - i,
            {
                let action = self.menus[m].items[i].action;
                let enabled = self.menus[m].items[i].enabled;
                let new_enabled = match action {
                    MenuAction::SaveProject | MenuAction::MountPoints => if m == 0 {
                        rom_loaded
                    } else {
                        enabled
                    },
                    MenuAction::Reset | MenuAction::Speed(_) => if m == 1 {
                        rom_loaded
                    } else {
                        enabled
                    },
                    MenuAction::Pause => if m == 1 {
                        rom_loaded && !paused
                    } else {
                        enabled
                    },
                    MenuAction::Resume => if m == 1 {
                        rom_loaded && paused
                    } else {
                        enabled
                    },
                    MenuAction::SaveState(_) | MenuAction::LoadState(_) => if m == 2 {
                        rom_loaded && supports_save_states
                    } else {
                        enabled
                    },
                    MenuAction::Screenshot => if m == 3 {
                        rom_loaded
                    } else {
                        enabled
                    },
                    MenuAction::StartLogging => if m == 3 {
                        !logging_active
                    } else {
                        enabled
                    },
                    MenuAction::StopLogging => if m == 3 {
                        logging_active
                    } else {
                        enabled
                    },
                    _ => enabled,
                };
                proof {
                    let old_menu = old(self).menus@[m as int];
                    assert(menus_view(old(self).menus@)[m as int] == old_menu@);
                    assert(old_menu@.items[i as int] == old_menu.items@[i as int]@);
                    assert(self.menus@[m as int].items@[i as int] == old_menu.items@[i as int]);
                    assert(new_enabled == target[m as int].items[i as int].enabled);
                }
                self.menus[m].items[i].enabled = new_enabled;
                i += 1;
            }
            assert(self.menus@[m as int]@ =~= target[m as int]) by {
                assert(self.menus@[m as int]@.items =~= target[m as int].items);
            }
            m += 1;
        }
        assert(menus_view(self.menus@) =~= target) by {
            assert forall|k: int| 0 <= k < self.menus@.len() implies menus_view(self.menus@)[k] == target[k] by {
                if k >= 4 {
                    assert(self.menus@[k]@.items =~= target[k].items);
                }
            }
        }
    }
}

/// Two clicks on the same menu label of a bar with no open menu leave it with no
/// open menu (the first opens the menu, the second closes it).
pub proof fn lemma_label_click_twice_closes(menus: Seq<SubmenuView>, x: int, y: int)
    requires
        0 <= x,
        y < 24,
        x / 80 < menus.len(),
    ensures
        spec_click(menus, spec_click(menus, None, true, x, y).0, true, x, y).0 is None,
{
}

/// On a hidden bar a click changes nothing and returns nothing.
pub proof fn lemma_hidden_click_inert(
    menus: Seq<SubmenuView>,
    active: Option<usize>,
    x: int,
    y: int,
)
    ensures
        spec_click(menus, active, false, x, y) == (active, None::<MenuAction>),
{
}

/// A click returns an action only where it hits an enabled item of the open
/// menu, and the action is that item's.
pub proof fn lemma_click_returns_enabled_item(
    menus: Seq<SubmenuView>,
    active: Option<usize>,
    visible: bool,
    x: int,
    y: int,
)
    ensures
        spec_click(menus, active, visible, x, y).1 matches Some(a) ==> {
            &&& visible
            &&& y >= 24
            &&& active matches Some(m)
            &&& m < menus.len()
            &&& (y - 24) / 20 < menus[m as int].items.len()
            &&& menus[m as int].items[(y - 24) / 20].enabled
            &&& menus[m as int].items[(y - 24) / 20].action == a
            &&& spec_click(menus, active, visible, x, y).0 is None
        },
{
}

/// The state update is idempotent: applying it twice with the same status gives
/// the same menus as applying it once.
pub proof fn lemma_update_idempotent(
    menus: Seq<SubmenuView>,
    rom_loaded: bool,
    paused: bool,
    supports_save_states: bool,
    logging_active: bool,
)
    ensures
        spec_update_menus(
            spec_update_menus(menus, rom_loaded, paused, supports_save_states, logging_active),
            rom_loaded,
            paused,
            supports_save_states,
            logging_active,
        ) == spec_update_menus(menus, rom_loaded, paused, supports_save_states, logging_active),
{
    let once = spec_update_menus(menus, rom_loaded, paused, supports_save_states, logging_active);
    let twice = spec_update_menus(once, rom_loaded, paused, supports_save_states, logging_active);
    assert forall|m: int| 0 <= m < menus.len() implies twice[m] == once[m] by {
        assert(twice[m].items =~= once[m].items);
    }
    assert(twice =~= once);
}

/// The state update keeps every menu's label and every item's label, action and
/// shortcut.
pub proof fn lemma_update_keeps_layout(
    menus: Seq<SubmenuView>,
    rom_loaded: bool,
    paused: bool,
    supports_save_states: bool,
    logging_active: bool,
)
    ensures
        ({
            let after = spec_update_menus(
                menus,
                rom_loaded,
                paused,
                supports_save_states,
                logging_active,
            );
            &&& after.len() == menus.len()
            &&& forall|m: int|
                0 <= m < menus.len() ==> {
                    &&& (#[trigger] after[m]).label == menus[m].label
                    &&& after[m].items.len() == menus[m].items.len()
                    &&& forall|i: int|
                        0 <= i < menus[m].items.len() ==> {
                            &&& (#[trigger] after[m].items[i]).label == menus[m].items[i].label
                            &&& after[m].items[i].action == menus[m].items[i].action
                            &&& after[m].items[i].shortcut == menus[m].items[i].shortcut
                        }
                }
        }),
{
}

/// Whether an item with action `a` is enabled after the state update, where each
/// action sits in its own menu as in a new bar: loading a ROM enables the project,
/// mount, reset, speed and screenshot items; Pause and Resume follow the pause
/// state; the save-state items also need save-state support; the logging items
/// follow the logging state; every other item keeps `old`.
pub open spec fn action_enabled(
    a: MenuAction,
    old: bool,
    rom_loaded: bool,
    paused: bool,
    supports_save_states: bool,
    logging_active: bool,
) -> bool {
    match a {
        MenuAction::SaveProject | MenuAction::MountPoints | MenuAction::Reset | MenuAction::Speed(_)
        | MenuAction::Screenshot => rom_loaded,
        MenuAction::Pause => rom_loaded && !paused,
        MenuAction::Resume => rom_loaded && paused,
        MenuAction::SaveState(_) | MenuAction::LoadState(_) => rom_loaded && supports_save_states,
        MenuAction::StartLogging => !logging_active,
        MenuAction::StopLogging => logging_active,
        _ => old,
    }
}

/// On the menus of a new bar, the state update sets every item's enabled flag by
/// its action alone (see `action_enabled`).
pub proof fn lemma_new_layout_update_rules(
    rom_loaded: bool,
    paused: bool,
    supports_save_states: bool,
    logging_active: bool,
    m: int,
    i: int,
)
    requires
        0 <= m < initial_menus().len(),
        0 <= i < initial_menus()[m].items.len(),
    ensures
        spec_update_menus(
            initial_menus(),
            rom_loaded,
            paused,
            supports_save_states,
            logging_active,
        )[m].items[i].enabled == action_enabled(
            initial_menus()[m].items[i].action,
            initial_menus()[m].items[i].enabled,
            rom_loaded,
            paused,
            supports_save_states,
            logging_active,
        ),
{
    let menus = initial_menus();
    if m == 2 {
        assert(menus[2].items == state_menu_items());
        if i < 5 {
            assert(state_menu_items()[i].action == MenuAction::SaveState((i + 1) as u8));
        } else {
            assert(state_menu_items()[i].action == MenuAction::LoadState((i - 5 + 1) as u8));
        }
    }
}

} // verus!

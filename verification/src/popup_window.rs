//! Popup window system for debug tools, help, and other UI elements
//!
//! This module provides a framework for managing popup windows within the main application window.
//! Each popup window is rendered as an overlay with its own event handling and content.
use vstd::prelude::*;
use vstd::string::*;

use crate::debug_dump::{append_hex_padded, hex_padded};
use crate::settings::{InputConfig, Settings};
use crate::ui_render::{
    draw_column,
    draw_column_spec,
    draw_text,
    draw_text_spec,
    dpad_help_line,
    dpad_help_line_exec,
    fill_rect,
    fill_rect_spec,
    filled,
    key_help_line,
    key_help_line_exec,
    new_buffer,
    overlay_size_ok,
    str_views,
};

verus! {

/// Popup window identifier
#[derive(Debug, Clone, Copy, PartialEq, Eq, Hash, Structural)]
pub enum PopupWindowId {
    Debug,
    Help,
}

/// Tab identifier for debug window
#[derive(Debug, Clone, Copy, PartialEq, Eq, Structural)]
pub enum DebugTab {
    Logs,
    Memory,
    Graphics,
    Cpu,
    BusInterrupts,
}

/// The label shown on a tab.
pub open spec fn tab_label(t: DebugTab) -> Seq<char> {
    match t {
        DebugTab::Logs => "Logs"@,
        DebugTab::Memory => "Memory"@,
        DebugTab::Graphics => "Graphics"@,
        DebugTab::Cpu => "CPU"@,
        DebugTab::BusInterrupts => "Bus/IRQ"@,
    }
}

/// The tabs in display order.
pub open spec fn all_tabs() -> Seq<DebugTab> {
    seq![
        DebugTab::Logs,
        DebugTab::Memory,
        DebugTab::Graphics,
        DebugTab::Cpu,
        DebugTab::BusInterrupts,
    ]
}

impl DebugTab {
    /// The label shown on the tab.
    pub fn label(&self) -> (s: &'static str)
        ensures
            s@ == tab_label(*self),
    {
        match self {
            DebugTab::Logs => "Logs",
            DebugTab::Memory => "Memory",
            DebugTab::Graphics => "Graphics",
            DebugTab::Cpu => "CPU",
            DebugTab::BusInterrupts => "Bus/IRQ",
        }
    }

    /// All tabs, in display order.
    pub fn all() -> (tabs: [DebugTab; 5])
        ensures
            tabs@ == all_tabs(),
    {
        let tabs = [
            DebugTab::Logs,
            DebugTab::Memory,
            DebugTab::Graphics,
            DebugTab::Cpu,
            DebugTab::BusInterrupts,
        ];
        assert(tabs@ =~= all_tabs());
        tabs
    }
}

/// Debug window state
#[derive(Debug)]
pub struct DebugWindow {
    pub active_tab: DebugTab,
    pub log_level: String,
    pub log_scope: String,
    pub memory_address: usize,
    pub scroll_offset: usize,
}

/// A freshly opened debug window: CPU tab, log level "info", scope "all", at address 0.
pub open spec fn is_fresh_debug_window(w: DebugWindow) -> bool {
    &&& w.active_tab == DebugTab::Cpu
    &&& w.log_level@ == "info"@
    &&& w.log_scope@ == "all"@
    &&& w.memory_address == 0
    &&& w.scroll_offset == 0
}

impl DebugWindow {
    /// A debug window on the CPU tab.
    pub fn new() -> (w: Self)
        ensures
            is_fresh_debug_window(w),
    {
        DebugWindow {
            active_tab: DebugTab::Cpu,
            log_level: String::from_str("info"),
            log_scope: String::from_str("all"),
            memory_address: 0,
            scroll_offset: 0,
        }
    }
}

/// The number of info lines a debug tab shows: the first always, then each next
/// one while a 12-pixel line still fits above the bottom edge.
pub open spec fn tab_line_count(n: int, y0: int, height: int) -> int {
    if n == 0 {
        0
    } else if y0 + 24 > height {
        1
    } else {
        let fit = (height - y0 - 12) / 12 + 1;
        if n < fit {
            n
        } else {
            fit
        }
    }
}

/// A debug tab: the info lines from (`x + 10`, `y`), 12 pixels apart, or the
/// given message in grey where there is no info.
pub open spec fn info_tab_spec(
    buf: Seq<u32>,
    width: int,
    height: int,
    x: int,
    y: int,
    lines: Option<Seq<Seq<char>>>,
    missing: Seq<char>,
) -> Seq<u32> {
    match lines {
        Some(ls) => draw_column_spec(
            buf,
            width,
            height,
            ls,
            x + 10,
            y,
            12,
            0xFFEBDBB2,
            tab_line_count(ls.len() as int, y, height),
        ),
        None => draw_text_spec(buf, width, height, missing, x + 10, y, 0xFF928374),
    }
}

/// The views of optional info lines.
pub open spec fn opt_lines(lines: Option<&[&str]>) -> Option<Seq<Seq<char>>> {
    match lines {
        Some(ls) => Some(str_views(ls@)),
        None => None,
    }
}

/// Sizes and positions at which a debug tab can be drawn without overflow.
pub open spec fn tab_drawable(width: int, height: int, x: int, y: int) -> bool {
    &&& width * height <= usize::MAX
    &&& width <= usize::MAX - 8
    &&& x + 18 <= usize::MAX
    &&& height + 32 <= usize::MAX
    &&& y + 32 <= usize::MAX
}

#[allow(clippy::too_many_arguments)]
fn render_info_lines(
    buffer: &mut [u32],
    width: usize,
    height: usize,
    x_offset: usize,
    y_offset: usize,
    lines: Option<&[&str]>,
    missing: &str,
)
    requires
        tab_drawable(width as int, height as int, x_offset as int, y_offset as int),
    ensures
        final(buffer)@ == info_tab_spec(
            old(buffer)@,
            width as int,
            height as int,
            x_offset as int,
            y_offset as int,
            opt_lines(lines),
            missing@,
        ),
{
    match lines {
        Some(ls) => {
            let ghost n = ls@.len() as int;
            let ghost count = tab_line_count(n, y_offset as int, height as int);
            let mut k: usize = 0;
            let mut y = y_offset;
            let mut stop = false;
            while k < ls.len() && !stop
                invariant
                    k <= ls@.len(),
                    n == ls@.len(),
                    count == tab_line_count(n, y_offset as int, height as int),
                    y == y_offset + 12 * k,
                    tab_drawable(width as int, height as int, x_offset as int, y_offset as int),
                    !stop ==> (k == 0 || y_offset + 12 * k + 12 <= height),
                    stop ==> k == count,
                    !stop ==> k <= count,
                    buffer@ == draw_column_spec(
                        old(buffer)@,
                        width as int,
                        height as int,
                        str_views(ls@),
                        x_offset + 10,
                        y_offset as int,
                        12,
                        0xFFEBDBB2,
                        k as int,
                    ),
                decreases ls@.len() - k,
            {
                assert(k < count) by {
                    if k > 0 {
                        assert((height - y_offset - 12) / 12 + 1 > k) by (nonlinear_arith)
                            requires
                                y_offset + 12 * k + 12 <= height,
                        ;
                    }
                }
                assert(str_views(ls@)[k as int] == ls@[k as int]@);
                draw_text(buffer, width, height, ls[k], x_offset + 10, y, 0xFFEBDBB2);
                y += 12;
                k += 1;
                if y + 12 > height {
                    assert(count == k) by {
                        if y_offset + 24 <= height {
                            assert((height - y_offset - 12) / 12 + 1 <= k) by (nonlinear_arith)
                                requires
                                    y_offset + 12 * k + 12 > height,
                                    y_offset + 24 <= height,
                            ;
                        }
                    }
                    stop = true;
                }
            }
            assert(k == count) by {
                if !stop && k > 0 {
                    assert((height - y_offset - 12) / 12 + 1 >= k) by (nonlinear_arith)
                        requires
                            y_offset + 12 * k + 12 <= height,
                    ;
                }
            }
        },
        None => {
            draw_text(buffer, width, height, missing, x_offset + 10, y_offset, 0xFF928374);
        },
    }
}

/// The memory tab's line: the address being viewed, in hex.
pub open spec fn memory_tab_line(address: usize) -> Seq<char> {
    "Memory View - Address: $"@ + hex_padded(address as nat, 4)
}

/// The log tab's line: the level and scope of the log filter.
pub open spec fn logs_tab_line(level: Seq<char>, scope: Seq<char>) -> Seq<char> {
    "Log Viewer - Level: "@ + level + " Scope: "@ + scope
}

impl DebugWindow {
    /// Draw the CPU tab: the system's CPU lines, or a note that there are none.
    #[allow(clippy::too_many_arguments)]
    pub fn render_cpu_tab(
        &self,
        buffer: &mut [u32],
        width: usize,
        height: usize,
        x_offset: usize,
        y_offset: usize,
        _win_width: usize,
        cpu_lines: Option<&[&str]>,
    )
        requires
            tab_drawable(width as int, height as int, x_offset as int, y_offset as int),
        ensures
            final(buffer)@ == info_tab_spec(
                old(buffer)@,
                width as int,
                height as int,
                x_offset as int,
                y_offset as int,
                opt_lines(cpu_lines),
                "No debug info available"@,
            ),
    {
        render_info_lines(buffer, width, height, x_offset, y_offset, cpu_lines, "No debug info available");
    }

    /// Draw the memory tab: the address being viewed.
    #[allow(clippy::too_many_arguments)]
    pub fn render_memory_tab(
        &self,
        buffer: &mut [u32],
        width: usize,
        height: usize,
        x_offset: usize,
        y_offset: usize,
        _win_width: usize,
    )
        requires
            tab_drawable(width as int, height as int, x_offset as int, y_offset as int),
        ensures
            final(buffer)@ == draw_text_spec(
                old(buffer)@,
                width as int,
                height as int,
                memory_tab_line(self.memory_address),
                x_offset + 10,
                y_offset as int,
                0xFFEBDBB2,
            ),
    {
        let mut text = String::from_str("Memory View - Address: $");
        append_hex_padded(&mut text, self.memory_address as u64, 4);
        draw_text(buffer, width, height, text.as_str(), x_offset + 10, y_offset, 0xFFEBDBB2);
    }

    /// Draw the graphics tab: the system's graphics lines, or a note that there are
    /// none.
    #[allow(clippy::too_many_arguments)]
    pub fn render_graphics_tab(
        &self,
        buffer: &mut [u32],
        width: usize,
        height: usize,
        x_offset: usize,
        y_offset: usize,
        _win_width: usize,
        graphics_lines: Option<&[&str]>,
    )
        requires
            tab_drawable(width as int, height as int, x_offset as int, y_offset as int),
        ensures
            final(buffer)@ == info_tab_spec(
                old(buffer)@,
                width as int,
                height as int,
                x_offset as int,
                y_offset as int,
                opt_lines(graphics_lines),
                "No graphics debug info available"@,
            ),
    {
        render_info_lines(
            buffer,
            width,
            height,
            x_offset,
            y_offset,
            graphics_lines,
            "No graphics debug info available",
        );
    }

    /// Draw the logs tab: the level and scope of the log filter.
    #[allow(clippy::too_many_arguments)]
    pub fn render_logs_tab(
        &self,
        buffer: &mut [u32],
        width: usize,
        height: usize,
        x_offset: usize,
        y_offset: usize,
        _win_width: usize,
    )
        requires
            tab_drawable(width as int, height as int, x_offset as int, y_offset as int),
        ensures
            final(buffer)@ == draw_text_spec(
                old(buffer)@,
                width as int,
                height as int,
                logs_tab_line(self.log_level@, self.log_scope@),
                x_offset + 10,
                y_offset as int,
                0xFFEBDBB2,
            ),
    {
        let mut text = String::from_str("Log Viewer - Level: ");
        text.append(self.log_level.as_str());
        text.append(" Scope: ");
        text.append(self.log_scope.as_str());
        draw_text(buffer, width, height, text.as_str(), x_offset + 10, y_offset, 0xFFEBDBB2);
    }

    /// Draw the bus/interrupt tab: the system's bus lines, or a note that there are
    /// none.
    #[allow(clippy::too_many_arguments)]
    pub fn render_bus_tab(
        &self,
        buffer: &mut [u32],
        width: usize,
        height: usize,
        x_offset: usize,
        y_offset: usize,
        _win_width: usize,
        bus_lines: Option<&[&str]>,
    )
        requires
            tab_drawable(width as int, height as int, x_offset as int, y_offset as int),
        ensures
            final(buffer)@ == info_tab_spec(
                old(buffer)@,
                width as int,
                height as int,
                x_offset as int,
                y_offset as int,
                opt_lines(bus_lines),
                "No bus/interrupt debug info available"@,
            ),
    {
        render_info_lines(
            buffer,
            width,
            height,
            x_offset,
            y_offset,
            bus_lines,
            "No bus/interrupt debug info available",
        );
    }
}

/// The colour of a tab's background: lighter for the active tab.
pub open spec fn tab_color(active: bool) -> u32 {
    if active {
        0xFF3C3836
    } else {
        0xFF282828
    }
}

/// The colour of a tab's label: brighter for the active tab.
pub open spec fn tab_label_color(active: bool) -> u32 {
    if active {
        0xFFEBDBB2
    } else {
        0xFF928374
    }
}

/// `buf` with the first `n` tabs drawn side by side from (`x0`, `y`), each
/// `tab_w` wide and 25 high, with its label.
pub open spec fn draw_tabs(
    buf: Seq<u32>,
    width: int,
    height: int,
    x0: int,
    y: int,
    tab_w: int,
    active: DebugTab,
    n: int,
) -> Seq<u32>
    decreases n,
{
    if n <= 0 {
        buf
    } else {
        let i = n - 1;
        let tab = all_tabs()[i];
        let x = x0 + i * tab_w;
        let b = draw_tabs(buf, width, height, x0, y, tab_w, active, n - 1);
        let b1 = fill_rect_spec(b, width, height, x, y, tab_w, 25, tab_color(tab == active));
        draw_text_spec(b1, width, height, tab_label(tab), x + 10, y + 8, tab_label_color(tab == active))
    }
}

/// The debug window: a dimmed screen, the window (at most 800 by 600, centred)
/// with its title bar, title and tabs, and the content of the active tab.
pub open spec fn debug_window_spec(
    w: DebugWindow,
    width: int,
    height: int,
    cpu: Option<Seq<Seq<char>>>,
    graphics: Option<Seq<Seq<char>>>,
    bus: Option<Seq<Seq<char>>>,
) -> Seq<u32> {
    let win_w = min_int(width, 800);
    let win_h = min_int(height, 600);
    let x0 = (width - win_w) / 2;
    let y0 = (height - win_h) / 2;
    let b0 = filled(width * height, 0x80000000);
    let b1 = fill_rect_spec(b0, width, height, x0, y0, win_w, win_h, 0xFF1E1E2E);
    let b2 = fill_rect_spec(b1, width, height, x0, y0, win_w, 30, 0xFF282828);
    let b3 = draw_text_spec(b2, width, height, "Debug Window"@, x0 + 10, y0 + 11, 0xFFEBDBB2);
    let b4 = draw_tabs(b3, width, height, x0, y0 + 30, win_w / 5, w.active_tab, 5);
    let cy = y0 + 65;
    match w.active_tab {
        DebugTab::Cpu => info_tab_spec(b4, width, height, x0, cy, cpu, "No debug info available"@),
        DebugTab::Memory => draw_text_spec(
            b4,
            width,
            height,
            memory_tab_line(w.memory_address),
            x0 + 10,
            cy,
            0xFFEBDBB2,
        ),
        DebugTab::Graphics => info_tab_spec(
            b4,
            width,
            height,
            x0,
            cy,
            graphics,
            "No graphics debug info available"@,
        ),
        DebugTab::Logs => draw_text_spec(
            b4,
            width,
            height,
            logs_tab_line(w.log_level@, w.log_scope@),
            x0 + 10,
            cy,
            0xFFEBDBB2,
        ),
        DebugTab::BusInterrupts => info_tab_spec(
            b4,
            width,
            height,
            x0,
            cy,
            bus,
            "No bus/interrupt debug info available"@,
        ),
    }
}

impl DebugWindow {
    /// Render the debug window content. The info lines are what the system's
    /// debug information gives for the CPU, graphics and bus/interrupt tabs (None
    /// where the system has none).
    #[allow(clippy::too_many_arguments)]
    pub fn render(
        &self,
        width: usize,
        height: usize,
        cpu_lines: Option<&[&str]>,
        graphics_lines: Option<&[&str]>,
        bus_lines: Option<&[&str]>,
        _video_backend: &str,
    ) -> (buffer: Vec<u32>)
        requires
            overlay_size_ok(width as int, height as int),
            height + 1024 <= usize::MAX,
            width + 1024 <= usize::MAX,
        ensures
            buffer@ == debug_window_spec(
                *self,
                width as int,
                height as int,
                opt_lines(cpu_lines),
                opt_lines(graphics_lines),
                opt_lines(bus_lines),
            ),
    {
        let win_width: usize = if width < 800 {
            width
        } else {
            800
        };
        let win_height: usize = if height < 600 {
            height
        } else {
            600
        };
        let x_offset = (width - win_width) / 2;
        let y_offset = (height - win_height) / 2;
        let mut buffer = new_buffer(width * height, 0x80000000);
        fill_rect(buffer.as_mut_slice(), width, height, x_offset, y_offset, win_width, win_height, 0xFF1E1E2E);
        let title_height: usize = 30;
        fill_rect(buffer.as_mut_slice(), width, height, x_offset, y_offset, win_width, title_height, 0xFF282828);
        draw_text(buffer.as_mut_slice(), width, height, "Debug Window", x_offset + 10, y_offset + 11, 0xFFEBDBB2);
        let tab_y = y_offset + title_height;
        let tab_height: usize = 25;
        let tabs = DebugTab::all();
        let tab_width = win_width / 5;
        let ghost b3 = buffer@;
        let mut i: usize = 0;
        while i < 5
            invariant
                i <= 5,
                tabs@ == all_tabs(),
                tab_width == win_width / 5,
                win_width <= 800,
                tab_y == y_offset + 30,
                tab_height == 25,
                x_offset <= width,
                y_offset <= height,
                overlay_size_ok(width as int, height as int),
                height + 1024 <= usize::MAX,
                width + 1024 <= usize::MAX,
                x_offset + 1024 <= usize::MAX,
                buffer@ == draw_tabs(
                    b3,
                    width as int,
                    height as int,
                    x_offset as int,
                    tab_y as int,
                    tab_width as int,
                    self.active_tab,
                    i as int,
                ),
            decreases 5 - i,
        {
            assert(i * tab_width <= 800) by (nonlinear_arith)
                requires
                    i < 5,
                    tab_width * 5 <= 800,
            ;
            let tab_x = x_offset + i * tab_width;
            let tab = tabs[i];
            let is_active = tab == self.active_tab;
            let color: u32 = if is_active {
                0xFF3C3836
            } else {
                0xFF282828
            };
            fill_rect(buffer.as_mut_slice(), width, height, tab_x, tab_y, tab_width, tab_height, color);
            let label_color: u32 = if is_active {
                0xFFEBDBB2
            } else {
                0xFF928374
            };
            draw_text(buffer.as_mut_slice(), width, height, tab.label(), tab_x + 10, tab_y + 8, label_color);
            i += 1;
        }
        let content_y = tab_y + tab_height + 10;
        match self.active_tab {
            DebugTab::Cpu => {
                self.render_cpu_tab(buffer.as_mut_slice(), width, height, x_offset, content_y, win_width, cpu_lines);
            },
            DebugTab::Memory => {
                self.render_memory_tab(buffer.as_mut_slice(), width, height, x_offset, content_y, win_width);
            },
            DebugTab::Graphics => {
                self.render_graphics_tab(
                    buffer.as_mut_slice(),
                    width,
                    height,
                    x_offset,
                    content_y,
                    win_width,
                    graphics_lines,
                );
            },
            DebugTab::Logs => {
                self.render_logs_tab(buffer.as_mut_slice(), width, height, x_offset, content_y, win_width);
            },
            DebugTab::BusInterrupts => {
                self.render_bus_tab(buffer.as_mut_slice(), width, height, x_offset, content_y, win_width, bus_lines);
            },
        }
        buffer
    }
}

impl Default for DebugWindow {
    fn default() -> (w: Self)
        ensures
            is_fresh_debug_window(w),
    {
        Self::new()
    }
}

/// Help window state
#[derive(Debug)]
pub struct HelpWindow;

/// The help window's lines: player 1's controls, then the keyboard shortcuts.
pub open spec fn help_window_lines(input: InputConfig) -> Seq<Seq<char>> {
    let p1 = input.player1;
    seq![
        "Player 1 Controller:"@,
        key_help_line(p1.a@, " - A"@),
        key_help_line(p1.b@, " - B"@),
        key_help_line(p1.select@, " - Select"@),
        key_help_line(p1.start@, " - Start"@),
        dpad_help_line(p1),
        ""@,
        "Keyboard Shortcuts:"@,
        "  Ctrl+O     - Open ROM"@,
        "  Ctrl+S     - Save project"@,
        "  Ctrl+R     - Reset system"@,
        "  Ctrl+P     - Pause/Resume"@,
        "  Ctrl+1-5   - Save state (slots 1-5)"@,
        "  Ctrl+Shift+1-5 - Load state (slots 1-5)"@,
        "  F1         - Help (this window)"@,
        "  F4         - Screenshot"@,
        "  F10        - Debug window"@,
        "  F11        - CRT filter"@,
        "  ESC        - Close window/Exit"@,
        ""@,
        "For PC systems: Hold Right Alt for shortcuts"@,
        ""@,
        "Press ESC or F1 to close this window"@,
    ]
}

/// The smaller of `a` and `b`.
pub open spec fn min_int(a: int, b: int) -> int {
    if a < b {
        a
    } else {
        b
    }
}

/// The number of help lines that fit in a window `win_height` pixels high: 12
/// pixels per line from 40 below the top, keeping a 10-pixel bottom margin.
pub open spec fn help_line_count(win_height: int) -> int {
    if win_height >= 62 {
        min_int(23, (win_height - 62) / 12 + 1)
    } else {
        0
    }
}

/// The help window: a dimmed screen, the window (at most 700 by 550, centred)
/// with its title bar and title, and the help lines that fit.
pub open spec fn help_window_spec(width: int, height: int, input: InputConfig) -> Seq<u32> {
    let win_w = min_int(width, 700);
    let win_h = min_int(height, 550);
    let x0 = (width - win_w) / 2;
    let y0 = (height - win_h) / 2;
    let b0 = filled(width * height, 0x80000000);
    let b1 = fill_rect_spec(b0, width, height, x0, y0, win_w, win_h, 0xFF1E1E2E);
    let b2 = fill_rect_spec(b1, width, height, x0, y0, win_w, 30, 0xFF282828);
    let b3 = draw_text_spec(b2, width, height, "Help - HEMULATOR"@, x0 + 10, y0 + 11, 0xFFEBDBB2);
    draw_column_spec(
        b3,
        width,
        height,
        help_window_lines(input),
        x0 + 10,
        y0 + 40,
        12,
        0xFFEBDBB2,
        help_line_count(win_h),
    )
}

impl HelpWindow {
    pub fn new() -> (w: Self) {
        HelpWindow
    }

    /// Render the help window content
    pub fn render(&self, width: usize, height: usize, settings: &Settings) -> (buffer: Vec<u32>)
        requires
            overlay_size_ok(width as int, height as int),
            height >= 10,
            height + 640 <= usize::MAX,
        ensures
            buffer@ == help_window_spec(width as int, height as int, settings.input),
    {
        let win_width: usize = if width < 700 {
            width
        } else {
            700
        };
        let win_height: usize = if height < 550 {
            height
        } else {
            550
        };
        let x_offset = (width - win_width) / 2;
        let y_offset = (height - win_height) / 2;
        let mut buffer = new_buffer(width * height, 0x80000000);
        fill_rect(buffer.as_mut_slice(), width, height, x_offset, y_offset, win_width, win_height, 0xFF1E1E2E);
        let title_height: usize = 30;
        fill_rect(buffer.as_mut_slice(), width, height, x_offset, y_offset, win_width, title_height, 0xFF282828);
        draw_text(
            buffer.as_mut_slice(),
            width,
            height,
            "Help - HEMULATOR",
            x_offset + 10,
            y_offset + 11,
            0xFFEBDBB2,
        );
        let content_y = y_offset + title_height + 10;
        let line_height: usize = 12;
        let p1 = &settings.input.player1;
        let p1_a = key_help_line_exec(&p1.a, " - A");
        let p1_b = key_help_line_exec(&p1.b, " - B");
        let p1_select = key_help_line_exec(&p1.select, " - Select");
        let p1_start = key_help_line_exec(&p1.start, " - Start");
        let p1_dpad = dpad_help_line_exec(p1);
        let help_lines: Vec<&str> = vec![
            "Player 1 Controller:",
            p1_a.as_str(),
            p1_b.as_str(),
            p1_select.as_str(),
            p1_start.as_str(),
            p1_dpad.as_str(),
            "",
            "Keyboard Shortcuts:",
            "  Ctrl+O     - Open ROM",
            "  Ctrl+S     - Save project",
            "  Ctrl+R     - Reset system",
            "  Ctrl+P     - Pause/Resume",
            "  Ctrl+1-5   - Save state (slots 1-5)",
            "  Ctrl+Shift+1-5 - Load state (slots 1-5)",
            "  F1         - Help (this window)",
            "  F4         - Screenshot",
            "  F10        - Debug window",
            "  F11        - CRT filter",
            "  ESC        - Close window/Exit",
            "",
            "For PC systems: Hold Right Alt for shortcuts",
            "",
            "Press ESC or F1 to close this window",
        ];
        assert(str_views(help_lines@) =~= help_window_lines(settings.input));
        // The lines are drawn while a whole line still fits above the 10-pixel
        // bottom margin of the window.
        let bottom = y_offset + win_height - 10;
        let mut count: usize = 0;
        while count < help_lines.len() && content_y + count * line_height + line_height <= bottom
            invariant
                count <= help_lines@.len(),
                help_lines@.len() == 23,
                line_height == 12,
                content_y == y_offset + 40,
                bottom == y_offset + win_height - 10,
                y_offset + 40 + 12 * 23 + 12 <= usize::MAX,
                count == 0 || y_offset + 40 + 12 * (count - 1) + 12 <= bottom,
            decreases help_lines@.len() - count,
        {
            count += 1;
        }
        assert(count == help_line_count(win_height as int)) by {
            if win_height >= 62 {
                if count < 23 {
                    assert((win_height - 62) / 12 + 1 == count) by (nonlinear_arith)
                        requires
                            y_offset + 40 + 12 * count + 12 > y_offset + win_height - 10,
                            count == 0 || y_offset + 40 + 12 * (count - 1) + 12 <= y_offset
                                + win_height - 10,
                            win_height >= 62,
                    ;
                } else {
                    assert((win_height - 62) / 12 + 1 >= 23) by (nonlinear_arith)
                        requires
                            y_offset + 40 + 12 * 22 + 12 <= y_offset + win_height - 10,
                    ;
                }
            } else if count > 0 {
                assert(y_offset + 40 + 12 <= y_offset + win_height - 10);
            }
        }
        draw_column(
            buffer.as_mut_slice(),
            width,
            height,
            help_lines.as_slice(),
            x_offset + 10,
            content_y,
            line_height,
            0xFFEBDBB2,
            count,
        );
        buffer
    }
}

impl Default for HelpWindow {
    fn default() -> (w: Self) {
        Self::new()
    }
}

/// Popup window manager
#[derive(Debug)]
pub struct PopupWindowManager {
    pub debug_window: Option<DebugWindow>,
    pub help_window: Option<HelpWindow>,
}

impl PopupWindowManager {
    /// A manager with no popup open.
    pub fn new() -> (m: Self)
        ensures
            m.debug_window is None,
            m.help_window is None,
    {
        PopupWindowManager { debug_window: None, help_window: None }
    }

    pub fn is_debug_open(&self) -> (b: bool)
        ensures
            b == self.debug_window is Some,
    {
        self.debug_window.is_some()
    }

    pub fn is_help_open(&self) -> (b: bool)
        ensures
            b == self.help_window is Some,
    {
        self.help_window.is_some()
    }

    /// Close the debug window if it is open, else open a fresh one; the help
    /// window is left as it is.
    pub fn toggle_debug(&mut self)
        ensures
            (final(self).debug_window is Some) == (old(self).debug_window is None),
            final(self).debug_window matches Some(w) ==> is_fresh_debug_window(w),
            final(self).help_window == old(self).help_window,
    {
        if self.debug_window.is_some() {
            self.debug_window = None;
        } else {
            self.debug_window = Some(DebugWindow::new());
        }
    }

    /// Close the help window if it is open, else open it; the debug window is left
    /// as it is.
    pub fn toggle_help(&mut self)
        ensures
            (final(self).help_window is Some) == (old(self).help_window is None),
            final(self).debug_window == old(self).debug_window,
    {
        if self.help_window.is_some() {
            self.help_window = None;
        } else {
            self.help_window = Some(HelpWindow::new());
        }
    }

    /// Close every popup.
    pub fn close_all(&mut self)
        ensures
            final(self).debug_window is None,
            final(self).help_window is None,
    {
        self.debug_window = None;
        self.help_window = None;
    }

    /// Returns true if any popup is open
    pub fn has_open_popup(&self) -> (b: bool)
        ensures
            b == (self.debug_window is Some || self.help_window is Some),
    {
        self.debug_window.is_some() || self.help_window.is_some()
    }
}

impl Default for PopupWindowManager {
    fn default() -> (m: Self)
        ensures
            m.debug_window is None,
            m.help_window is None,
    {
        Self::new()
    }
}

/// Unified debug info trait for rendering: the lines that a system shows on the
/// CPU, graphics and bus/interrupt tabs of the debug window.
pub trait DebugInfo {
    fn get_cpu_lines(&self) -> Vec<&str>;

    fn get_graphics_lines(&self) -> Vec<&str>;

    fn get_bus_lines(&self) -> Vec<&str>;
}

} // verus!

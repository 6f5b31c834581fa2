//! Selector popup windows for choosing options
//!
//! This module provides a modular framework for selection dialogs
//! (slot selector, speed selector, disk format selector, etc.)
use vstd::prelude::*;
use vstd::string::*;

use crate::ui_render::{
    draw_column,
    draw_column_spec,
    draw_text,
    draw_text_spec,
    fill_rect,
    fill_rect_spec,
    filled,
    new_buffer,
    overlay_size_ok,
    speed_lines,
    speed_lines_exec,
    str_views,
};

verus! {

/// Selector window type
#[derive(Debug, Clone, Copy, PartialEq, Eq, Structural)]
pub enum SelectorType {
    SaveSlot,
    LoadSlot,
    Speed,
    DiskFormat,
}

/// Generic selector window for choosing from a list of options
#[derive(Debug)]
pub struct SelectorWindow {
    pub selector_type: SelectorType,
    pub selected_index: Option<usize>,
    pub x: usize,
    pub y: usize,
    pub width: usize,
    pub height: usize,
}

/// The key that cancels a selector: ESC.
pub open spec fn is_cancel_key(key: char) -> bool {
    key == '\u{1b}'
}

/// What key `key` does in an open selector of type `t`, as the manager reports it:
/// `Some(Some(i))` selects option `i`, `Some(None)` cancels (ESC), and `None` means
/// the key is not handled.
pub open spec fn key_outcome(t: SelectorType, key: char) -> Option<Option<usize>> {
    if is_cancel_key(key) {
        Some(None)
    } else {
        match key_selection(t, key) {
            Some(i) => Some(Some(i)),
            None => None,
        }
    }
}

/// The option index that key `key` selects in a selector of type `t`, if any:
/// '1'..='5' pick slots 0..=4, '0'..='5' pick speeds 0..=5, and '1'..='9' pick
/// disk formats 0..=8.
pub open spec fn key_selection(t: SelectorType, key: char) -> Option<usize> {
    let code = key as u32 as int;
    match t {
        SelectorType::SaveSlot | SelectorType::LoadSlot => if 49 <= code <= 53 {
            Some((code - 49) as usize)
        } else {
            None
        },
        SelectorType::Speed => if 48 <= code <= 53 {
            Some((code - 48) as usize)
        } else {
            None
        },
        SelectorType::DiskFormat => if 49 <= code <= 57 {
            Some((code - 49) as usize)
        } else {
            None
        },
    }
}

/// A window of type `t` with nothing selected and no placement yet.
pub open spec fn is_fresh_selector(w: SelectorWindow, t: SelectorType) -> bool {
    &&& w.selector_type == t
    &&& w.selected_index is None
    &&& w.x == 0 && w.y == 0 && w.width == 0 && w.height == 0
}

/// The slot lines of the slot selector.
pub open spec fn slot_lines() -> Seq<Seq<char>> {
    seq!["  1 - Slot 1"@, "  2 - Slot 2"@, "  3 - Slot 3"@, "  4 - Slot 4"@, "  5 - Slot 5"@]
}

/// The slot selector drawn from (`x`, `y`): the title naming `mode`, the five
/// slots and the key hint.
pub open spec fn slot_selector_spec(
    buf: Seq<u32>,
    width: int,
    height: int,
    x: int,
    y: int,
    mode: Seq<char>,
) -> Seq<u32> {
    let title = "SELECT SLOT TO "@ + mode + " (1-5)"@;
    let b1 = draw_text_spec(buf, width, height, title, x + 10, y + 10, 0xFFEBDBB2);
    let b2 = draw_column_spec(b1, width, height, slot_lines(), x + 10, y + 34, 12, 0xFFEBDBB2, 5);
    draw_text_spec(
        b2,
        width,
        height,
        "Press 1-5 to select, ESC to cancel"@,
        x + 10,
        y + 106,
        0xFF928374,
    )
}

/// The format lines of the disk format selector.
pub open spec fn disk_format_lines() -> Seq<Seq<char>> {
    seq![
        "1 - 360KB 5.25\" Floppy"@,
        "2 - 720KB 3.5\" Floppy"@,
        "3 - 1.2MB 5.25\" Floppy"@,
        "4 - 1.44MB 3.5\" Floppy"@,
        "5 - 10MB Hard Disk"@,
        "6 - 20MB Hard Disk"@,
    ]
}

/// The disk format selector drawn from (`x`, `y`): the title, the six formats and
/// the key hint.
pub open spec fn disk_format_selector_spec(
    buf: Seq<u32>,
    width: int,
    height: int,
    x: int,
    y: int,
) -> Seq<u32> {
    let b1 = draw_text_spec(buf, width, height, "SELECT DISK FORMAT"@, x + 10, y + 10, 0xFFEBDBB2);
    let b2 = draw_column_spec(
        b1,
        width,
        height,
        disk_format_lines(),
        x + 10,
        y + 34,
        12,
        0xFFEBDBB2,
        6,
    );
    draw_text_spec(
        b2,
        width,
        height,
        "Press number to select, ESC to cancel"@,
        x + 10,
        y + 118,
        0xFF928374,
    )
}

/// The speed selector drawn from (`x`, `y`): the title, the six speeds (the one
/// at `current` marked) and the key hint.
pub open spec fn speed_selector_spec(
    buf: Seq<u32>,
    width: int,
    height: int,
    x: int,
    y: int,
    current: Option<usize>,
) -> Seq<u32> {
    let b1 = draw_text_spec(
        buf,
        width,
        height,
        "EMULATION SPEED - Select (0-5)"@,
        x + 10,
        y + 10,
        0xFFEBDBB2,
    );
    let b2 = draw_column_spec(b1, width, height, speed_lines(current), x + 10, y + 34, 12, 0xFFEBDBB2, 6);
    draw_text_spec(
        b2,
        width,
        height,
        "Press 0-5 to select, ESC to cancel"@,
        x + 10,
        y + 118,
        0xFF928374,
    )
}

/// The smaller of `a` and `b`.
pub open spec fn min_of(a: int, b: int) -> int {
    if a < b {
        a
    } else {
        b
    }
}

/// The selector window: a dimmed screen, the window (at most 500 by 400, centred)
/// and the content of its type.
pub open spec fn selector_window_spec(
    t: SelectorType,
    width: int,
    height: int,
    current: Option<usize>,
) -> Seq<u32> {
    let win_w = min_of(width, 500);
    let win_h = min_of(height, 400);
    let x0 = (width - win_w) / 2;
    let y0 = (height - win_h) / 2;
    let b = fill_rect_spec(filled(width * height, 0xC0000000), width, height, x0, y0, win_w, win_h, 0xFF1E1E2E);
    match t {
        SelectorType::SaveSlot => slot_selector_spec(b, width, height, x0, y0, "SAVE"@),
        SelectorType::LoadSlot => slot_selector_spec(b, width, height, x0, y0, "LOAD"@),
        SelectorType::Speed => speed_selector_spec(b, width, height, x0, y0, current),
        SelectorType::DiskFormat => disk_format_selector_spec(b, width, height, x0, y0),
    }
}

/// Sizes and positions at which a selector's text can be drawn without overflow.
pub open spec fn selector_drawable(width: int, height: int, x: int, y: int) -> bool {
    &&& width * height <= usize::MAX
    &&& width <= usize::MAX - 8
    &&& x + 18 <= usize::MAX
    &&& y + 128 <= usize::MAX
}

impl SelectorWindow {
    /// Draw the slot selector for `mode` ("SAVE" or "LOAD") from (`x_offset`,
    /// `y_offset`).
    #[allow(clippy::too_many_arguments)]
    pub fn render_slot_selector(
        &self,
        buffer: &mut [u32],
        width: usize,
        height: usize,
        x_offset: usize,
        y_offset: usize,
        mode: &str,
    )
        requires
            selector_drawable(width as int, height as int, x_offset as int, y_offset as int),
        ensures
            final(buffer)@ == slot_selector_spec(
                old(buffer)@,
                width as int,
                height as int,
                x_offset as int,
                y_offset as int,
                mode@,
            ),
    {
        let mut title = String::from_str("SELECT SLOT TO ");
        title.append(mode);
        title.append(" (1-5)");
        let line_height: usize = 12;
        let mut y = y_offset + 10;
        draw_text(buffer, width, height, title.as_str(), x_offset + 10, y, 0xFFEBDBB2);
        y += line_height * 2;
        let slots: Vec<&str> = vec![
            "  1 - Slot 1",
            "  2 - Slot 2",
            "  3 - Slot 3",
            "  4 - Slot 4",
            "  5 - Slot 5",
        ];
        assert(str_views(slots@) =~= slot_lines());
        draw_column(buffer, width, height, slots.as_slice(), x_offset + 10, y, line_height, 0xFFEBDBB2, 5);
        y += line_height * 5;
        y += line_height;
        draw_text(
            buffer,
            width,
            height,
            "Press 1-5 to select, ESC to cancel",
            x_offset + 10,
            y,
            0xFF928374,
        );
    }

    /// Render the selector window; `current_speed` is the speed choice that matches
    /// the emulator's speed, if one does. The window's placement is kept for hit
    /// detection.
    pub fn render(&mut self, width: usize, height: usize, current_speed: Option<usize>) -> (buffer: Vec<
        u32,
    >)
        requires
            overlay_size_ok(width as int, height as int),
        ensures
            buffer@ == selector_window_spec(
                old(self).selector_type,
                width as int,
                height as int,
                current_speed,
            ),
            final(self).selector_type == old(self).selector_type,
            final(self).selected_index == old(self).selected_index,
            final(self).width == min_of(width as int, 500),
            final(self).height == min_of(height as int, 400),
            final(self).x == (width - final(self).width) / 2,
            final(self).y == (height - final(self).height) / 2,
    {
        let win_width: usize = if width < 500 {
            width
        } else {
            500
        };
        let win_height: usize = if height < 400 {
            height
        } else {
            400
        };
        let x_offset = (width - win_width) / 2;
        let y_offset = (height - win_height) / 2;
        self.x = x_offset;
        self.y = y_offset;
        self.width = win_width;
        self.height = win_height;
        let mut buffer = new_buffer(width * height, 0xC0000000);
        fill_rect(buffer.as_mut_slice(), width, height, x_offset, y_offset, win_width, win_height, 0xFF1E1E2E);
        match self.selector_type {
            SelectorType::SaveSlot => {
                self.render_slot_selector(buffer.as_mut_slice(), width, height, x_offset, y_offset, "SAVE");
            },
            SelectorType::LoadSlot => {
                self.render_slot_selector(buffer.as_mut_slice(), width, height, x_offset, y_offset, "LOAD");
            },
            SelectorType::Speed => {
                self.render_speed_selector(
                    buffer.as_mut_slice(),
                    width,
                    height,
                    x_offset,
                    y_offset,
                    current_speed,
                );
            },
            SelectorType::DiskFormat => {
                self.render_disk_format_selector(buffer.as_mut_slice(), width, height, x_offset, y_offset);
            },
        }
        buffer
    }

    /// Draw the speed selector from (`x_offset`, `y_offset`), marking the choice
    /// `current_speed`.
    #[allow(clippy::too_many_arguments)]
    pub fn render_speed_selector(
        &self,
        buffer: &mut [u32],
        width: usize,
        height: usize,
        x_offset: usize,
        y_offset: usize,
        current_speed: Option<usize>,
    )
        requires
            selector_drawable(width as int, height as int, x_offset as int, y_offset as int),
        ensures
            final(buffer)@ == speed_selector_spec(
                old(buffer)@,
                width as int,
                height as int,
                x_offset as int,
                y_offset as int,
                current_speed,
            ),
    {
        let line_height: usize = 12;
        let mut y = y_offset + 10;
        draw_text(buffer, width, height, "EMULATION SPEED - Select (0-5)", x_offset + 10, y, 0xFFEBDBB2);
        y += line_height * 2;
        let speeds = speed_lines_exec(current_speed);
        let mut lines: Vec<&str> = Vec::new();
        let mut i: usize = 0;
        assert(speeds@.len() == 6) by {
            assert(speeds@.map_values(|l: String| l@).len() == 6);
        }
        while i < speeds.len()
            invariant
                i <= speeds@.len(),
                speeds@.len() == 6,
                speeds@.map_values(|l: String| l@) == speed_lines(current_speed),
                str_views(lines@) == speed_lines(current_speed).take(i as int),
            decreases speeds@.len() - i,
        {
            let line: &str = speeds[i].as_str();
            assert(speeds@.map_values(|l: String| l@)[i as int] == speeds@[i as int]@);
            let ghost before = str_views(lines@);
            lines.push(line);
            assert(str_views(lines@) =~= before.push(line@));
            i += 1;
            assert(str_views(lines@) =~= speed_lines(current_speed).take(i as int));
        }
        assert(speed_lines(current_speed).take(6) =~= speed_lines(current_speed));
        draw_column(buffer, width, height, lines.as_slice(), x_offset + 10, y, line_height, 0xFFEBDBB2, 6);
        y += line_height * 6;
        y += line_height;
        draw_text(
            buffer,
            width,
            height,
            "Press 0-5 to select, ESC to cancel",
            x_offset + 10,
            y,
            0xFF928374,
        );
    }

    /// Draw the disk format selector from (`x_offset`, `y_offset`).
    pub fn render_disk_format_selector(
        &self,
        buffer: &mut [u32],
        width: usize,
        height: usize,
        x_offset: usize,
        y_offset: usize,
    )
        requires
            selector_drawable(width as int, height as int, x_offset as int, y_offset as int),
        ensures
            final(buffer)@ == disk_format_selector_spec(
                old(buffer)@,
                width as int,
                height as int,
                x_offset as int,
                y_offset as int,
            ),
    {
        let line_height: usize = 12;
        let mut y = y_offset + 10;
        draw_text(buffer, width, height, "SELECT DISK FORMAT", x_offset + 10, y, 0xFFEBDBB2);
        y += line_height * 2;
        let formats: Vec<&str> = vec![
            "1 - 360KB 5.25\" Floppy",
            "2 - 720KB 3.5\" Floppy",
            "3 - 1.2MB 5.25\" Floppy",
            "4 - 1.44MB 3.5\" Floppy",
            "5 - 10MB Hard Disk",
            "6 - 20MB Hard Disk",
        ];
        assert(str_views(formats@) =~= disk_format_lines());
        draw_column(buffer, width, height, formats.as_slice(), x_offset + 10, y, line_height, 0xFFEBDBB2, 6);
        y += line_height * 6;
        y += line_height;
        draw_text(
            buffer,
            width,
            height,
            "Press number to select, ESC to cancel",
            x_offset + 10,
            y,
            0xFF928374,
        );
    }

    pub fn new(selector_type: SelectorType) -> (w: Self)
        ensures
            is_fresh_selector(w, selector_type),
    {
        SelectorWindow { selector_type, selected_index: None, x: 0, y: 0, width: 0, height: 0 }
    }

    /// Handle keyboard input for selector
    /// Returns Some(index) if an option was selected, None if cancelled
    /// (Some(Some(index)) for an option key of this selector; None for any other
    /// key, ESC included: cancelling is the manager's to report)
    pub fn handle_key(&mut self, key: char) -> (r: Option<Option<usize>>)
        ensures
            r == match key_selection(old(self).selector_type, key) {
                Some(i) => Some(Some(i)),
                None => None,
            },
            *final(self) == *old(self),
    {
        let code = key as u32;
        match self.selector_type {
            SelectorType::SaveSlot | SelectorType::LoadSlot => {
                if code >= 49 && code <= 53 {
                    Some(Some((code - 49) as usize))
                } else {
                    None
                }
            },
            SelectorType::Speed => {
                if code >= 48 && code <= 53 {
                    Some(Some((code - 48) as usize))
                } else {
                    None
                }
            },
            SelectorType::DiskFormat => {
                if code >= 49 && code <= 57 {
                    Some(Some((code - 49) as usize))
                } else {
                    None
                }
            },
        }
    }
}

/// Selector manager to handle all selector windows
#[derive(Debug)]
pub struct SelectorManager {
    pub active_selector: Option<SelectorWindow>,
}

/// The manager shows a fresh selector of type `t`.
pub open spec fn shows_fresh(m: SelectorManager, t: SelectorType) -> bool {
    m.active_selector matches Some(w) && is_fresh_selector(w, t)
}

impl SelectorManager {
    /// A manager with no selector open.
    pub fn new() -> (m: Self)
        ensures
            m.active_selector is None,
    {
        SelectorManager { active_selector: None }
    }

    pub fn show_save_slot_selector(&mut self)
        ensures
            shows_fresh(*final(self), SelectorType::SaveSlot),
    {
        self.active_selector = Some(SelectorWindow::new(SelectorType::SaveSlot));
    }

    pub fn show_load_slot_selector(&mut self)
        ensures
            shows_fresh(*final(self), SelectorType::LoadSlot),
    {
        self.active_selector = Some(SelectorWindow::new(SelectorType::LoadSlot));
    }

    pub fn show_speed_selector(&mut self)
        ensures
            shows_fresh(*final(self), SelectorType::Speed),
    {
        self.active_selector = Some(SelectorWindow::new(SelectorType::Speed));
    }

    pub fn show_disk_format_selector(&mut self)
        ensures
            shows_fresh(*final(self), SelectorType::DiskFormat),
    {
        self.active_selector = Some(SelectorWindow::new(SelectorType::DiskFormat));
    }

    /// Close the open selector, if any.
    pub fn close(&mut self)
        ensures
            final(self).active_selector is None,
    {
        self.active_selector = None;
    }

    pub fn is_open(&self) -> (b: bool)
        ensures
            b == self.active_selector is Some,
    {
        self.active_selector.is_some()
    }

    /// Handle keyboard input - returns Some(Some(index)) if selection made,
    /// Some(None) if cancelled, None if key not handled
    pub fn handle_key(&mut self, key: char) -> (r: Option<Option<usize>>)
        ensures
            r == match old(self).active_selector {
                Some(w) => key_outcome(w.selector_type, key),
                None => None,
            },
            *final(self) == *old(self),
    {
        if let Some(ref mut selector) = self.active_selector {
            if key == '\u{1b}' {
                Some(None)
            } else {
                selector.handle_key(key)
            }
        } else {
            None
        }
    }

    /// Render the active selector if any; `current_speed` is the speed choice that
    /// matches the emulator's speed, if one does.
    pub fn render(&mut self, width: usize, height: usize, current_speed: Option<usize>) -> (r: Option<
        Vec<u32>,
    >)
        requires
            overlay_size_ok(width as int, height as int),
        ensures
            match old(self).active_selector {
                Some(w) => {
                    &&& (r matches Some(b) && b@ == selector_window_spec(
                        w.selector_type,
                        width as int,
                        height as int,
                        current_speed,
                    ))
                    &&& (final(self).active_selector matches Some(fw) && fw.selector_type
                        == w.selector_type && fw.selected_index == w.selected_index && fw.width
                        == min_of(width as int, 500) && fw.height == min_of(height as int, 400)
                        && fw.x == (width - fw.width) / 2 && fw.y == (height - fw.height) / 2)
                },
                None => r is None && final(self).active_selector is None,
            },
    {
        match self.active_selector.as_mut() {
            Some(selector) => Some(selector.render(width, height, current_speed)),
            None => None,
        }
    }
}

impl Default for SelectorManager {
    fn default() -> (m: Self)
        ensures
            m.active_selector is None,
    {
        Self::new()
    }
}

} // verus!

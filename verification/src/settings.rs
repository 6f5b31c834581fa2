//! Emulator settings: display scaling, key mappings for up to four players,
//! window size and video backend.
//!
//! What is read from and written to config.json (and the fields that exist only at
//! run time, such as the emulation speed) is handled around this model; this module
//! holds the values, their defaults, and the migration of the old single-player
//! `keyboard` entry.
use vstd::prelude::*;
use vstd::string::*;

verus! {

/// Scaling mode for emulator display
#[derive(Debug, Clone, Copy, PartialEq, Eq, Structural)]
pub enum ScalingMode {
    /// Original size: 1:1 pixel mapping, centered
    Original,
    /// Fit to window: Scale to fit maintaining aspect ratio
    Fit,
    /// Stretch: Fill entire window, ignoring aspect ratio
    Stretch,
}

impl ScalingMode {
    /// The display name of the mode.
    pub fn name(&self) -> (s: &str)
        ensures
            s@ == match *self {
                ScalingMode::Original => "Original"@,
                ScalingMode::Fit => "Fit"@,
                ScalingMode::Stretch => "Stretch"@,
            },
    {
        match self {
            ScalingMode::Original => "Original",
            ScalingMode::Fit => "Fit",
            ScalingMode::Stretch => "Stretch",
        }
    }
}

impl Default for ScalingMode {
    /// Fit to window.
    fn default() -> (m: Self)
        ensures
            m == ScalingMode::Fit,
    {
        ScalingMode::Fit
    }
}

/// Standard controller button mapping (for NES, SNES, GB, etc.)
#[derive(Debug, Clone)]
pub struct KeyMapping {
    pub a: String,
    pub b: String,
    /// For SNES and future systems
    pub x: String,
    /// For SNES and future systems
    pub y: String,
    /// For SNES shoulder buttons
    pub l: String,
    /// For SNES shoulder buttons
    pub r: String,
    pub select: String,
    pub start: String,
    pub up: String,
    pub down: String,
    pub left: String,
    pub right: String,
}

/// The key names of a mapping, in the order a, b, select, start, up, down, left,
/// right, x, y, l, r (the order in which buttons are numbered 0 to 11).
pub open spec fn mapping_keys(m: KeyMapping) -> Seq<Seq<char>> {
    seq![
        m.a@,
        m.b@,
        m.select@,
        m.start@,
        m.up@,
        m.down@,
        m.left@,
        m.right@,
        m.x@,
        m.y@,
        m.l@,
        m.r@,
    ]
}

/// A mapping with every button unmapped.
pub open spec fn is_unmapped(m: KeyMapping) -> bool {
    forall|i: int| 0 <= i < 12 ==> mapping_keys(m)[i] == Seq::<char>::empty()
}

/// An empty key name (an unmapped button).
pub fn default_empty_string() -> (s: String)
    ensures
        s@ == Seq::<char>::empty(),
{
    String::new()
}

impl Default for KeyMapping {
    /// Player 1: Z/X for A/B, LeftShift/Enter for Select/Start, arrow keys for the
    /// D-pad; X, Y, L and R unmapped.
    fn default() -> (m: Self)
        ensures
            mapping_keys(m) == seq![
                "Z"@,
                "X"@,
                "LeftShift"@,
                "Enter"@,
                "Up"@,
                "Down"@,
                "Left"@,
                "Right"@,
                Seq::<char>::empty(),
                Seq::<char>::empty(),
                Seq::<char>::empty(),
                Seq::<char>::empty(),
            ],
    {
        let m = KeyMapping {
            a: String::from_str("Z"),
            b: String::from_str("X"),
            x: String::new(),
            y: String::new(),
            l: String::new(),
            r: String::new(),
            select: String::from_str("LeftShift"),
            start: String::from_str("Enter"),
            up: String::from_str("Up"),
            down: String::from_str("Down"),
            left: String::from_str("Left"),
            right: String::from_str("Right"),
        };
        assert(mapping_keys(m) =~= seq![
            "Z"@,
            "X"@,
            "LeftShift"@,
            "Enter"@,
            "Up"@,
            "Down"@,
            "Left"@,
            "Right"@,
            Seq::<char>::empty(),
            Seq::<char>::empty(),
            Seq::<char>::empty(),
            Seq::<char>::empty(),
        ]);
        m
    }
}

impl KeyMapping {
    /// Default mapping for Player 2: U/O for A/B, RightShift/P for Select/Start,
    /// I/K/J/L for the D-pad; X, Y, L and R unmapped.
    pub fn player2_default() -> (m: Self)
        ensures
            mapping_keys(m) == seq![
                "U"@,
                "O"@,
                "RightShift"@,
                "P"@,
                "I"@,
                "K"@,
                "J"@,
                "L"@,
                Seq::<char>::empty(),
                Seq::<char>::empty(),
                Seq::<char>::empty(),
                Seq::<char>::empty(),
            ],
    {
        let m = KeyMapping {
            a: String::from_str("U"),
            b: String::from_str("O"),
            x: String::new(),
            y: String::new(),
            l: String::new(),
            r: String::new(),
            select: String::from_str("RightShift"),
            start: String::from_str("P"),
            up: String::from_str("I"),
            down: String::from_str("K"),
            left: String::from_str("J"),
            right: String::from_str("L"),
        };
        assert(mapping_keys(m) =~= seq![
            "U"@,
            "O"@,
            "RightShift"@,
            "P"@,
            "I"@,
            "K"@,
            "J"@,
            "L"@,
            Seq::<char>::empty(),
            Seq::<char>::empty(),
            Seq::<char>::empty(),
            Seq::<char>::empty(),
        ]);
        m
    }

    /// Default mapping for Player 3: every button unmapped.
    pub fn player3_default() -> (m: Self)
        ensures
            is_unmapped(m),
    {
        Self::unmapped()
    }

    /// Default mapping for Player 4: every button unmapped.
    pub fn player4_default() -> (m: Self)
        ensures
            is_unmapped(m),
    {
        Self::unmapped()
    }

    fn unmapped() -> (m: Self)
        ensures
            is_unmapped(m),
    {
        let m = KeyMapping {
            a: String::new(),
            b: String::new(),
            x: String::new(),
            y: String::new(),
            l: String::new(),
            r: String::new(),
            select: String::new(),
            start: String::new(),
            up: String::new(),
            down: String::new(),
            left: String::new(),
            right: String::new(),
        };
        assert forall|i: int| 0 <= i < 12 implies mapping_keys(m)[i] == Seq::<char>::empty() by {}
        m
    }
}

/// Input configuration for all players
#[derive(Debug, Clone)]
pub struct InputConfig {
    pub player1: KeyMapping,
    pub player2: KeyMapping,
    pub player3: KeyMapping,
    pub player4: KeyMapping,
    /// Host modifier key for switching to host mode (function keys) in PC emulation
    /// Default: RightCtrl
    pub host_modifier: String,
}

/// The default host modifier key: "RightCtrl".
pub fn default_host_modifier() -> (s: String)
    ensures
        s@ == "RightCtrl"@,
{
    String::from_str("RightCtrl")
}

/// The default mappings of the four players and the default host modifier.
pub open spec fn is_default_input(c: InputConfig) -> bool {
    &&& mapping_keys(c.player1) == seq![
        "Z"@,
        "X"@,
        "LeftShift"@,
        "Enter"@,
        "Up"@,
        "Down"@,
        "Left"@,
        "Right"@,
        Seq::<char>::empty(),
        Seq::<char>::empty(),
        Seq::<char>::empty(),
        Seq::<char>::empty(),
    ]
    &&& mapping_keys(c.player2) == seq![
        "U"@,
        "O"@,
        "RightShift"@,
        "P"@,
        "I"@,
        "K"@,
        "J"@,
        "L"@,
        Seq::<char>::empty(),
        Seq::<char>::empty(),
        Seq::<char>::empty(),
        Seq::<char>::empty(),
    ]
    &&& is_unmapped(c.player3)
    &&& is_unmapped(c.player4)
    &&& c.host_modifier@ == "RightCtrl"@
}

impl Default for InputConfig {
    /// Player 1 and 2 default mappings, players 3 and 4 unmapped, RightCtrl as host modifier.
    fn default() -> (c: Self)
        ensures
            is_default_input(c),
    {
        InputConfig {
            player1: KeyMapping::default(),
            player2: KeyMapping::player2_default(),
            player3: KeyMapping::player3_default(),
            player4: KeyMapping::player4_default(),
            host_modifier: default_host_modifier(),
        }
    }
}

/// The default window width: 512 (256 * 2, the default 2x scale).
pub fn default_window_width() -> (w: usize)
    ensures
        w == 512,
{
    512
}

/// The default window height: 480 (240 * 2, the default 2x scale).
pub fn default_window_height() -> (h: usize)
    ensures
        h == 480,
{
    480
}

/// The default video backend: "software".
pub fn default_video_backend() -> (s: String)
    ensures
        s@ == "software"@,
{
    String::from_str("software")
}

/// The persistent settings of the emulator.
#[derive(Debug, Clone)]
pub struct Settings {
    /// Backward compatibility: the old single-player keyboard entry, kept for migration
    pub keyboard: Option<KeyMapping>,
    /// Input configuration supporting multiple players
    pub input: InputConfig,
    pub window_width: usize,
    pub window_height: usize,
    /// Kept for backward compatibility reading only, not saved
    pub last_rom_path: Option<String>,
    /// "software" or "opengl"
    pub video_backend: String,
    /// How to scale emulator display
    pub scaling_mode: ScalingMode,
    /// Fullscreen state (runtime only, not saved)
    pub fullscreen: bool,
    /// Fullscreen with GUI overlay (runtime only, not saved)
    pub fullscreen_with_gui: bool,
}

/// The default settings.
pub open spec fn is_default_settings(s: Settings) -> bool {
    &&& s.keyboard is None
    &&& is_default_input(s.input)
    &&& s.window_width == 512
    &&& s.window_height == 480
    &&& s.last_rom_path is None
    &&& s.video_backend@ == "software"@
    &&& s.scaling_mode == ScalingMode::Fit
    &&& !s.fullscreen
    &&& !s.fullscreen_with_gui
}

impl Default for Settings {
    /// Default input, a 512x480 window, the software backend, Fit scaling, windowed.
    fn default() -> (s: Self)
        ensures
            is_default_settings(s),
    {
        Settings {
            keyboard: None,
            input: InputConfig::default(),
            window_width: 512,
            window_height: 480,
            last_rom_path: None,
            video_backend: default_video_backend(),
            scaling_mode: ScalingMode::default(),
            fullscreen: false,
            fullscreen_with_gui: false,
        }
    }
}

impl Settings {
    /// Migrate the old `keyboard` entry: where one was read, it becomes player 1's
    /// mapping and the entry is cleared; nothing else changes.
    pub fn migrate_legacy_keyboard(&mut self)
        ensures
            final(self).keyboard is None,
            final(self).input.player1 == match old(self).keyboard {
                Some(k) => k,
                None => old(self).input.player1,
            },
            final(self).input.player2 == old(self).input.player2,
            final(self).input.player3 == old(self).input.player3,
            final(self).input.player4 == old(self).input.player4,
            final(self).input.host_modifier == old(self).input.host_modifier,
            final(self).window_width == old(self).window_width,
            final(self).window_height == old(self).window_height,
            final(self).last_rom_path == old(self).last_rom_path,
            final(self).video_backend == old(self).video_backend,
            final(self).scaling_mode == old(self).scaling_mode,
            final(self).fullscreen == old(self).fullscreen,
            final(self).fullscreen_with_gui == old(self).fullscreen_with_gui,
    {
        if let Some(old_keyboard) = self.keyboard.take() {
            self.input.player1 = old_keyboard;
        }
    }
}

} // verus!

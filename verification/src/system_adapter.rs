//! System-specific debug information and configuration
//!
//! This module provides a unified interface for different system types,
//! exposing their specific debug information and configuration options
//! to the UI in a type-safe and modular way.
use vstd::prelude::*;
use vstd::string::*;

verus! {

/// Unified debug information for all systems: a system name and labelled values.
#[derive(Debug, Clone)]
pub struct SystemDebugInfo {
    pub system_type: String,
    pub fields: Vec<(String, String)>,
}

impl SystemDebugInfo {
    /// Debug information for `system_type`, with no fields yet.
    pub fn new(system_type: String) -> (d: Self)
        ensures
            d.system_type == system_type,
            d.fields@.len() == 0,
    {
        SystemDebugInfo { system_type, fields: Vec::new() }
    }

    /// Append the field `label` = `value`; earlier fields are kept in order.
    pub fn add_field(&mut self, label: String, value: String)
        ensures
            final(self).fields@ == old(self).fields@.push((label, value)),
            final(self).system_type == old(self).system_type,
    {
        self.fields.push((label, value));
    }
}

/// Configuration options for different system types
#[allow(clippy::upper_case_acronyms)]
#[derive(Debug)]
pub enum SystemConfig {
    NES(NesConfig),
    GameBoy(GameBoyConfig),
    Atari2600(Atari2600Config),
    PC(PcConfig),
    SNES(SnesConfig),
    N64(N64Config),
}

#[derive(Debug, Default)]
pub struct NesConfig {
    pub ppu_show_sprites: bool,
    pub ppu_show_background: bool,
    /// Pulse1, Pulse2, Triangle, Noise, DMC
    pub apu_channels_enabled: [bool; 5],
}

#[derive(Debug, Default)]
pub struct GameBoyConfig {
    pub ppu_show_sprites: bool,
    pub ppu_show_background: bool,
    pub ppu_show_window: bool,
}

#[derive(Debug, Default)]
pub struct Atari2600Config {
    pub tia_show_playfield: bool,
    pub tia_show_sprites: bool,
}

#[derive(Debug, Default)]
pub struct PcConfig {
    pub show_bda_inspector: bool,
    pub video_adapter: String,
}

#[derive(Debug, Default)]
pub struct SnesConfig {
    pub ppu_mode: u8,
}

#[derive(Debug, Default)]
pub struct N64Config {
    pub rdp_enable_texturing: bool,
    pub rsp_show_microcode: bool,
}

impl SystemConfig {
    /// The display name of the configured system.
    pub fn system_name(&self) -> (s: &str)
        ensures
            s@ == match *self {
                SystemConfig::NES(_) => "NES"@,
                SystemConfig::GameBoy(_) => "Game Boy"@,
                SystemConfig::Atari2600(_) => "Atari 2600"@,
                SystemConfig::PC(_) => "PC"@,
                SystemConfig::SNES(_) => "SNES"@,
                SystemConfig::N64(_) => "N64"@,
            },
    {
        match self {
            SystemConfig::NES(_) => "NES",
            SystemConfig::GameBoy(_) => "Game Boy",
            SystemConfig::Atari2600(_) => "Atari 2600",
            SystemConfig::PC(_) => "PC",
            SystemConfig::SNES(_) => "SNES",
            SystemConfig::N64(_) => "N64",
        }
    }
}

} // verus!

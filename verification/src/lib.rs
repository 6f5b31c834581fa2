use vstd::prelude::*;

pub mod rom_detect;
pub mod rom_detect_laws;
pub mod text;
pub mod ui_render;
pub mod settings;
pub mod menu;
pub mod popup_window;
pub mod selector;
pub mod system_adapter;
pub mod video_processor;
pub mod controller;
pub mod controller_laws;
pub mod pad_remap;
pub mod pad_remap_laws;
pub mod numbers;
pub mod cli;
pub mod cli_laws;
pub mod save_state;
pub mod runtime_state;
pub mod debug_dump;
pub mod dump_document;
pub mod debug_overlay;
pub mod local_time;
pub mod screenshot;
pub mod status_bar;

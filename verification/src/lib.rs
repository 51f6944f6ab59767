//! Dictation daemon core: text insertion protocol state, delivery policy,
//! dictation control and model catalog, with their contracts.

pub mod audio;
pub mod control;
pub mod daemon;
pub mod debug_harness;
pub mod delivery;
pub mod desktop_text;
pub mod dictation;
pub mod eval;
pub mod focus;
pub mod glyphs;
pub mod insert_preview;
pub mod insertion;
pub mod mic;
pub mod models;
pub mod niri;
pub mod osd;
pub mod overlay_state;
pub mod paths;
pub mod protocol;
pub mod settings;
pub mod size_report;
pub mod tauri_models;
pub mod strings;
pub mod text;
pub mod text_chunks;
pub mod time;

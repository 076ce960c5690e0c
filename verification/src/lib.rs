//! Verified core of NuhxBoard, a cross-platform input visualizer compatible with
//! NohBoard layouts and styles.

pub mod code_convert;
pub mod mouse;
pub mod codes;
pub mod layout;
pub mod inputs;
pub mod history;
pub mod popups;
pub mod error;
pub mod windows;
pub mod style;
pub mod pickers;
pub mod choices;
pub mod settings;
pub mod options;
pub mod events;
pub mod board;
pub mod board_input;
pub mod board_style;
pub mod board_files;
pub mod board_edit;
pub mod board_update;
pub mod keyboard;
pub mod canvas;
pub mod motion;
pub mod laws;
pub mod titles;

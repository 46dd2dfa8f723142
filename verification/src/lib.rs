//! Decision logic of the Helium browser updater for Windows.
pub mod text;
pub mod version;
pub mod render;
pub mod winget;
pub mod install;
pub mod appid;
pub mod release;
pub mod layout;
pub mod events;
pub mod ui_state;
pub mod config;
pub mod status;
pub mod outcome;
pub mod messages;
pub mod theme;
pub mod callbacks;
pub mod shortcut;
pub mod interception;

//! A translation assistant: languages and interface texts, the Google and
//! MyMemory upstreams, translation history and settings, and the state of the
//! translator window.

pub mod app_settings;
pub mod cli;
pub mod fonts;
pub mod gui;
pub mod history;
pub mod i18n;
pub mod json;
pub mod model;
pub mod providers;
pub mod text;
pub mod tray;
pub mod ui_msg;

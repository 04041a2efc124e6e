//! Core of a desktop client for a music streaming web app: bridge health
//! tracking, the diagnostics event log, settings, update channels and the
//! commands that the tray menu, media keys and command palette dispatch.

pub mod clock;
pub mod bridge_health;
pub mod text;
pub mod diagnostics;
pub mod settings;
pub mod updater;
pub mod commands;
pub mod shell;

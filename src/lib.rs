//! Verified core of a Wayland status bar: workspace snapshots, the
//! StatusNotifierItem tray and its menus, icon and desktop-entry lookup
//! caches, the keyboard-layout indicator, the clock, and the audio mixer's
//! command/event protocol.

pub mod audio;
pub mod cache;
pub mod clock;
pub mod config;
pub mod desktop;
pub mod icons;
pub mod lang;
pub mod menu;
pub mod mixer;
pub mod pixmap;
pub mod pulse;
pub mod text;
pub mod tray;
pub mod workspaces;

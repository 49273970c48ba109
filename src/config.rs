//! Layout and timing settings of the bar.

use vstd::prelude::*;

verus! {

/// Settings of the bar: its height and icon size in pixels, the spacing
/// between items, and how often each part is refreshed.
#[derive(Clone, Copy, Debug, PartialEq, Eq, Structural)]
pub struct BarConfig {
    pub height: i32,
    pub workspaces_check_interval_ms: u64,
    pub lang_update_interval_ms: u64,
    pub clock_update_interval_ms: u64,
    pub tray_update_interval_secs: u64,
    pub icon_size: i32,
    pub spacing: i32,
}

pub open spec fn default_config() -> BarConfig {
    BarConfig {
        height: 32,
        workspaces_check_interval_ms: 100,
        lang_update_interval_ms: 200,
        clock_update_interval_ms: 1000,
        tray_update_interval_secs: 1,
        icon_size: 20,
        spacing: 12,
    }
}

impl Default for BarConfig {
    fn default() -> (r: Self)
        ensures
            r == default_config(),
    {
        BarConfig {
            height: 32,
            workspaces_check_interval_ms: 100,
            lang_update_interval_ms: 200,
            clock_update_interval_ms: 1000,
            tray_update_interval_secs: 1,
            icon_size: 20,
            spacing: 12,
        }
    }
}

impl BarConfig {
    /// The default settings.
    pub fn new() -> (r: Self)
        ensures
            r == default_config(),
    {
        Self::default()
    }
}

} // verus!

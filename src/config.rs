//! The display mode that startup reads to decide which session to build.
use vstd::prelude::*;

verus! {

/// Windows with a terminal in one of them, or one terminal on the whole grid.
#[derive(Clone, Copy, Debug, PartialEq, Eq, Structural)]
pub enum UiMode {
    Windowed,
    FullscreenTerminal,
}

/// The selected display mode; it lives in memory only.
#[derive(Clone, Copy, Debug)]
pub struct DisplayConfig {
    pub mode: UiMode,
}

impl DisplayConfig {
    /// The mode selected at boot: windowed.
    pub fn new() -> (r: DisplayConfig)
        ensures
            r.mode == UiMode::Windowed,
    {
        DisplayConfig { mode: UiMode::Windowed }
    }
}

/// Selects `mode`.
pub fn set_ui_mode(config: &mut DisplayConfig, mode: UiMode)
    ensures
        final(config).mode == mode,
{
    config.mode = mode;
}

/// The selected mode.
pub fn get_current_ui_mode(config: &DisplayConfig) -> (r: UiMode)
    ensures
        r == config.mode,
{
    config.mode
}

} // verus!

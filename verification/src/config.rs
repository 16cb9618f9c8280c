//! The in-process holder of the overlay configuration. Persisting it to
//! disk and reading it back is the caller's business; the manager only keeps
//! the current value.

use vstd::prelude::*;

use crate::models::{OverlayConfig, OverlayConfigV, spec_default_config};

verus! {

/// Holds the configuration the running process serves and applies.
pub struct ConfigManager {
    config: OverlayConfig,
}

impl View for ConfigManager {
    type V = OverlayConfigV;

    closed spec fn view(&self) -> OverlayConfigV {
        self.config@
    }
}

impl ConfigManager {
    /// A manager holding the stock configuration; a caller that has a saved
    /// configuration applies it with `update_config`.
    pub fn new() -> (r: Self)
        ensures
            r@ == spec_default_config(),
    {
        ConfigManager { config: OverlayConfig::default() }
    }

    /// A copy of the current configuration.
    pub fn get_config(&self) -> (r: OverlayConfig)
        ensures
            r@ == self@,
    {
        self.config.clone()
    }

    /// Replace the current configuration.
    pub fn update_config(&mut self, new_config: OverlayConfig)
        ensures
            final(self)@ == new_config@,
    {
        self.config = new_config;
    }
}

} // verus!

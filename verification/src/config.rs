//! General settings of the application.
use vstd::prelude::*;

verus! {

/// General settings.
#[derive(Debug, Clone, Copy)]
pub struct GeneralConfig {
    /// Enables wireframe rendering for debugging purposes.
    pub debug_wireframe: bool,
    /// Enables eframe's VSync.
    pub vsync: bool,
}

impl Default for GeneralConfig {
    fn default() -> (config: Self)
        ensures
            !config.debug_wireframe,
            !config.vsync,
    {
        GeneralConfig { debug_wireframe: false, vsync: false }
    }
}

impl GeneralConfig {
    /// Switches the debug wireframe on or off; returns the new setting.
    pub fn toggle_debug_wireframe(&mut self) -> (enabled: bool)
        ensures
            final(self).debug_wireframe == !old(self).debug_wireframe,
            enabled == final(self).debug_wireframe,
            final(self).vsync == old(self).vsync,
    {
        self.debug_wireframe = !self.debug_wireframe;
        self.debug_wireframe
    }
}

} // verus!

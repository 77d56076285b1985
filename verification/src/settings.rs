use vstd::prelude::*;

use crate::input::AimMode;

verus! {

/// Player-adjustable game settings.
pub struct Settings {
    pub aim_mode: AimMode,
}

impl Settings {
    /// The settings a new game starts with: aiming follows the mouse.
    pub fn new() -> (settings: Self)
        ensures
            settings.aim_mode == AimMode::Mouse,
    {
        Self { aim_mode: AimMode::Mouse }
    }
}

} // verus!

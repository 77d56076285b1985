use vstd::prelude::*;

verus! {

/// The choices made on the main menu.
#[derive(Clone, Copy, PartialEq, Eq, Debug, Structural)]
pub struct MainMenu {
    pub play: bool,
    pub quit: bool,
}

impl MainMenu {
    /// Nothing chosen yet.
    pub fn initialize() -> (menu: Self)
        ensures
            !menu.play,
            !menu.quit,
    {
        MainMenu { play: false, quit: false }
    }
}

/// The choices made on the pause menu; `resume` is set while the game runs.
#[derive(Clone, Copy, PartialEq, Eq, Debug, Structural)]
pub struct PauseMenu {
    pub resume: bool,
    pub mainmenu: bool,
    pub restart: bool,
    pub quit: bool,
}

impl PauseMenu {
    /// Not paused, nothing chosen.
    pub fn initialize() -> (menu: Self)
        ensures
            menu.resume,
            !menu.mainmenu,
            !menu.restart,
            !menu.quit,
    {
        PauseMenu { resume: true, mainmenu: false, restart: false, quit: false }
    }
}

/// The game-over menu: whether it is shown, and the choices made on it.
#[derive(Clone, Copy, PartialEq, Eq, Debug, Structural)]
pub struct GameOverMenu {
    pub draw: bool,
    pub mainmenu: bool,
    pub restart: bool,
    pub quit: bool,
}

impl GameOverMenu {
    /// Hidden, nothing chosen.
    pub fn initialize() -> (menu: Self)
        ensures
            !menu.draw,
            !menu.mainmenu,
            !menu.restart,
            !menu.quit,
    {
        GameOverMenu { draw: false, mainmenu: false, restart: false, quit: false }
    }
}

/// The choices made in the shop between waves.
#[derive(Clone, Copy, PartialEq, Eq, Debug, Structural)]
pub struct WaveShopMenu {
    pub continue_run: bool,
    pub mainmenu: bool,
    pub quit: bool,
}

/// The shop menu with nothing chosen.
pub open spec fn fresh_wave_shop_menu() -> WaveShopMenu {
    WaveShopMenu { continue_run: false, mainmenu: false, quit: false }
}

/// The shop menu after a reset: neither continue nor main menu chosen, the
/// quit choice kept.
pub open spec fn reset_wave_shop_menu(menu: WaveShopMenu) -> WaveShopMenu {
    WaveShopMenu { continue_run: false, mainmenu: false, quit: menu.quit }
}

impl WaveShopMenu {
    /// Nothing chosen.
    pub fn initialize() -> (menu: Self)
        ensures
            menu == fresh_wave_shop_menu(),
    {
        WaveShopMenu { continue_run: false, mainmenu: false, quit: false }
    }

    /// Forgets the choices to continue and to go to the main menu, so that
    /// the next visit starts afresh; a quit choice stands.
    pub fn reset(&mut self)
        ensures
            *final(self) == reset_wave_shop_menu(*old(self)),
    {
        self.continue_run = false;
        self.mainmenu = false;
    }
}

} // verus!

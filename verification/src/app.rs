use vstd::prelude::*;

use crate::game_run::RunEvent;
use crate::menus::{
    fresh_wave_shop_menu, reset_wave_shop_menu, GameOverMenu, MainMenu, PauseMenu, WaveShopMenu,
};

verus! {

/// The screen the game is on.
#[derive(Clone, Copy, PartialEq, Eq, Debug, Structural)]
pub enum Screen {
    MainMenu,
    Playing,
    Shop,
    Paused,
    GameOver,
}

/// What the caller has to do next after `App::update`.
#[derive(Clone, Copy, PartialEq, Eq, Debug, Structural)]
pub enum UpdateStep {
    /// The game is over: leave the main loop.
    Stop,
    /// Nothing more to do this frame.
    Continue,
    /// Run one gameplay step and report its event to `App::update_gameplay`.
    PlayFrame,
}

/// What the caller has to do to the running game after a screen decision.
#[derive(Clone, Copy, PartialEq, Eq, Debug, Structural)]
pub enum RunCommand {
    /// Leave the run as it is.
    Keep,
    /// Clear the arena for the shop (enemies, projectiles, items).
    EnterShop,
    /// Start the wave that follows the shop.
    StartNextWave,
    /// Start the run over from scratch.
    ResetRun,
}

/// The screen flow of the game: which screen is shown, the choices made on
/// the menus, and whether the player asked to quit.
#[derive(Clone, Copy, PartialEq, Eq, Debug, Structural)]
pub struct App {
    pub screen: Screen,
    pub quit_requested: bool,
    pub main_menu: MainMenu,
    pub pause_menu: PauseMenu,
    pub gameover_menu: GameOverMenu,
    pub wave_shop_menu: WaveShopMenu,
}

/// The flow when the game starts: main menu, nothing chosen.
pub open spec fn initial_app() -> App {
    App {
        screen: Screen::MainMenu,
        quit_requested: false,
        main_menu: MainMenu { play: false, quit: false },
        pause_menu: PauseMenu { resume: true, mainmenu: false, restart: false, quit: false },
        gameover_menu: GameOverMenu { draw: false, mainmenu: false, restart: false, quit: false },
        wave_shop_menu: fresh_wave_shop_menu(),
    }
}

/// The menus after a restart of the run: game over hidden, the game not
/// paused, every restart, continue or main-menu choice forgotten. The quit
/// choices and the main menu are kept.
pub open spec fn reset_menus(a: App) -> App {
    App {
        pause_menu: PauseMenu {
            resume: true,
            mainmenu: false,
            restart: false,
            quit: a.pause_menu.quit,
        },
        gameover_menu: GameOverMenu {
            draw: false,
            mainmenu: false,
            restart: false,
            quit: a.gameover_menu.quit,
        },
        wave_shop_menu: reset_wave_shop_menu(a.wave_shop_menu),
        ..a
    }
}

/// The main menu's choices applied: play starts the game, quit ends it.
pub open spec fn after_main_menu(a: App) -> App {
    App {
        screen: if a.main_menu.play {
            Screen::Playing
        } else {
            a.screen
        },
        quit_requested: a.quit_requested || a.main_menu.quit,
        ..a
    }
}

/// The shop opened: its continue and main-menu choices cleared, shop screen.
pub open spec fn after_enter_shop(a: App) -> App {
    App { screen: Screen::Shop, wave_shop_menu: reset_wave_shop_menu(a.wave_shop_menu), ..a }
}

/// The flow after a gameplay step that reported `event`: a finished wave
/// opens the shop; otherwise a death shows the game-over menu, and the
/// pause menu (if the game is no longer resumed) or the game-over menu (if
/// shown) takes the screen, in that order.
pub open spec fn after_gameplay(a: App, event: RunEvent) -> App {
    if event == RunEvent::WaveComplete {
        after_enter_shop(a)
    } else {
        let shown = a.gameover_menu.draw || event == RunEvent::PlayerDied;
        App {
            screen: if !a.pause_menu.resume {
                Screen::Paused
            } else if shown {
                Screen::GameOver
            } else {
                a.screen
            },
            gameover_menu: GameOverMenu { draw: shown, ..a.gameover_menu },
            ..a
        }
    }
}

/// The command that goes with `after_gameplay`.
pub open spec fn gameplay_command(event: RunEvent) -> RunCommand {
    if event == RunEvent::WaveComplete {
        RunCommand::EnterShop
    } else {
        RunCommand::Keep
    }
}

/// The shop's choices applied: continuing starts the next wave (and clears
/// the shop's choices); otherwise going to the main menu restarts the run
/// and shows the main menu; a quit choice ends the game in every case.
pub open spec fn after_wave_shop_menu(a: App) -> App {
    let b = if a.wave_shop_menu.continue_run {
        App {
            screen: Screen::Playing,
            wave_shop_menu: reset_wave_shop_menu(a.wave_shop_menu),
            ..a
        }
    } else if a.wave_shop_menu.mainmenu {
        App {
            screen: Screen::MainMenu,
            main_menu: MainMenu { play: false, ..a.main_menu },
            ..reset_menus(a)
        }
    } else {
        a
    };
    App { quit_requested: b.quit_requested || a.wave_shop_menu.quit, ..b }
}

/// The command that goes with `after_wave_shop_menu`.
pub open spec fn wave_shop_command(a: App) -> RunCommand {
    if a.wave_shop_menu.continue_run {
        RunCommand::StartNextWave
    } else if a.wave_shop_menu.mainmenu {
        RunCommand::ResetRun
    } else {
        RunCommand::Keep
    }
}

/// A restart or main-menu choice (from the pause or game-over menu): the
/// run starts over, on the main menu if that was chosen, playing otherwise.
pub open spec fn restarted(a: App, to_main_menu: bool) -> App {
    App {
        screen: if to_main_menu {
            Screen::MainMenu
        } else {
            Screen::Playing
        },
        main_menu: MainMenu { play: !to_main_menu, ..a.main_menu },
        ..reset_menus(a)
    }
}

/// The pause menu's choices applied: main menu or restart start the run
/// over; otherwise resuming goes back to the game; quit ends it.
pub open spec fn after_pause_menu(a: App) -> App {
    let b = if a.pause_menu.mainmenu || a.pause_menu.restart {
        restarted(a, a.pause_menu.mainmenu)
    } else if a.pause_menu.resume {
        App { screen: Screen::Playing, ..a }
    } else {
        a
    };
    App { quit_requested: b.quit_requested || a.pause_menu.quit, ..b }
}

/// The command that goes with `after_pause_menu`.
pub open spec fn pause_command(a: App) -> RunCommand {
    if a.pause_menu.mainmenu || a.pause_menu.restart {
        RunCommand::ResetRun
    } else {
        RunCommand::Keep
    }
}

/// The game-over menu's choices applied: main menu or restart start the run
/// over; quit ends the game.
pub open spec fn after_gameover_menu(a: App) -> App {
    let b = if a.gameover_menu.mainmenu || a.gameover_menu.restart {
        restarted(a, a.gameover_menu.mainmenu)
    } else {
        a
    };
    App { quit_requested: b.quit_requested || a.gameover_menu.quit, ..b }
}

/// The command that goes with `after_gameover_menu`.
pub open spec fn gameover_command(a: App) -> RunCommand {
    if a.gameover_menu.mainmenu || a.gameover_menu.restart {
        RunCommand::ResetRun
    } else {
        RunCommand::Keep
    }
}

/// Quitting is final: once the player asked to quit, no menu decision and no
/// gameplay event takes the request back.
pub proof fn lemma_quit_is_permanent(a: App, event: RunEvent)
    requires
        a.quit_requested,
    ensures
        after_main_menu(a).quit_requested,
        after_gameplay(a, event).quit_requested,
        after_enter_shop(a).quit_requested,
        reset_menus(a).quit_requested,
        after_wave_shop_menu(a).quit_requested,
        after_pause_menu(a).quit_requested,
        after_gameover_menu(a).quit_requested,
{
}

/// The shop is only ever reached at the end of a wave: no menu decision
/// leads into it, and a gameplay step opens it exactly when it reports a
/// completed wave, with neither continue nor main menu chosen in it yet.
pub proof fn lemma_shop_only_after_wave(a: App, event: RunEvent)
    requires
        a.screen != Screen::Shop,
    ensures
        after_main_menu(a).screen != Screen::Shop,
        after_pause_menu(a).screen != Screen::Shop,
        after_gameover_menu(a).screen != Screen::Shop,
        (after_gameplay(a, event).screen == Screen::Shop) == (event == RunEvent::WaveComplete),
        event == RunEvent::WaveComplete ==> !after_gameplay(a, event).wave_shop_menu.continue_run
            && !after_gameplay(a, event).wave_shop_menu.mainmenu,
{
}

/// A quit chosen on the shop, pause or game-over menu is always honoured,
/// whatever else was chosen with it; nothing else requests a quit.
pub proof fn lemma_quit_choice_honoured(a: App)
    ensures
        after_wave_shop_menu(a).quit_requested == (a.quit_requested || a.wave_shop_menu.quit),
        after_pause_menu(a).quit_requested == (a.quit_requested || a.pause_menu.quit),
        after_gameover_menu(a).quit_requested == (a.quit_requested || a.gameover_menu.quit),
{
}

/// Whenever a menu decision restarts the run, the menus come back as in a
/// new run (not paused, game over hidden, no continue or main-menu choice
/// left in the shop), and the screen is the main menu or the game, in step
/// with the main menu's play choice.
pub proof fn lemma_restart_resets_menus(a: App)
    ensures
        wave_shop_command(a) == RunCommand::ResetRun ==> {
            let b = after_wave_shop_menu(a);
            &&& b.pause_menu.resume && !b.pause_menu.mainmenu && !b.pause_menu.restart
            &&& !b.gameover_menu.draw && !b.gameover_menu.mainmenu && !b.gameover_menu.restart
            &&& !b.wave_shop_menu.continue_run && !b.wave_shop_menu.mainmenu
            &&& b.screen == Screen::MainMenu && !b.main_menu.play
        },
        pause_command(a) == RunCommand::ResetRun ==> {
            let b = after_pause_menu(a);
            &&& b.pause_menu.resume && !b.pause_menu.mainmenu && !b.pause_menu.restart
            &&& !b.gameover_menu.draw && !b.gameover_menu.mainmenu && !b.gameover_menu.restart
            &&& !b.wave_shop_menu.continue_run && !b.wave_shop_menu.mainmenu
            &&& (b.screen == Screen::MainMenu || b.screen == Screen::Playing)
            &&& b.main_menu.play == (b.screen == Screen::Playing)
        },
        gameover_command(a) == RunCommand::ResetRun ==> {
            let b = after_gameover_menu(a);
            &&& b.pause_menu.resume && !b.pause_menu.mainmenu && !b.pause_menu.restart
            &&& !b.gameover_menu.draw && !b.gameover_menu.mainmenu && !b.gameover_menu.restart
            &&& !b.wave_shop_menu.continue_run && !b.wave_shop_menu.mainmenu
            &&& (b.screen == Screen::MainMenu || b.screen == Screen::Playing)
            &&& b.main_menu.play == (b.screen == Screen::Playing)
        },
{
}

/// The main menu's quit choice is the player's alone: no gameplay event and
/// no decision on another menu sets or clears it.
pub proof fn lemma_main_menu_quit_untouched(a: App, event: RunEvent)
    ensures
        after_gameplay(a, event).main_menu.quit == a.main_menu.quit,
        after_enter_shop(a).main_menu.quit == a.main_menu.quit,
        reset_menus(a).main_menu.quit == a.main_menu.quit,
        after_wave_shop_menu(a).main_menu.quit == a.main_menu.quit,
        after_pause_menu(a).main_menu.quit == a.main_menu.quit,
        after_gameover_menu(a).main_menu.quit == a.main_menu.quit,
        after_main_menu(a).main_menu == a.main_menu,
{
}

/// The main menu: play goes to the game, otherwise the screen stays; quit
/// ends the game; the menus themselves are left as they are.
pub proof fn lemma_main_menu_choices(a: App)
    ensures
        a.main_menu.play ==> after_main_menu(a).screen == Screen::Playing,
        !a.main_menu.play ==> after_main_menu(a).screen == a.screen,
        after_main_menu(a).quit_requested == (a.quit_requested || a.main_menu.quit),
        after_main_menu(a).pause_menu == a.pause_menu,
        after_main_menu(a).gameover_menu == a.gameover_menu,
        after_main_menu(a).wave_shop_menu == a.wave_shop_menu,
{
}

/// A gameplay step. A completed wave opens the shop and touches neither the
/// pause nor the game-over menu. Otherwise the game-over menu is shown
/// exactly when it already was or the player just died; an unresumed game
/// goes to the pause screen, else a shown game-over menu takes the screen,
/// else the screen stays. No step requests a quit or touches the main or
/// pause menu.
pub proof fn lemma_gameplay_step(a: App, event: RunEvent)
    ensures
        after_gameplay(a, event).gameover_menu.draw == (a.gameover_menu.draw || event
            == RunEvent::PlayerDied),
        after_gameplay(a, event).pause_menu == a.pause_menu,
        after_gameplay(a, event).main_menu == a.main_menu,
        after_gameplay(a, event).quit_requested == a.quit_requested,
        event == RunEvent::WaveComplete ==> {
            &&& after_gameplay(a, event).screen == Screen::Shop
            &&& after_gameplay(a, event).gameover_menu == a.gameover_menu
            &&& gameplay_command(event) == RunCommand::EnterShop
        },
        event != RunEvent::WaveComplete ==> {
            &&& gameplay_command(event) == RunCommand::Keep
            &&& after_gameplay(a, event).wave_shop_menu == a.wave_shop_menu
            &&& !a.pause_menu.resume ==> after_gameplay(a, event).screen == Screen::Paused
            &&& a.pause_menu.resume && (a.gameover_menu.draw || event == RunEvent::PlayerDied)
                ==> after_gameplay(a, event).screen == Screen::GameOver
            &&& a.pause_menu.resume && !a.gameover_menu.draw && event == RunEvent::Ongoing
                ==> after_gameplay(a, event).screen == a.screen
        },
{
}

/// The shop's choices. Continuing starts the next wave on the game screen
/// and leaves the pause, game-over and main menus as they were; otherwise the
/// main-menu choice restarts the run on the main menu, not playing;
/// otherwise the screen stays and the run is kept.
pub proof fn lemma_wave_shop_choices(a: App)
    ensures
        a.wave_shop_menu.continue_run ==> {
            let b = after_wave_shop_menu(a);
            &&& b.screen == Screen::Playing
            &&& wave_shop_command(a) == RunCommand::StartNextWave
            &&& b.pause_menu == a.pause_menu
            &&& b.gameover_menu == a.gameover_menu
            &&& b.main_menu == a.main_menu
        },
        !a.wave_shop_menu.continue_run && a.wave_shop_menu.mainmenu ==> {
            let b = after_wave_shop_menu(a);
            &&& b.screen == Screen::MainMenu
            &&& !b.main_menu.play
            &&& wave_shop_command(a) == RunCommand::ResetRun
        },
        !a.wave_shop_menu.continue_run && !a.wave_shop_menu.mainmenu ==> {
            &&& after_wave_shop_menu(a).screen == a.screen
            &&& wave_shop_command(a) == RunCommand::Keep
        },
{
}

/// The pause menu's choices. The main-menu choice restarts the run on the
/// main menu, not playing (whether or not restart was chosen too); restart
/// alone restarts it straight into the game; otherwise resuming returns to
/// the game and not resuming keeps the pause screen, with the run kept.
pub proof fn lemma_pause_choices(a: App)
    ensures
        a.pause_menu.mainmenu ==> {
            &&& after_pause_menu(a).screen == Screen::MainMenu
            &&& !after_pause_menu(a).main_menu.play
            &&& pause_command(a) == RunCommand::ResetRun
        },
        a.pause_menu.restart && !a.pause_menu.mainmenu ==> {
            &&& after_pause_menu(a).screen == Screen::Playing
            &&& after_pause_menu(a).main_menu.play
            &&& pause_command(a) == RunCommand::ResetRun
        },
        !a.pause_menu.restart && !a.pause_menu.mainmenu ==> {
            &&& pause_command(a) == RunCommand::Keep
            &&& after_pause_menu(a).gameover_menu == a.gameover_menu
            &&& after_pause_menu(a).main_menu == a.main_menu
            &&& a.pause_menu.resume ==> after_pause_menu(a).screen == Screen::Playing
            &&& !a.pause_menu.resume ==> after_pause_menu(a).screen == a.screen
        },
{
}

/// The game-over menu's choices. The main-menu choice restarts the run on
/// the main menu, not playing; restart alone restarts it straight into the
/// game; with neither, nothing but a quit choice changes.
pub proof fn lemma_gameover_choices(a: App)
    ensures
        a.gameover_menu.mainmenu ==> {
            &&& after_gameover_menu(a).screen == Screen::MainMenu
            &&& !after_gameover_menu(a).main_menu.play
            &&& gameover_command(a) == RunCommand::ResetRun
        },
        a.gameover_menu.restart && !a.gameover_menu.mainmenu ==> {
            &&& after_gameover_menu(a).screen == Screen::Playing
            &&& after_gameover_menu(a).main_menu.play
            &&& gameover_command(a) == RunCommand::ResetRun
        },
        !a.gameover_menu.restart && !a.gameover_menu.mainmenu ==> {
            &&& gameover_command(a) == RunCommand::Keep
            &&& after_gameover_menu(a) == App {
                quit_requested: a.quit_requested || a.gameover_menu.quit,
                ..a
            }
        },
{
}

impl App {
    /// The flow when the game starts.
    pub fn initialize() -> (app: Self)
        ensures
            app == initial_app(),
    {
        App {
            screen: Screen::MainMenu,
            quit_requested: false,
            main_menu: MainMenu::initialize(),
            pause_menu: PauseMenu::initialize(),
            gameover_menu: GameOverMenu::initialize(),
            wave_shop_menu: WaveShopMenu::initialize(),
        }
    }

    /// The frame's first decision. A quit already requested stops the game;
    /// on the main menu its choices are applied (stopping if quit was
    /// chosen); while playing a gameplay step is due; the other screens wait
    /// for their menus.
    pub fn update(&mut self) -> (step: UpdateStep)
        ensures
            old(self).quit_requested ==> step == UpdateStep::Stop && *final(self) == *old(self),
            !old(self).quit_requested && old(self).screen == Screen::MainMenu ==> {
                &&& *final(self) == after_main_menu(*old(self))
                &&& step == (if final(self).quit_requested {
                    UpdateStep::Stop
                } else {
                    UpdateStep::Continue
                })
            },
            !old(self).quit_requested && old(self).screen == Screen::Playing ==> {
                &&& step == UpdateStep::PlayFrame
                &&& *final(self) == *old(self)
            },
            !old(self).quit_requested && old(self).screen != Screen::MainMenu && old(
                self,
            ).screen != Screen::Playing ==> {
                &&& step == UpdateStep::Continue
                &&& *final(self) == *old(self)
            },
    {
        if self.quit_requested {
            return UpdateStep::Stop;
        }
        match self.screen {
            Screen::MainMenu => self.update_main_menu(),
            Screen::Playing => {
                return UpdateStep::PlayFrame;
            },
            Screen::Shop => {},
            Screen::Paused => {},
            Screen::GameOver => {},
        }
        if self.quit_requested {
            UpdateStep::Stop
        } else {
            UpdateStep::Continue
        }
    }

    /// Whether the run is frozen behind a menu (shop, pause or game over).
    pub fn is_paused(&self) -> (paused: bool)
        ensures
            paused == (self.screen == Screen::Shop || self.screen == Screen::Paused
                || self.screen == Screen::GameOver),
    {
        self.screen == Screen::Shop || self.screen == Screen::Paused || self.screen
            == Screen::GameOver
    }

    /// Applies the main menu's choices.
    pub fn update_main_menu(&mut self)
        ensures
            *final(self) == after_main_menu(*old(self)),
    {
        if self.main_menu.play {
            self.screen = Screen::Playing;
        }
        if self.main_menu.quit {
            self.quit_requested = true;
        }
    }

    /// Applies the event of a gameplay step; the returned command tells the
    /// caller whether to clear the arena for the shop.
    pub fn update_gameplay(&mut self, event: RunEvent) -> (command: RunCommand)
        ensures
            *final(self) == after_gameplay(*old(self), event),
            command == gameplay_command(event),
    {
        match event {
            RunEvent::Ongoing => {},
            RunEvent::WaveComplete => {
                self.enter_wave_shop();
                return RunCommand::EnterShop;
            },
            RunEvent::PlayerDied => {
                self.gameover_menu.draw = true;
            },
        }
        if !self.pause_menu.resume {
            self.screen = Screen::Paused;
        } else if self.gameover_menu.draw {
            self.screen = Screen::GameOver;
        }
        RunCommand::Keep
    }

    /// Opens the shop with fresh choices.
    pub fn enter_wave_shop(&mut self)
        ensures
            *final(self) == after_enter_shop(*old(self)),
    {
        self.wave_shop_menu.reset();
        self.screen = Screen::Shop;
    }

    /// Puts the menus in the state of a restarted run.
    pub fn reset_run(&mut self)
        ensures
            *final(self) == reset_menus(*old(self)),
    {
        self.gameover_menu.draw = false;
        self.pause_menu.mainmenu = false;
        self.pause_menu.resume = true;
        self.pause_menu.restart = false;
        self.gameover_menu.mainmenu = false;
        self.gameover_menu.restart = false;
        self.wave_shop_menu.reset();
    }

    /// Applies the shop's choices.
    pub fn update_wave_shop_menu(&mut self) -> (command: RunCommand)
        ensures
            *final(self) == after_wave_shop_menu(*old(self)),
            command == wave_shop_command(*old(self)),
    {
        let mut command = RunCommand::Keep;
        if self.wave_shop_menu.continue_run {
            command = RunCommand::StartNextWave;
            self.wave_shop_menu.reset();
            self.screen = Screen::Playing;
        }
        if self.wave_shop_menu.mainmenu {
            self.reset_run();
            command = RunCommand::ResetRun;
            self.main_menu.play = false;
            self.screen = Screen::MainMenu;
        }
        if self.wave_shop_menu.quit {
            self.quit_requested = true;
        }
        command
    }

    /// Applies the pause menu's choices.
    pub fn update_pause_menu(&mut self) -> (command: RunCommand)
        ensures
            *final(self) == after_pause_menu(*old(self)),
            command == pause_command(*old(self)),
    {
        let mut command = RunCommand::Keep;
        if self.pause_menu.mainmenu || self.pause_menu.restart {
            let return_to_main_menu = self.pause_menu.mainmenu;
            self.reset_run();
            command = RunCommand::ResetRun;
            self.main_menu.play = !return_to_main_menu;
            self.screen = if return_to_main_menu {
                Screen::MainMenu
            } else {
                Screen::Playing
            };
        } else if self.pause_menu.resume {
            self.screen = Screen::Playing;
        }
        if self.pause_menu.quit {
            self.quit_requested = true;
        }
        command
    }

    /// Applies the game-over menu's choices.
    pub fn update_gameover_menu(&mut self) -> (command: RunCommand)
        ensures
            *final(self) == after_gameover_menu(*old(self)),
            command == gameover_command(*old(self)),
    {
        let mut command = RunCommand::Keep;
        if self.gameover_menu.mainmenu || self.gameover_menu.restart {
            let return_to_main_menu = self.gameover_menu.mainmenu;
            self.reset_run();
            command = RunCommand::ResetRun;
            self.main_menu.play = !return_to_main_menu;
            self.screen = if return_to_main_menu {
                Screen::MainMenu
            } else {
                Screen::Playing
            };
        }
        if self.gameover_menu.quit {
            self.quit_requested = true;
        }
        command
    }
}

} // verus!

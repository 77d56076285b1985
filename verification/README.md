# topdown_shooter

A top-down wave shooter built on macroquad. The rules of the game are a
Verus-verified library; the window, drawing, input polling, floating-point
movement and collision live in the program around it.

- `src/` — the verified library:
  - `app`: the screen flow (main menu, playing, shop, pause, game over) as a
    state machine whose transitions return the command to apply to the run;
  - `menus`: the choices recorded by each menu;
  - `game_run`: gameplay events and paying for upgrades;
  - `run_state`: wave number, materials, spawn sizes;
  - `shop`: the upgrade catalogue and its prices;
  - `enemies`: the enemy roster, kill counting and spawn batch sizes;
  - `culling`: removing marked elements from a list, order preserved;
  - `inventory`, `input`, `settings`, `assets`, `global_constants`.
- `tests/` — executable tests of the library.
- `app/` — the macroquad program: rendering, textures, fonts, UI widgets,
  floating-point physics and timers, and the main loop that feeds the
  verified screen flow.

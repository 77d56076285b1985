//! Game rules of a top-down wave shooter: run progression, the upgrade shop,
//! the screen flow between menus and gameplay, enemy bookkeeping, the
//! inventory, and player input decoding.

pub mod app;
pub mod assets;
pub mod culling;
pub mod enemies;
pub mod game_run;
pub mod global_constants;
pub mod input;
pub mod inventory;
pub mod menus;
pub mod run_state;
pub mod settings;
pub mod shop;

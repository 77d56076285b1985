use vstd::prelude::*;

verus! {

pub const BACKGROUND_MAP: &'static str = "assets/background_map.png";

pub const PLAYER_IDLE: &'static str = "assets\\topdown_shooter_assets\\sPlayerIdle_strip4.png";

pub const PLAYER_RUN: &'static str = "assets\\topdown_shooter_assets\\sPlayerRun_strip7.png";

pub const ENEMY_RUN: &'static str = "assets\\topdown_shooter_assets\\sEnemy_strip7.png";

pub const GUN: &'static str = "assets\\topdown_shooter_assets\\sGun.png";

pub const BULLET: &'static str = "assets\\topdown_shooter_assets\\sBullet.png";

pub const UI_FONT: &'static str = "assets/ui_assets/The Bomb Sound.ttf";

} // verus!

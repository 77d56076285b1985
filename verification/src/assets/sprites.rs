use vstd::prelude::*;

use super::paths;
use super::SpriteSheetSpec;

verus! {

/// The player standing still: four frames of forty by forty pixels.
pub fn player_idle() -> (spec: SpriteSheetSpec)
    ensures
        spec.path == paths::PLAYER_IDLE,
        spec.animation_name == paths::PLAYER_IDLE,
        spec.row == 0,
        spec.frames == 4,
        spec.fps == 12,
        spec.tile_width == Some(40u32),
        spec.tile_height == Some(40u32),
{
    SpriteSheetSpec {
        path: paths::PLAYER_IDLE,
        animation_name: paths::PLAYER_IDLE,
        row: 0,
        frames: 4,
        fps: 12,
        tile_width: Some(40),
        tile_height: Some(40),
    }
}

/// The player running: seven frames of forty by forty pixels.
pub fn player_run() -> (spec: SpriteSheetSpec)
    ensures
        spec.path == paths::PLAYER_RUN,
        spec.animation_name == paths::PLAYER_RUN,
        spec.row == 0,
        spec.frames == 7,
        spec.fps == 12,
        spec.tile_width == Some(40u32),
        spec.tile_height == Some(40u32),
{
    SpriteSheetSpec {
        path: paths::PLAYER_RUN,
        animation_name: paths::PLAYER_RUN,
        row: 0,
        frames: 7,
        fps: 12,
        tile_width: Some(40),
        tile_height: Some(40),
    }
}

/// An enemy running: seven frames; the tile size comes from the sheet.
pub fn enemy_run() -> (spec: SpriteSheetSpec)
    ensures
        spec.path == paths::ENEMY_RUN,
        spec.animation_name == "run",
        spec.row == 0,
        spec.frames == 7,
        spec.fps == 12,
        spec.tile_width.is_none(),
        spec.tile_height.is_none(),
{
    SpriteSheetSpec {
        path: paths::ENEMY_RUN,
        animation_name: "run",
        row: 0,
        frames: 7,
        fps: 12,
        tile_width: None,
        tile_height: None,
    }
}

} // verus!

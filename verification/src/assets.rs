use vstd::prelude::*;

pub mod paths;
pub mod sprites;

verus! {

/// How a sprite sheet is laid out: where it is, which row holds the
/// animation, how many frames it has and how fast they play, and the size
/// of one tile when the sheet does not divide evenly by its frame count.
#[derive(Clone, Copy)]
pub struct SpriteSheetSpec {
    pub path: &'static str,
    pub animation_name: &'static str,
    pub row: u32,
    pub frames: u32,
    pub fps: u32,
    pub tile_width: Option<u32>,
    pub tile_height: Option<u32>,
}

} // verus!

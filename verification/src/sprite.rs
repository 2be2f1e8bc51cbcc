//! The single crab sprite sheet and the frame grid it is cut into.
use vstd::prelude::*;

verus! {

#[derive(Debug, Copy, Clone, PartialEq, Eq, Structural)]
pub enum SpriteName {
    Crab,
}

/// Where a sprite sheet is and how its frames are laid out.
pub struct SpriteParams {
    pub path: &'static str,
    pub h_frames: u32,
    pub v_frames: u32,
}

/// Where the sheet of `sprite_name` is and how many frames it holds across and down.
pub fn get_params(sprite_name: SpriteName) -> (params: SpriteParams)
    ensures
        params.path@ == "res/crab.png"@,
        params.h_frames == 17,
        params.v_frames == 1,
{
    match sprite_name {
        SpriteName::Crab => SpriteParams { path: "res/crab.png", h_frames: 17, v_frames: 1 },
    }
}

/// The size of one frame of the sheet of `sprite_name`, given its image's size.
pub fn frame_size(sprite_name: SpriteName, image_width: u32, image_height: u32) -> (size: (u32, u32))
    ensures
        size.0 == image_width / 17,
        size.1 == image_height,
{
    let params = get_params(sprite_name);
    (image_width / params.h_frames, image_height / params.v_frames)
}

} // verus!

use vstd::prelude::*;

verus! {

/// What the core needs of an animated texture: the display size of one
/// frame, in tenths of a world unit. Loading and decoding the texture is the
/// rendering backend's business; it hands the core these two numbers.
#[derive(Clone, Copy, PartialEq, Eq, Structural, Debug)]
pub struct Sprite {
    pub width: u32,
    pub height: u32,
}

impl Sprite {
    pub fn new(width: u32, height: u32) -> (r: Sprite)
        ensures
            r == (Sprite { width, height }),
    {
        Sprite { width, height }
    }
}

} // verus!

use crate::sprite::Sprite;
use vstd::prelude::*;

verus! {

/// Draw strategy of an entity: an optional sprite and a display scale
/// factor, stored in tenths (a value of 15 scales by 1.5). Its only duty in
/// the core is the size query used to lay the owning entity out.
pub struct DrawSystem {
    pub sprite: Option<Sprite>,
    pub scale_tenths: u8,
}

/// A sprite dimension scaled by a factor given in tenths, rounded down.
pub open spec fn scaled(dim: u32, scale_tenths: u8) -> int {
    (dim * scale_tenths) / 10
}

impl DrawSystem {
    /// The size the entity will occupy on screen, or `None` when there is no
    /// sprite to measure.
    pub open spec fn size_spec(&self) -> Option<(int, int)> {
        match self.sprite {
            Some(s) => Some(
                (scaled(s.width, self.scale_tenths), scaled(s.height, self.scale_tenths)),
            ),
            None => None,
        }
    }

    pub fn new(sprite: Option<Sprite>, scale_tenths: u8) -> (r: DrawSystem)
        ensures
            r.sprite == sprite,
            r.scale_tenths == scale_tenths,
    {
        DrawSystem { sprite, scale_tenths }
    }

    pub fn get_size(&self) -> (r: Option<(i64, i64)>)
        ensures
            r matches Some(wh) ==> self.size_spec() == Some((wh.0 as int, wh.1 as int)),
            r is Some <==> self.size_spec() is Some,
            r matches Some(wh) ==> 0 <= wh.0 && 0 <= wh.1,
    {
        match &self.sprite {
            Some(s) => {
                let sw: u64 = s.width as u64;
                let sh: u64 = s.height as u64;
                let st: u64 = self.scale_tenths as u64;
                proof {
                    assert(sw * st < 0x10000000000 && sh * st < 0x10000000000)
                        by (nonlinear_arith)
                        requires sw < 0x100000000, sh < 0x100000000, st < 0x100;
                }
                let w: u64 = sw * st / 10;
                let h: u64 = sh * st / 10;
                Some((w as i64, h as i64))
            },
            None => None,
        }
    }
}

} // verus!

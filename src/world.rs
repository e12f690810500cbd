//! The static level: platforms fixed when the world is made.
use vstd::prelude::*;
use crate::geometry::Rect;

verus! {

/// The level geometry: an ordered list of platforms.
#[derive(Debug)]
pub struct World {
    pub platforms: Vec<Rect>,
}

impl World {
    /// Every platform is a well-formed box.
    pub open spec fn wf(&self) -> bool {
        forall|i: int| 0 <= i < self.platforms@.len() ==> (#[trigger] self.platforms@[i]).valid()
    }

    /// The level of a new game, in pixels: two floating platforms at
    /// (200, 450) and (400, 350), 100 by 20; a ground from (-200, 550),
    /// 1000 by 100; a wall at (0, 0), 100 by 1000.
    pub fn new() -> (r: World)
        ensures
            r.platforms@ == seq![
                Rect { x: 200_000, y: 450_000, w: 100_000, h: 20_000 },
                Rect { x: 400_000, y: 350_000, w: 100_000, h: 20_000 },
                Rect { x: -200_000i64, y: 550_000, w: 1_000_000, h: 100_000 },
                Rect { x: 0, y: 0, w: 100_000, h: 1_000_000 },
            ],
            r.wf(),
    {
        World {
            platforms: vec![
                Rect::new(200_000, 450_000, 100_000, 20_000),
                Rect::new(400_000, 350_000, 100_000, 20_000),
                Rect::new(-200_000, 550_000, 1_000_000, 100_000),
                Rect::new(0, 0, 100_000, 1_000_000),
            ],
        }
    }

    /// Advances the level by one frame; the level is static, so nothing changes.
    pub fn update(&mut self)
        ensures
            final(self).platforms@ == old(self).platforms@,
    {
    }
}

} // verus!

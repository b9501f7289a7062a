//! The texture transform: a translate that selects a frame inside a
//! texture atlas, composed with a scale that selects the region size.
//! Both are kept as exact ratios of pixel offsets over the texture
//! extent; they apply to texture coordinates, never to geometry.

use vstd::prelude::*;
use crate::helpers::data::Frac;

verus! {

pub struct TextureTransform {
    /// Frame selection in normalized units: pixel offset over extent.
    pub translate: (Frac, Frac),
    /// Region size as a fraction of the extent.
    pub scale: (Frac, Frac),
    pub width: u32,
    pub height: u32,
}

impl TextureTransform {
    /// A well-formed transform belongs to a texture with a nonempty
    /// extent and holds well-formed ratios.
    pub open spec fn wf(self) -> bool {
        &&& self.width > 0
        &&& self.height > 0
        &&& self.translate.0.wf()
        &&& self.translate.1.wf()
        &&& self.scale.0.wf()
        &&& self.scale.1.wf()
    }

    /// The identity transform for a texture of the given extent: frame
    /// at the origin, full-size region.
    pub fn new(width: u32, height: u32) -> (r: TextureTransform)
        requires
            width > 0,
            height > 0,
        ensures
            r.width == width,
            r.height == height,
            r.translate == ((Frac { num: 0, den: 1 }), (Frac { num: 0, den: 1 })),
            r.scale == ((Frac { num: 1, den: 1 }), (Frac { num: 1, den: 1 })),
            r.wf(),
    {
        TextureTransform {
            translate: (Frac::zero(), Frac::zero()),
            scale: (Frac::one(), Frac::one()),
            width,
            height,
        }
    }

    pub fn set_scale(&mut self, x: Frac, y: Frac)
        ensures
            *final(self) == (TextureTransform { scale: (x, y), ..*old(self) }),
    {
        self.scale = (x, y);
    }

    /// Selects the frame whose top-left pixel offset is `(x, y)`: the
    /// stored translate becomes exactly `(x / width, y / height)`.
    pub fn set_frame(&mut self, x: i64, y: i64)
        requires
            old(self).width > 0,
            old(self).height > 0,
        ensures
            *final(self) == (TextureTransform {
                translate: (
                    (Frac { num: x, den: old(self).width as i64 }),
                    (Frac { num: y, den: old(self).height as i64 }),
                ),
                ..*old(self)
            }),
    {
        let tx = Frac::new(x, self.width as i64);
        let ty = Frac::new(y, self.height as i64);
        self.translate = (tx, ty);
    }
}

impl Clone for TextureTransform {
    fn clone(&self) -> (r: TextureTransform)
        ensures
            r == *self,
    {
        TextureTransform {
            translate: self.translate,
            scale: self.scale,
            width: self.width,
            height: self.height,
        }
    }
}

} // verus!

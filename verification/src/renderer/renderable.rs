//! The interface between the batch renderer and anything it can draw.
//! The engine draws textured quads; a renderable hands over its texture
//! handle and its four cached vertices.

use vstd::prelude::*;
use crate::helpers::data::Frac;
use crate::sprite::SpriteVertex;

verus! {

/// Read access to one vertex of a renderable quad.
pub trait RenderVertex {
    spec fn position_spec(&self) -> (i64, i64, i64);

    spec fn uv_spec(&self) -> (Frac, Frac);

    spec fn color_spec(&self) -> (Frac, Frac, Frac, Frac);

    spec fn texture_translate_spec(&self) -> (Frac, Frac, Frac);

    spec fn texture_scale_spec(&self) -> (Frac, Frac, Frac);

    fn position(&self) -> (r: (i64, i64, i64))
        ensures
            r == self.position_spec(),
    ;

    fn uv(&self) -> (r: (Frac, Frac))
        ensures
            r == self.uv_spec(),
    ;

    fn color(&self) -> (r: (Frac, Frac, Frac, Frac))
        ensures
            r == self.color_spec(),
    ;

    fn texture_translate(&self) -> (r: (Frac, Frac, Frac))
        ensures
            r == self.texture_translate_spec(),
    ;

    fn texture_scale(&self) -> (r: (Frac, Frac, Frac))
        ensures
            r == self.texture_scale_spec(),
    ;
}

/// What the batch renderer asks of anything it draws: the texture it
/// samples and the four vertices of its quad.
pub trait Renderable2D {
    spec fn texture_spec(&self) -> u32;

    spec fn vertices_spec(&self) -> Seq<SpriteVertex>;

    fn texture(&self) -> (r: u32)
        ensures
            r == self.texture_spec(),
    ;

    fn vertices(&self) -> (r: Vec<SpriteVertex>)
        ensures
            r@ == self.vertices_spec(),
    ;
}

} // verus!

//! Sprites: positioned, textured quads with a cached vertex array that
//! is recomputed on every change.

pub mod animation;

use vstd::prelude::*;
use crate::helpers::data::Frac;
use crate::helpers::ident::fresh_id;
use crate::renderer::renderable::{Renderable2D, RenderVertex};
use crate::textures::texture::Texture;
use crate::textures::transform::TextureTransform;

verus! {

/// One corner of a sprite's quad, with every attribute the batch
/// shader consumes except the texture slot, which is resolved at
/// submit time.
#[derive(Clone, Copy, Debug, PartialEq)]
pub struct SpriteVertex {
    pub pos: (i64, i64, i64),
    pub tex: (Frac, Frac),
    pub color: (Frac, Frac, Frac, Frac),
    pub tex_translate: (Frac, Frac, Frac),
    pub tex_scale: (Frac, Frac, Frac),
}

impl RenderVertex for SpriteVertex {
    open spec fn position_spec(&self) -> (i64, i64, i64) {
        self.pos
    }

    open spec fn uv_spec(&self) -> (Frac, Frac) {
        self.tex
    }

    open spec fn color_spec(&self) -> (Frac, Frac, Frac, Frac) {
        self.color
    }

    open spec fn texture_translate_spec(&self) -> (Frac, Frac, Frac) {
        self.tex_translate
    }

    open spec fn texture_scale_spec(&self) -> (Frac, Frac, Frac) {
        self.tex_scale
    }

    fn position(&self) -> (i64, i64, i64) {
        self.pos
    }

    fn uv(&self) -> (Frac, Frac) {
        self.tex
    }

    fn color(&self) -> (Frac, Frac, Frac, Frac) {
        self.color
    }

    fn texture_translate(&self) -> (Frac, Frac, Frac) {
        self.tex_translate
    }

    fn texture_scale(&self) -> (Frac, Frac, Frac) {
        self.tex_scale
    }
}

/// Construction properties of a sprite: position, pixel size, color
/// (channels over 255 plus an exact alpha ratio), and a texture unit
/// hint.
#[derive(Clone, Copy, Debug, PartialEq)]
pub struct SpriteProps {
    pub pos: (i32, i32, i32),
    pub dim: (u32, u32),
    pub color: (u8, u8, u8, Frac),
    pub texture_slot: u32,
}

impl Default for SpriteProps {
    fn default() -> (r: SpriteProps)
        ensures
            r == (SpriteProps {
                pos: (0, 0, 0),
                dim: (0, 0),
                color: (255, 255, 255, (Frac { num: 1, den: 1 })),
                texture_slot: 0,
            }),
    {
        SpriteProps { pos: (0, 0, 0), dim: (0, 0), color: (255, 255, 255, Frac::one()), texture_slot: 0 }
    }
}

/// A color with its channels normalized to exact ratios over 255; the
/// alpha ratio is passed through.
pub open spec fn normalize_color_spec(color: (u8, u8, u8, Frac)) -> (Frac, Frac, Frac, Frac) {
    (
        (Frac { num: color.0 as i64, den: 255 }),
        (Frac { num: color.1 as i64, den: 255 }),
        (Frac { num: color.2 as i64, den: 255 }),
        color.3,
    )
}

fn normalize_color(color: (u8, u8, u8, Frac)) -> (r: (Frac, Frac, Frac, Frac))
    ensures
        r == normalize_color_spec(color),
{
    (
        Frac::new(color.0 as i64, 255),
        Frac::new(color.1 as i64, 255),
        Frac::new(color.2 as i64, 255),
        color.3,
    )
}

/// The four cached vertices of a sprite, in the order the static index
/// pattern expects: top-left, top-right, bottom-left, bottom-right.
///
/// Positions are the quad corners `(x, y), (x+w, y), (x, y+h),
/// (x+w, y+h)`; texture coordinates span the unit region `(0, 0)` to
/// `(w/tw, h/th)`; the texture transform rides along as extra
/// attributes and never touches geometry.
pub open spec fn sprite_vertices_spec(
    texture: Texture,
    props: SpriteProps,
    tt: TextureTransform,
) -> Seq<SpriteVertex> {
    let x = props.pos.0 as i64;
    let y = props.pos.1 as i64;
    let x2 = (x + props.dim.0 as i64) as i64;
    let y2 = (y + props.dim.1 as i64) as i64;
    let tx = Frac { num: props.dim.0 as i64, den: texture.width as i64 };
    let ty = Frac { num: props.dim.1 as i64, den: texture.height as i64 };
    let zero = Frac { num: 0, den: 1 };
    let color = normalize_color_spec(props.color);
    let translate = (tt.translate.0, tt.translate.1, zero);
    let scale = (tt.scale.0, tt.scale.1, zero);
    seq![
        (SpriteVertex {
            pos: (x, y, 0),
            tex: (zero, zero),
            color,
            tex_translate: translate,
            tex_scale: scale,
        }),
        (SpriteVertex {
            pos: (x2, y, 0),
            tex: (tx, zero),
            color,
            tex_translate: translate,
            tex_scale: scale,
        }),
        (SpriteVertex {
            pos: (x, y2, 0),
            tex: (zero, ty),
            color,
            tex_translate: translate,
            tex_scale: scale,
        }),
        (SpriteVertex {
            pos: (x2, y2, 0),
            tex: (tx, ty),
            color,
            tex_translate: translate,
            tex_scale: scale,
        }),
    ]
}

/// Recomputes the cached vertex array.
pub fn update_vertices(texture: &Texture, props: &SpriteProps, texture_transform: &TextureTransform)
    -> (r: Vec<SpriteVertex>)
    requires
        texture.wf(),
    ensures
        r@ == sprite_vertices_spec(*texture, *props, *texture_transform),
{
    let x = props.pos.0 as i64;
    let y = props.pos.1 as i64;
    let x2 = x + props.dim.0 as i64;
    let y2 = y + props.dim.1 as i64;
    let tx = Frac::new(props.dim.0 as i64, texture.width as i64);
    let ty = Frac::new(props.dim.1 as i64, texture.height as i64);
    let zero = Frac::zero();
    let color = normalize_color(props.color);
    let translate = (texture_transform.translate.0, texture_transform.translate.1, zero);
    let scale = (texture_transform.scale.0, texture_transform.scale.1, zero);
    let mut vertices: Vec<SpriteVertex> = Vec::new();
    vertices.push(SpriteVertex {
        pos: (x, y, 0),
        tex: (zero, zero),
        color,
        tex_translate: translate,
        tex_scale: scale,
    });
    vertices.push(SpriteVertex {
        pos: (x2, y, 0),
        tex: (tx, zero),
        color,
        tex_translate: translate,
        tex_scale: scale,
    });
    vertices.push(SpriteVertex {
        pos: (x, y2, 0),
        tex: (zero, ty),
        color,
        tex_translate: translate,
        tex_scale: scale,
    });
    vertices.push(SpriteVertex {
        pos: (x2, y2, 0),
        tex: (tx, ty),
        color,
        tex_translate: translate,
        tex_scale: scale,
    });
    proof {
        assert(vertices@ =~= sprite_vertices_spec(*texture, *props, *texture_transform));
    }
    vertices
}

/// Law: the four cached vertices of any well-formed sprite sit exactly
/// at the quad corners `(x, y)`, `(x+w, y)`, `(x, y+h)`, `(x+w, y+h)`
/// of its current position `(x, y)` and size `(w, h)`, whatever the
/// texture transform holds.
pub proof fn lemma_sprite_vertex_positions(s: Sprite)
    requires
        s.wf(),
    ensures
        s.vertices@.len() == 4,
        s.vertices@[0].pos.0 == s.props.pos.0 && s.vertices@[0].pos.1 == s.props.pos.1,
        s.vertices@[1].pos.0 == s.props.pos.0 + s.props.dim.0 && s.vertices@[1].pos.1
            == s.props.pos.1,
        s.vertices@[2].pos.0 == s.props.pos.0 && s.vertices@[2].pos.1 == s.props.pos.1
            + s.props.dim.1,
        s.vertices@[3].pos.0 == s.props.pos.0 + s.props.dim.0 && s.vertices@[3].pos.1
            == s.props.pos.1 + s.props.dim.1,
{
}

/// Law: the texture transform only rides along as per-vertex
/// attributes; two sprites differing only in their transform have the
/// same vertex positions, texture coordinates and colors.
pub proof fn lemma_transform_never_moves_geometry(
    texture: Texture,
    props: SpriteProps,
    tt1: TextureTransform,
    tt2: TextureTransform,
)
    ensures
        forall|i: int|
            0 <= i < 4 ==> {
                let v1 = #[trigger] sprite_vertices_spec(texture, props, tt1)[i];
                let v2 = sprite_vertices_spec(texture, props, tt2)[i];
                v1.pos == v2.pos && v1.tex == v2.tex && v1.color == v2.color
            },
{
}

/// A sprite: a texture, a texture transform, construction properties,
/// and the cached vertex array derived from them.
pub struct Sprite {
    /// A fresh random identity; the batch renderer treats a sprite
    /// submitted twice in one batch as the same drawing.
    pub id: String,
    pub vertices: Vec<SpriteVertex>,
    pub texture: Texture,
    pub texture_transform: TextureTransform,
    pub image_path: String,
    pub props: SpriteProps,
}

impl Sprite {
    /// A well-formed sprite has a nonempty texture, a transform over
    /// that texture's extent, and a vertex cache that matches its
    /// current state.
    pub open spec fn wf(self) -> bool {
        &&& self.texture.wf()
        &&& self.texture_transform.wf()
        &&& self.texture_transform.width == self.texture.width
        &&& self.texture_transform.height == self.texture.height
        &&& self.vertices@ == sprite_vertices_spec(self.texture, self.props, self.texture_transform)
    }

    /// Builds a sprite over an existing (shared) texture.
    pub fn from_texture(texture: &Texture, props: SpriteProps) -> (r: Sprite)
        requires
            texture.wf(),
        ensures
            r.wf(),
            r.texture == *texture,
            r.props == props,
            r.texture_transform.translate == (
                (Frac { num: 0, den: 1 }),
                (Frac { num: 0, den: 1 }),
            ),
            r.texture_transform.scale == ((Frac { num: 1, den: 1 }), (Frac { num: 1, den: 1 })),
            r.image_path@ == texture.image_path@,
    {
        let (tw, th) = texture.get_dimensions();
        let texture_transform = TextureTransform::new(tw, th);
        let vertices = update_vertices(texture, &props, &texture_transform);
        Sprite {
            id: fresh_id(),
            vertices,
            texture: texture.clone(),
            texture_transform,
            image_path: texture.image_path.clone(),
            props,
        }
    }

    /// Rescales the texture region and recomputes the vertex cache.
    pub fn set_texture_scale(&mut self, scale: (Frac, Frac))
        requires
            old(self).wf(),
            scale.0.wf(),
            scale.1.wf(),
        ensures
            final(self).wf(),
            final(self).texture_transform.scale == scale,
            final(self).texture_transform.translate == old(self).texture_transform.translate,
            final(self).props == old(self).props,
            final(self).texture == old(self).texture,
            final(self).id@ == old(self).id@,
    {
        self.texture_transform.set_scale(scale.0, scale.1);
        self.vertices = update_vertices(&self.texture, &self.props, &self.texture_transform);
    }

    /// Selects the atlas frame at pixel offset `(x, y)` and recomputes
    /// the vertex cache.  The stored translate becomes exactly
    /// `(x / texture width, y / texture height)`.
    pub fn set_frame(&mut self, pos: (i64, i64))
        requires
            old(self).wf(),
        ensures
            final(self).wf(),
            final(self).texture_transform.translate == (
                (Frac { num: pos.0, den: old(self).texture.width as i64 }),
                (Frac { num: pos.1, den: old(self).texture.height as i64 }),
            ),
            final(self).texture_transform.scale == old(self).texture_transform.scale,
            final(self).props == old(self).props,
            final(self).texture == old(self).texture,
            final(self).id@ == old(self).id@,
    {
        self.texture_transform.set_frame(pos.0, pos.1);
        self.vertices = update_vertices(&self.texture, &self.props, &self.texture_transform);
    }

    /// Moves the sprite and recomputes the vertex cache.
    pub fn set_position(&mut self, pos: (i32, i32, i32))
        requires
            old(self).wf(),
        ensures
            final(self).wf(),
            final(self).props == (SpriteProps { pos, ..old(self).props }),
            final(self).texture_transform == old(self).texture_transform,
            final(self).texture == old(self).texture,
            final(self).id@ == old(self).id@,
    {
        self.props.pos = pos;
        self.vertices = update_vertices(&self.texture, &self.props, &self.texture_transform);
    }

    /// The cached vertex array.
    pub fn get_vertices(&self) -> (r: &Vec<SpriteVertex>)
        ensures
            r@ == self.vertices@,
            self.wf() ==> r@ == sprite_vertices_spec(self.texture, self.props, self.texture_transform),
    {
        &self.vertices
    }
}

impl Renderable2D for Sprite {
    open spec fn texture_spec(&self) -> u32 {
        self.texture.texture_handle
    }

    open spec fn vertices_spec(&self) -> Seq<SpriteVertex> {
        self.vertices@
    }

    fn texture(&self) -> u32 {
        self.texture.texture_handle
    }

    fn vertices(&self) -> (r: Vec<SpriteVertex>) {
        let mut out: Vec<SpriteVertex> = Vec::new();
        let mut i: usize = 0;
        while i < self.vertices.len()
            invariant
                i <= self.vertices@.len(),
                out@ == self.vertices@.take(i as int),
            decreases self.vertices@.len() - i,
        {
            out.push(self.vertices[i]);
            proof {
                assert(self.vertices@.take(i as int).push(self.vertices@[i as int]) =~= self
                    .vertices@.take(i + 1));
            }
            i = i + 1;
        }
        proof {
            assert(self.vertices@.take(self.vertices@.len() as int) =~= self.vertices@);
        }
        out
    }
}

} // verus!

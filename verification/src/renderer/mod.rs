//! The batch renderer: slot assignment, batch buffer layout, index
//! generation, and the per-frame state machine that ties them together.

pub mod batch_shaders;
pub mod layers;
pub mod render_target;
pub mod renderable;

use vstd::prelude::*;
use crate::helpers::buffer::{
    Buffer,
    DynamicArrayBuffer,
    DynamicBuffer,
    ElementArrayBuffer,
    VertexArray,
};
use crate::helpers::data::Frac;
use crate::helpers::shader::Program;
use crate::helpers::strings::str_eq;
use crate::sprite::{Sprite, SpriteVertex};
use render_target::RenderTarget;

verus! {

/// Bytes of one batch vertex as the device sees it: three position
/// floats, two texture floats, four color floats, one slot float and
/// six texture-transform floats, four bytes each.
pub const BATCH_VERTEX_BYTES: usize = 64;

/// The number of sprites one batch may hold.
pub const MAX_SPRITES: usize = 1000;

/// One corner of a sprite's quad as it is staged for the device, with
/// the texture slot resolved.
#[derive(Clone, Copy, Debug, PartialEq)]
pub struct BatchVertex {
    pub pos: (i64, i64, i64),
    pub tex: (Frac, Frac),
    pub color: (Frac, Frac, Frac, Frac),
    pub tex_id: u32,
    pub tex_translate: (Frac, Frac, Frac),
    pub tex_scale: (Frac, Frac, Frac),
}

/// A sprite's vertices with the resolved texture slot attached; only
/// the slot is added, nothing else changes.
pub open spec fn batch_vertices_of(vs: Seq<SpriteVertex>, slot: u32) -> Seq<BatchVertex> {
    vs.map(
        |_i: int, v: SpriteVertex|
            BatchVertex {
                pos: v.pos,
                tex: v.tex,
                color: v.color,
                tex_id: slot,
                tex_translate: v.tex_translate,
                tex_scale: v.tex_scale,
            },
    )
}

/// The six indices of quad `k`: two triangles sharing the diagonal.
pub open spec fn index_group(k: int) -> Seq<i32> {
    seq![
        (4 * k) as i32,
        (4 * k + 1) as i32,
        (4 * k + 2) as i32,
        (4 * k + 2) as i32,
        (4 * k + 1) as i32,
        (4 * k + 3) as i32,
    ]
}

/// The static index pattern: for each quad `k`, the six indices
/// `[4k, 4k+1, 4k+2, 4k+2, 4k+1, 4k+3]`, generated once for the whole
/// batch capacity and never per frame.
pub fn generate_batch_indices(vertices_len: usize) -> (r: Vec<[i32; 6]>)
    requires
        4 * vertices_len <= i32::MAX as usize,
    ensures
        r@.len() == vertices_len,
        forall|k: int| 0 <= k < vertices_len ==> (#[trigger] r@[k])@ == index_group(k),
{
    let mut offset: i32 = 0;
    let mut indices: Vec<[i32; 6]> = Vec::new();
    let mut i: usize = 0;
    while i < vertices_len
        invariant
            4 * vertices_len <= i32::MAX as usize,
            i <= vertices_len,
            offset == 4 * i,
            indices@.len() == i,
            forall|k: int| 0 <= k < i ==> (#[trigger] indices@[k])@ == index_group(k),
        decreases vertices_len - i,
    {
        let group: [i32; 6] = [offset, offset + 1, offset + 2, offset + 2, offset + 1, offset + 3];
        proof {
            assert(group@ =~= index_group(i as int));
        }
        indices.push(group);
        offset = offset + 4;
        i = i + 1;
    }
    indices
}

/// The identity slot-to-unit mapping `0, 1, .., max - 1` uploaded to
/// the sampler array uniform.
pub fn generate_texture_slots(max: i32) -> (r: Vec<i32>)
    requires
        max >= 0,
    ensures
        r@.len() == max,
        forall|k: int| 0 <= k < max ==> r@[k] == k as i32,
{
    let mut texture_slots: Vec<i32> = Vec::new();
    let mut i: i32 = 0;
    while i < max
        invariant
            0 <= i <= max,
            texture_slots@.len() == i,
            forall|k: int| 0 <= k < i ==> texture_slots@[k] == k as i32,
        decreases max - i,
    {
        texture_slots.push(i);
        i = i + 1;
    }
    texture_slots
}

/// Whether a texture handle already has a slot.
pub open spec fn contains_handle(slots: Seq<u32>, handle: u32) -> bool {
    exists|i: int| 0 <= i < slots.len() && slots[i] == handle
}

/// The slot of a handle that has one.
pub open spec fn index_of_handle(slots: Seq<u32>, handle: u32) -> int {
    choose|i: int| 0 <= i < slots.len() && slots[i] == handle
}

/// The slot a handle resolves to: its existing slot, or the next free
/// one.
pub open spec fn resolved_slot(slots: Seq<u32>, handle: u32) -> int {
    if contains_handle(slots, handle) {
        index_of_handle(slots, handle)
    } else {
        slots.len() as int
    }
}

/// The slot table after resolving a handle: unchanged if the handle
/// was present, extended by it otherwise.
pub open spec fn slots_after(slots: Seq<u32>, handle: u32) -> Seq<u32> {
    if contains_handle(slots, handle) {
        slots
    } else {
        slots.push(handle)
    }
}

/// Slot resolution is stable within a batch: once a handle has been
/// resolved, resolving it again — after any interleaved resolutions of
/// other handles — returns the same slot and leaves the table alone.
pub proof fn lemma_slot_resolution_stable(slots: Seq<u32>, handle: u32)
    requires
        forall|i: int, j: int| 0 <= i < j < slots.len() ==> slots[i] != slots[j],
    ensures
        ({
            let first = resolved_slot(slots, handle);
            let once = slots_after(slots, handle);
            resolved_slot(once, handle) == first && slots_after(once, handle) == once
        }),
{
    let first = resolved_slot(slots, handle);
    let once = slots_after(slots, handle);
    assert(contains_handle(once, handle)) by {
        if contains_handle(slots, handle) {
        } else {
            assert(once[slots.len() as int] == handle);
        }
    }
    assert(resolved_slot(once, handle) == first) by {
        let j = index_of_handle(once, handle);
        assert(0 <= j < once.len() && once[j] == handle);
        if contains_handle(slots, handle) {
            let k = index_of_handle(slots, handle);
            assert(0 <= k < slots.len() && slots[k] == handle);
            if j != k {
                assert(once[j] == once[k]);
                assert(false);
            }
        } else {
            if j < slots.len() {
                assert(slots[j] == handle);
                assert(false);
            }
        }
    }
}

/// Whether an identity is among the submitted ones.
pub open spec fn contains_id(ids: Seq<String>, id: Seq<char>) -> bool {
    exists|i: int| 0 <= i < ids.len() && ids[i]@ == id
}

/// One issued draw: the texture handles bound in slot order, how many
/// sprites it covered, and how much of the static index pattern it
/// consumed.
pub struct DrawCall {
    pub slots: Vec<u32>,
    pub sprite_count: usize,
    pub indices_used: usize,
}

/// What one `render` call did: the draws flushed mid-batch, the final
/// draw, the slot-to-unit mapping uploaded to the sampler uniform, and
/// the composition pass's vertex count.
pub struct RenderReport {
    pub flushes: Vec<DrawCall>,
    pub draw: DrawCall,
    pub slot_units: Vec<i32>,
    pub composition_vertices: usize,
}

/// Why a renderer call failed.
#[derive(Clone, Debug, PartialEq, Eq)]
pub enum RendererError {
    /// The device reports no texture units; no batch can be drawn.
    NoTextureUnits,
    /// The viewport has an empty extent.
    InvalidViewport { width: u32, height: u32 },
}

/// The per-frame lifecycle position.
#[derive(Clone, Copy, Debug, PartialEq, Eq, Structural)]
pub enum RenderState {
    Idle,
    SceneBegun,
    BatchOpen,
    BatchClosed,
}

/// The batch renderer.  It accumulates sprites between `begin_batch`
/// and `end_batch`, assigns texture slots, stages vertices at a byte
/// offset that always stays a whole number of quads, and issues one
/// draw per batch — plus one flush draw whenever a capacity would
/// overflow mid-batch.
pub struct Renderer3D {
    pub program: Program,
    /// The staged vertices of the open batch, one group of four per
    /// accepted sprite.
    pub vertices: Vec<Vec<BatchVertex>>,
    pub indices: Vec<[i32; 6]>,
    pub vbo: DynamicArrayBuffer,
    pub vao: VertexArray,
    pub ibo: ElementArrayBuffer,
    pub clear_color: (u8, u8, u8, Frac),
    pub max_textures: usize,
    pub max_sprites: usize,
    pub texture_slots: Vec<u32>,
    pub sprite_count: usize,
    /// The identities submitted in the current batch; a repeated
    /// identity is a no-op.
    pub submitted_ids: Vec<String>,
    /// Draws issued mid-batch because a capacity was reached.
    pub flushes: Vec<DrawCall>,
    pub render_target: Option<RenderTarget>,
    pub state: RenderState,
}

impl Renderer3D {
    pub open spec fn wf(self) -> bool {
        &&& self.max_textures >= 1
        &&& self.max_textures <= i32::MAX as usize
        &&& self.max_sprites == MAX_SPRITES
        &&& self.indices@.len() == self.max_sprites
        &&& (forall|k: int|
            0 <= k < self.indices@.len() ==> (#[trigger] self.indices@[k])@ == index_group(k))
        &&& self.vbo.max_buffer_size == self.max_sprites * 4 * BATCH_VERTEX_BYTES
        &&& self.texture_slots@.len() <= self.max_textures
        &&& (forall|i: int, j: int|
            0 <= i < j < self.texture_slots@.len() ==> self.texture_slots@[i]
                != self.texture_slots@[j])
        &&& self.sprite_count <= self.max_sprites
        &&& self.vbo.buffer_offset == self.sprite_count * 4 * BATCH_VERTEX_BYTES
        &&& (forall|i: int|
            0 <= i < self.vertices@.len() ==> (#[trigger] self.vertices@[i])@.len() == 4)
        &&& self.vertices@.len() <= self.max_sprites
        &&& (self.state == RenderState::BatchOpen ==> self.vbo.bound && self.sprite_count
            == self.vertices@.len())
        &&& (self.state != RenderState::BatchOpen ==> !self.vbo.bound)
        &&& (self.state == RenderState::BatchClosed ==> self.sprite_count == 0)
        &&& (self.state != RenderState::Idle ==> self.render_target is Some)
        &&& (match self.render_target {
            Some(rt) => rt.wf(),
            None => true,
        })
    }

    /// Builds a renderer for a device with `max_textures` texture
    /// units.  Fails exactly when the device reports none.
    pub fn new(max_textures: usize) -> (r: Result<Renderer3D, RendererError>)
        requires
            max_textures <= i32::MAX as usize,
        ensures
            r is Ok <==> max_textures >= 1,
            r matches Ok(rend) ==> {
                &&& rend.wf()
                &&& rend.max_textures == max_textures
                &&& rend.state == RenderState::Idle
                &&& rend.texture_slots@ == Seq::<u32>::empty()
                &&& rend.vertices@ == Seq::<Vec<BatchVertex>>::empty()
                &&& rend.submitted_ids@ == Seq::<String>::empty()
                &&& rend.flushes@ == Seq::<DrawCall>::empty()
                &&& rend.sprite_count == 0
                &&& rend.render_target is None
                &&& rend.clear_color == (255u8, 255u8, 255u8, (Frac { num: 1, den: 1 }))
            },
            r matches Err(e) ==> e == RendererError::NoTextureUnits,
    {
        if max_textures == 0 {
            return Err(RendererError::NoTextureUnits);
        }
        let max_buffer_size: usize = MAX_SPRITES * 4 * BATCH_VERTEX_BYTES;
        let indices = generate_batch_indices(MAX_SPRITES);
        let mut vbo: DynamicArrayBuffer = DynamicBuffer::new(max_buffer_size);
        let mut vao = VertexArray::new();
        let mut ibo: ElementArrayBuffer = Buffer::new();

        vbo.bind();
        vbo.set_buffer_data();
        vao.bind();
        ibo.bind();
        ibo.static_draw_data(MAX_SPRITES * 6 * 4);
        ibo.unbind();
        vbo.unbind();
        vao.unbind();

        Ok(Renderer3D {
            program: Program::from_parts(0, "internal/shaders/batch".to_owned()),
            vertices: Vec::new(),
            indices,
            vbo,
            vao,
            ibo,
            clear_color: (255, 255, 255, Frac::one()),
            max_textures,
            max_sprites: MAX_SPRITES,
            texture_slots: Vec::new(),
            sprite_count: 0,
            submitted_ids: Vec::new(),
            flushes: Vec::new(),
            render_target: None,
            state: RenderState::Idle,
        })
    }

    /// Opens the frame.  On first use the render target is built for
    /// the camera's viewport — failing exactly when that viewport is
    /// empty — and on later frames the existing one is reused.
    pub fn begin_scene(&mut self, width: u32, height: u32) -> (r: Result<(), RendererError>)
        requires
            old(self).wf(),
            old(self).state == RenderState::Idle,
        ensures
            r is Ok <==> (old(self).render_target is Some || (width > 0 && height > 0)),
            r is Ok ==> {
                &&& final(self).wf()
                &&& final(self).render_target is Some
                &&& *final(self) == (Renderer3D {
                    state: RenderState::SceneBegun,
                    render_target: final(self).render_target,
                    ..*old(self)
                })
                &&& (old(self).render_target matches Some(rt) ==> final(self).render_target
                    == Some(rt))
                &&& (old(self).render_target is None ==> (final(self).render_target matches Some(
                    rt,
                ) && rt.frame_buffer.texture.width == width && rt.frame_buffer.texture.height
                    == height && !rt.frame_buffer.bound && rt.program.id == 0 && rt.program.name@
                    == "internal/shaders/render_target"@))
            },
            r is Err ==> *final(self) == *old(self),
            r matches Err(e) ==> e == (RendererError::InvalidViewport { width, height }),
    {
        if self.render_target.is_none() {
            match RenderTarget::new(width, height) {
                Ok(rt) => {
                    self.render_target = Some(rt);
                },
                Err(_) => {
                    return Err(RendererError::InvalidViewport { width, height });
                },
            }
        }
        self.state = RenderState::SceneBegun;
        Ok(())
    }

    /// Replaces the composition program, building a small render
    /// target first if none exists yet.
    pub fn set_ppe_program(&mut self, program: &Program)
        requires
            old(self).wf(),
        ensures
            final(self).wf(),
            final(self).render_target is Some,
            *final(self) == (Renderer3D {
                render_target: final(self).render_target,
                ..*old(self)
            }),
            final(self).render_target matches Some(rt) ==> {
                &&& rt.program.id == program.id
                &&& rt.program.name@ == program.name@
            },
            old(self).render_target matches Some(rt) ==> (final(self).render_target matches Some(
                rt2,
            ) && rt2.frame_buffer == rt.frame_buffer && rt2.vertices@ == rt.vertices@ && rt2.vbo
                == rt.vbo && rt2.vao == rt.vao),
            old(self).render_target is None ==> (final(self).render_target matches Some(rt)
                && rt.frame_buffer.texture.width == 10 && rt.frame_buffer.texture.height == 10),
    {
        if self.render_target.is_none() {
            match RenderTarget::new(10, 10) {
                Ok(rt) => {
                    self.render_target = Some(rt);
                },
                Err(_) => {
                    proof {
                        assert(false);
                    }
                },
            }
        }
        match &mut self.render_target {
            Some(rt) => {
                rt.set_program(program.clone());
            },
            None => {
                proof {
                    assert(false);
                }
            },
        }
    }

    /// Closes the frame; nothing is torn down.
    pub fn end_scene(&mut self)
        ensures
            *final(self) == *old(self),
    {
    }

    /// Opens the batch buffer for writing and rewinds its offset.
    pub fn begin_batch(&mut self)
        requires
            old(self).wf(),
            old(self).state == RenderState::SceneBegun,
            old(self).sprite_count == 0,
            old(self).vertices@.len() == 0,
        ensures
            final(self).wf(),
            *final(self) == (Renderer3D {
                vbo: (DynamicBuffer { bound: true, buffer_offset: 0, ..old(self).vbo }),
                state: RenderState::BatchOpen,
                ..*old(self)
            }),
    {
        self.vbo.bind();
        self.vbo.reset_buffer_offset();
        self.state = RenderState::BatchOpen;
    }

    /// Finalizes the batch buffer: the offset rewinds and the buffer
    /// is unbound.  No drawing happens here.
    pub fn end_batch(&mut self)
        requires
            old(self).wf(),
            old(self).state == RenderState::BatchOpen,
        ensures
            final(self).wf(),
            *final(self) == (Renderer3D {
                sprite_count: 0,
                vbo: (DynamicBuffer { bound: false, buffer_offset: 0, ..old(self).vbo }),
                state: RenderState::BatchClosed,
                ..*old(self)
            }),
    {
        self.sprite_count = 0;
        self.vbo.reset_buffer_offset();
        self.vbo.unbind();
        self.state = RenderState::BatchClosed;
    }

    /// Issues the pending draw and clears the per-draw state, so that
    /// the open batch can keep accepting sprites.
    fn flush(&mut self)
        requires
            old(self).wf(),
            old(self).state == RenderState::BatchOpen,
        ensures
            final(self).wf(),
            final(self).state == RenderState::BatchOpen,
            final(self).flushes@.len() == old(self).flushes@.len() + 1,
            final(self).flushes@ == old(self).flushes@.push(final(self).flushes@.last()),
            final(self).flushes@.last().slots@ == old(self).texture_slots@,
            final(self).flushes@.last().sprite_count == old(self).sprite_count,
            final(self).flushes@.last().indices_used == 6 * old(self).sprite_count,
            final(self).texture_slots@ == Seq::<u32>::empty(),
            final(self).vertices@ == Seq::<Vec<BatchVertex>>::empty(),
            final(self).sprite_count == 0,
            final(self).vbo.buffer_offset == 0,
            final(self).submitted_ids@ == old(self).submitted_ids@,
            final(self).render_target == old(self).render_target,
            final(self).max_textures == old(self).max_textures,
            final(self).max_sprites == old(self).max_sprites,
            final(self).program == old(self).program,
            final(self).clear_color == old(self).clear_color,
            final(self).indices@ == old(self).indices@,
            final(self).vao == old(self).vao,
            final(self).ibo == old(self).ibo,
            final(self).vbo.bound == old(self).vbo.bound,
            final(self).vbo.max_buffer_size == old(self).vbo.max_buffer_size,
    {
        let count = self.sprite_count;
        let slots = self.texture_slots.split_off(0);
        proof {
            assert(self.texture_slots@ =~= Seq::<u32>::empty());
        }
        let indices_used = 6 * count;
        self.flushes.push(DrawCall { slots, sprite_count: count, indices_used });
        self.vertices.clear();
        self.sprite_count = 0;
        self.vbo.reset_buffer_offset();
    }

    /// Submits a sprite to the open batch.
    ///
    /// A sprite whose identity was already submitted in this batch is
    /// a no-op.  Otherwise its texture resolves to a slot — the
    /// existing one if the handle is already in the table, the next
    /// free one if not — and its four vertices, with the slot
    /// attached, are staged at the current buffer offset, which then
    /// advances by exactly one quad.  If the batch is full, or the
    /// slot table is full and the handle is new, the pending draw is
    /// flushed first and the sprite lands in the fresh draw.
    pub fn submit(&mut self, sprite: &Sprite)
        requires
            old(self).wf(),
            old(self).state == RenderState::BatchOpen,
            sprite.wf(),
        ensures
            final(self).wf(),
            final(self).state == RenderState::BatchOpen,
            contains_id(old(self).submitted_ids@, sprite.id@) ==> *final(self) == *old(self),
            !contains_id(old(self).submitted_ids@, sprite.id@) ==> {
                let h = sprite.texture.texture_handle;
                let flushed = old(self).sprite_count >= old(self).max_sprites || (!contains_handle(
                    old(self).texture_slots@,
                    h,
                ) && old(self).texture_slots@.len() >= old(self).max_textures);
                let base_slots = if flushed {
                    Seq::<u32>::empty()
                } else {
                    old(self).texture_slots@
                };
                let base_vertices = if flushed {
                    Seq::<Vec<BatchVertex>>::empty()
                } else {
                    old(self).vertices@
                };
                let base_count = if flushed {
                    0int
                } else {
                    old(self).sprite_count as int
                };
                let slot = resolved_slot(base_slots, h);
                &&& final(self).texture_slots@ == slots_after(base_slots, h)
                &&& final(self).vertices@.len() == base_vertices.len() + 1
                &&& final(self).vertices@.last()@ == batch_vertices_of(
                    sprite.vertices@,
                    slot as u32,
                )
                &&& (forall|i: int|
                    0 <= i < base_vertices.len() ==> final(self).vertices@[i] == base_vertices[i])
                &&& final(self).sprite_count == base_count + 1
                &&& final(self).vbo.buffer_offset == (base_count + 1) * 4 * BATCH_VERTEX_BYTES
                &&& final(self).submitted_ids@.len() == old(self).submitted_ids@.len() + 1
                &&& final(self).submitted_ids@.last()@ == sprite.id@
                &&& (forall|i: int|
                    0 <= i < old(self).submitted_ids@.len() ==> final(self).submitted_ids@[i]
                        == old(self).submitted_ids@[i])
                &&& (flushed ==> {
                    &&& final(self).flushes@.len() == old(self).flushes@.len() + 1
                    &&& final(self).flushes@.last().slots@ == old(self).texture_slots@
                    &&& final(self).flushes@.last().sprite_count == old(self).sprite_count
                    &&& final(self).flushes@.last().indices_used == 6 * old(self).sprite_count
                    &&& (forall|i: int|
                        0 <= i < old(self).flushes@.len() ==> final(self).flushes@[i] == old(
                            self,
                        ).flushes@[i])
                })
                &&& (!flushed ==> final(self).flushes@ == old(self).flushes@)
            },
            final(self).render_target == old(self).render_target,
            final(self).max_textures == old(self).max_textures,
            final(self).max_sprites == old(self).max_sprites,
            final(self).program == old(self).program,
            final(self).clear_color == old(self).clear_color,
            final(self).indices@ == old(self).indices@,
            final(self).vao == old(self).vao,
            final(self).ibo == old(self).ibo,
            final(self).vbo.bound == old(self).vbo.bound,
            final(self).vbo.max_buffer_size == old(self).vbo.max_buffer_size,
    {
        if self.contains_submitted(sprite) {
            return ;
        }
        let h = sprite.texture.texture_handle;
        let existing = self.find_slot(h);
        let needs_flush = self.sprite_count >= self.max_sprites || (existing.is_none()
            && self.texture_slots.len() >= self.max_textures);
        if needs_flush {
            self.flush();
        }
        let slot: u32 = match self.find_slot(h) {
            Some(s) => s as u32,
            None => {
                let s = self.texture_slots.len();
                self.texture_slots.push(h);
                proof {
                    assert(contains_handle(self.texture_slots@, h)) by {
                        assert(self.texture_slots@[s as int] == h);
                    }
                }
                s as u32
            },
        };
        let sprite_vertices = sprite.get_vertices();
        let mut batch_vertices: Vec<BatchVertex> = Vec::new();
        let mut vi: usize = 0;
        while vi < sprite_vertices.len()
            invariant
                vi <= sprite_vertices@.len(),
                batch_vertices@ == batch_vertices_of(sprite_vertices@, slot).take(vi as int),
            decreases sprite_vertices@.len() - vi,
        {
            let v = sprite_vertices[vi];
            batch_vertices.push(
                BatchVertex {
                    pos: v.pos,
                    tex: v.tex,
                    color: v.color,
                    tex_id: slot,
                    tex_translate: v.tex_translate,
                    tex_scale: v.tex_scale,
                },
            );
            vi = vi + 1;
            proof {
                assert(batch_vertices@ =~= batch_vertices_of(sprite_vertices@, slot).take(
                    vi as int,
                ));
            }
        }
        proof {
            assert(batch_vertices@ =~= batch_vertices_of(sprite_vertices@, slot));
        }
        self.vbo.upload_draw_data(4 * BATCH_VERTEX_BYTES);
        let new_offset = self.vbo.buffer_offset + 4 * BATCH_VERTEX_BYTES;
        self.vbo.set_buffer_offset(new_offset);
        self.vertices.push(batch_vertices);
        self.sprite_count = self.sprite_count + 1;
        self.submitted_ids.push(sprite.id.clone());
    }

    /// Whether the sprite's identity is already in this batch.
    fn contains_submitted(&self, sprite: &Sprite) -> (r: bool)
        ensures
            r == contains_id(self.submitted_ids@, sprite.id@),
    {
        let mut i: usize = 0;
        while i < self.submitted_ids.len()
            invariant
                i <= self.submitted_ids@.len(),
                forall|k: int| 0 <= k < i ==> self.submitted_ids@[k]@ != sprite.id@,
            decreases self.submitted_ids@.len() - i,
        {
            if str_eq(self.submitted_ids[i].as_str(), sprite.id.as_str()) {
                return true;
            }
            i = i + 1;
        }
        false
    }

    /// The slot of a handle, if the table holds it.
    fn find_slot(&self, handle: u32) -> (r: Option<usize>)
        requires
            forall|i: int, j: int|
                0 <= i < j < self.texture_slots@.len() ==> self.texture_slots@[i]
                    != self.texture_slots@[j],
        ensures
            match r {
                Some(s) => s as int == resolved_slot(self.texture_slots@, handle)
                    && contains_handle(self.texture_slots@, handle),
                None => !contains_handle(self.texture_slots@, handle),
            },
    {
        let mut i: usize = 0;
        while i < self.texture_slots.len()
            invariant
                i <= self.texture_slots@.len(),
                forall|k: int| 0 <= k < i ==> self.texture_slots@[k] != handle,
                forall|p: int, q: int|
                    0 <= p < q < self.texture_slots@.len() ==> self.texture_slots@[p]
                        != self.texture_slots@[q],
            decreases self.texture_slots@.len() - i,
        {
            if self.texture_slots[i] == handle {
                proof {
                    assert(contains_handle(self.texture_slots@, handle)) by {
                        assert(self.texture_slots@[i as int] == handle);
                    }
                    let j = index_of_handle(self.texture_slots@, handle);
                    assert(0 <= j < self.texture_slots@.len() && self.texture_slots@[j] == handle);
                    if j != i as int {
                        assert(self.texture_slots@[j] == self.texture_slots@[i as int]);
                        assert(false);
                    }
                }
                return Some(i);
            }
            i = i + 1;
        }
        None
    }

    pub fn set_clear_color(&mut self, r: u8, g: u8, b: u8, a: Frac)
        requires
            a.wf(),
        ensures
            *final(self) == (Renderer3D { clear_color: (r, g, b, a), ..*old(self) }),
    {
        self.clear_color = (r, g, b, a);
    }

    /// Clears the active surface on the device; no tracked state
    /// changes.
    pub fn clear(&self) {
    }

    /// Draws the closed batch: the render target is resized to the
    /// viewport and bound, every reserved slot's texture is bound in
    /// slot order, the slot-to-unit mapping goes to the sampler
    /// uniform (the camera matrices go to the device alongside it),
    /// one indexed draw covers all staged sprites, the target is
    /// unbound and composed onto the screen, and the slot table and
    /// submitted-sprite list are cleared.  Fails exactly when the
    /// viewport is empty, leaving everything unchanged.
    pub fn render(&mut self, cam_width: u32, cam_height: u32) -> (r: Result<
        RenderReport,
        RendererError,
    >)
        requires
            old(self).wf(),
            old(self).state == RenderState::BatchClosed,
        ensures
            r is Ok <==> cam_width > 0 && cam_height > 0,
            r matches Ok(report) ==> {
                &&& report.draw.slots@ == old(self).texture_slots@
                &&& report.draw.sprite_count == old(self).vertices@.len()
                &&& report.draw.indices_used == 6 * old(self).vertices@.len()
                &&& report.flushes@ == old(self).flushes@
                &&& report.slot_units@.len() == old(self).max_textures
                &&& (forall|k: int|
                    0 <= k < report.slot_units@.len() ==> report.slot_units@[k] == k as i32)
                &&& report.composition_vertices == 6
                &&& final(self).wf()
                &&& final(self).state == RenderState::Idle
                &&& final(self).max_textures == old(self).max_textures
                &&& final(self).texture_slots@ == Seq::<u32>::empty()
                &&& final(self).vertices@ == Seq::<Vec<BatchVertex>>::empty()
                &&& final(self).submitted_ids@ == Seq::<String>::empty()
                &&& final(self).flushes@ == Seq::<DrawCall>::empty()
                &&& final(self).sprite_count == 0
                &&& final(self).max_sprites == old(self).max_sprites
                &&& final(self).program == old(self).program
                &&& final(self).clear_color == old(self).clear_color
                &&& final(self).indices@ == old(self).indices@
                &&& final(self).vbo == (DynamicBuffer {
                    bound: false,
                    ..old(self).vbo
                })
                &&& final(self).ibo == (Buffer { bound: false, ..old(self).ibo })
                &&& !final(self).vao.bound
                &&& (final(self).render_target matches Some(rt)
                    && rt.frame_buffer.texture.width == cam_width
                    && rt.frame_buffer.texture.height == cam_height)
                &&& (old(self).render_target matches Some(rt0) ==> (final(self).render_target
                    matches Some(rt2) && rt2.program == rt0.program && rt2.vertices@
                    == rt0.vertices@ && rt2.frame_buffer.texture.texture_handle
                    == rt0.frame_buffer.texture.texture_handle && !rt2.frame_buffer.bound
                    && !rt2.frame_buffer.texture.bound))
            },
            r is Err ==> *final(self) == *old(self),
            r matches Err(e) ==> e == (RendererError::InvalidViewport {
                width: cam_width,
                height: cam_height,
            }),
    {
        if cam_width == 0 || cam_height == 0 {
            return Err(RendererError::InvalidViewport { width: cam_width, height: cam_height });
        }
        match &mut self.render_target {
            Some(rt) => {
                rt.update_fbo_size(cam_width, cam_height);
                rt.bind();
            },
            None => {
                proof {
                    assert(false);
                }
            },
        }
        self.vbo.bind();
        self.ibo.bind();
        self.vao.bind();
        let slot_units = generate_texture_slots(self.max_textures as i32);

        let slots = self.texture_slots.split_off(0);
        proof {
            assert(self.texture_slots@ =~= Seq::<u32>::empty());
        }
        let count = self.vertices.len();
        let draw = DrawCall { slots, sprite_count: count, indices_used: 6 * count };
        self.vertices.clear();
        let flushes = self.flushes.split_off(0);
        proof {
            assert(self.flushes@ =~= Seq::<DrawCall>::empty());
        }
        self.submitted_ids.clear();

        self.vbo.unbind();
        self.vao.unbind();
        self.ibo.unbind();

        let composition_vertices: usize = match &mut self.render_target {
            Some(rt) => {
                rt.unbind();
                rt.render()
            },
            None => {
                proof {
                    assert(false);
                }
                0
            },
        };
        self.state = RenderState::Idle;
        Ok(RenderReport { flushes, draw, slot_units, composition_vertices })
    }
}

} // verus!

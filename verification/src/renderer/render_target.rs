//! The offscreen render target for the two-pass composition: an
//! offscreen color buffer, a fixed full-screen quad, and a swappable
//! composition program.

use vstd::prelude::*;
use crate::helpers::buffer::{
    ArrayBuffer,
    Buffer,
    BufferError,
    FrameBuffer,
    FrameBufferTexture,
    VertexArray,
};
use crate::helpers::shader::Program;

verus! {

/// One corner of the full-screen quad, in clip coordinates.
#[derive(Clone, Copy, Debug, PartialEq)]
pub struct RenderVertex {
    pub pos: (i32, i32),
    pub uv: (i32, i32),
}

/// The fixed two-triangle full-screen quad, in drawing order.
pub open spec fn screen_quad() -> Seq<RenderVertex> {
    seq![
        (RenderVertex { pos: (-1i32, 1i32), uv: (0i32, 1i32) }),
        (RenderVertex { pos: (-1i32, -1i32), uv: (0i32, 0i32) }),
        (RenderVertex { pos: (1i32, -1i32), uv: (1i32, 0i32) }),
        (RenderVertex { pos: (-1i32, 1i32), uv: (0i32, 1i32) }),
        (RenderVertex { pos: (1i32, -1i32), uv: (1i32, 0i32) }),
        (RenderVertex { pos: (1i32, 1i32), uv: (1i32, 1i32) }),
    ]
}

pub struct RenderTarget {
    pub vbo: ArrayBuffer,
    pub vao: VertexArray,
    /// The composition program; a pass-through sampler unless replaced.
    pub program: Program,
    pub frame_buffer: FrameBuffer,
    pub vertices: Vec<RenderVertex>,
}

impl RenderTarget {
    /// A well-formed render target holds exactly the fixed quad and a
    /// nonempty offscreen extent.
    pub open spec fn wf(self) -> bool {
        &&& self.vertices@ == screen_quad()
        &&& self.frame_buffer.texture.width > 0
        &&& self.frame_buffer.texture.height > 0
    }

    /// Builds the target for the given screen extent.  Fails exactly
    /// when the extent is empty: that is a fatal configuration error,
    /// caught at construction.
    pub fn new(screen_width: u32, screen_height: u32) -> (r: Result<RenderTarget, BufferError>)
        ensures
            r is Ok <==> screen_width > 0 && screen_height > 0,
            r matches Ok(rt) ==> {
                &&& rt.wf()
                &&& rt.frame_buffer.texture.width == screen_width
                &&& rt.frame_buffer.texture.height == screen_height
                &&& !rt.frame_buffer.bound
                &&& rt.program.id == 0
                &&& rt.program.name@ == "internal/shaders/render_target"@
            },
            r matches Err(e) ==> e == (BufferError::InvalidSize {
                width: screen_width,
                height: screen_height,
            }),
    {
        let frame_buffer = match FrameBuffer::new(screen_width, screen_height) {
            Ok(fb) => fb,
            Err(e) => {
                return Err(e);
            },
        };
        let mut vbo: ArrayBuffer = Buffer::new();
        let mut vao = VertexArray::new();

        let mut vertices: Vec<RenderVertex> = Vec::new();
        vertices.push(RenderVertex { pos: (-1, 1), uv: (0, 1) });
        vertices.push(RenderVertex { pos: (-1, -1), uv: (0, 0) });
        vertices.push(RenderVertex { pos: (1, -1), uv: (1, 0) });
        vertices.push(RenderVertex { pos: (-1, 1), uv: (0, 1) });
        vertices.push(RenderVertex { pos: (1, -1), uv: (1, 0) });
        vertices.push(RenderVertex { pos: (1, 1), uv: (1, 1) });
        proof {
            assert(vertices@ =~= screen_quad());
        }

        vbo.bind();
        vbo.static_draw_data(vertices.len() * RENDER_VERTEX_BYTES);
        vbo.unbind();
        vao.bind();
        vao.unbind();

        Ok(RenderTarget {
            frame_buffer,
            vbo,
            vao,
            vertices,
            program: Program::pass_through(),
        })
    }

    /// Redirects draw output to the offscreen color buffer; nothing
    /// else changes.
    pub fn bind(&mut self)
        ensures
            *final(self) == (RenderTarget {
                frame_buffer: (FrameBuffer {
                    texture: old(self).frame_buffer.texture,
                    bound: true,
                }),
                ..*old(self)
            }),
    {
        self.frame_buffer.bind();
    }

    /// Restores the default output surface; the offscreen color buffer
    /// keeps its contents for the composition pass, and nothing else
    /// changes.
    pub fn unbind(&mut self)
        ensures
            *final(self) == (RenderTarget {
                frame_buffer: (FrameBuffer {
                    texture: old(self).frame_buffer.texture,
                    bound: false,
                }),
                ..*old(self)
            }),
    {
        self.frame_buffer.unbind();
    }

    /// Replaces the composition program; nothing else changes.
    pub fn set_program(&mut self, program: Program)
        ensures
            *final(self) == (RenderTarget { program, ..*old(self) }),
    {
        self.program = program;
    }

    /// Resizes the offscreen color buffer to track the active
    /// viewport; its identity, binding state and everything else stay.
    pub fn update_fbo_size(&mut self, width: u32, height: u32)
        ensures
            *final(self) == (RenderTarget {
                frame_buffer: (FrameBuffer {
                    texture: (FrameBufferTexture {
                        width,
                        height,
                        ..old(self).frame_buffer.texture
                    }),
                    bound: old(self).frame_buffer.bound,
                }),
                ..*old(self)
            }),
    {
        self.frame_buffer.texture.set_size(width, height);
    }

    /// The composition pass: samples the offscreen color buffer through
    /// the composition program and draws the full-screen quad once,
    /// onto whatever surface is active.  Returns the number of vertices
    /// drawn, always the quad's six.
    pub fn render(&mut self) -> (drawn: usize)
        requires
            old(self).wf(),
            !old(self).frame_buffer.bound,
        ensures
            drawn == screen_quad().len(),
            *final(self) == (RenderTarget {
                frame_buffer: (FrameBuffer {
                    texture: (FrameBufferTexture {
                        bound: false,
                        ..old(self).frame_buffer.texture
                    }),
                    bound: old(self).frame_buffer.bound,
                }),
                vao: (VertexArray { bound: false }),
                ..*old(self)
            }),
    {
        self.frame_buffer.texture.bind_to_unit(0);
        self.vao.bind();
        let drawn = self.vertices.len();
        self.vao.unbind();
        self.frame_buffer.texture.unbind();
        drawn
    }
}

/// Bytes per full-screen quad vertex: two positions and two texture
/// coordinates, four bytes each.
pub const RENDER_VERTEX_BYTES: usize = 16;

} // verus!

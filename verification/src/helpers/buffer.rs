//! CPU-side bookkeeping of the device buffer objects.
//!
//! The device owns the actual storage; the library tracks exactly the
//! state that its layout rules depend on: whether an object is bound,
//! how large a dynamic buffer is, and the running write offset that the
//! batch renderer advances sprite by sprite.

use vstd::prelude::*;

verus! {

/// The binding target a buffer object is created for.
#[derive(Clone, Copy, Debug, PartialEq, Eq, Structural)]
pub enum BufferKind {
    Array,
    ElementArray,
}

pub trait BufferType {
    fn kind() -> BufferKind;
}

pub struct BufferTypeArray;

impl BufferType for BufferTypeArray {
    fn kind() -> (k: BufferKind)
        ensures
            k == BufferKind::Array,
    {
        BufferKind::Array
    }
}

pub struct BufferTypeElementArray;

impl BufferType for BufferTypeElementArray {
    fn kind() -> (k: BufferKind)
        ensures
            k == BufferKind::ElementArray,
    {
        BufferKind::ElementArray
    }
}

pub type ArrayBuffer = Buffer<BufferTypeArray>;

pub type ElementArrayBuffer = Buffer<BufferTypeElementArray>;

pub type DynamicArrayBuffer = DynamicBuffer<BufferTypeArray>;

pub type DynamicElementArrayBuffer = DynamicBuffer<BufferTypeElementArray>;

/// A buffer object whose contents are uploaded once.
pub struct Buffer<B: BufferType> {
    pub bound: bool,
    /// Size in bytes of the data the buffer was last filled with.
    pub data_len: usize,
    pub _marker: core::marker::PhantomData<B>,
}

impl<B: BufferType> Buffer<B> {
    pub fn new() -> (r: Buffer<B>)
        ensures
            !r.bound,
            r.data_len == 0,
    {
        Buffer { bound: false, data_len: 0, _marker: core::marker::PhantomData }
    }

    pub fn bind(&mut self)
        ensures
            final(self).bound,
            final(self).data_len == old(self).data_len,
    {
        self.bound = true;
    }

    pub fn unbind(&mut self)
        ensures
            !final(self).bound,
            final(self).data_len == old(self).data_len,
    {
        self.bound = false;
    }

    /// Fills the bound buffer with `byte_len` bytes of static data.
    pub fn static_draw_data(&mut self, byte_len: usize)
        requires
            old(self).bound,
        ensures
            final(self).bound == old(self).bound,
            final(self).data_len == byte_len,
    {
        self.data_len = byte_len;
    }
}

/// A buffer object that is rewritten every frame at a running offset.
pub struct DynamicBuffer<B: BufferType> {
    pub bound: bool,
    /// Size in bytes of the storage reserved on the device.
    pub max_buffer_size: usize,
    /// The byte offset at which the next upload lands.
    pub buffer_offset: usize,
    pub _marker: core::marker::PhantomData<B>,
}

impl<B: BufferType> DynamicBuffer<B> {
    pub fn new(max_buffer_size: usize) -> (r: DynamicBuffer<B>)
        ensures
            !r.bound,
            r.max_buffer_size == max_buffer_size,
            r.buffer_offset == 0,
    {
        DynamicBuffer {
            bound: false,
            max_buffer_size,
            buffer_offset: 0,
            _marker: core::marker::PhantomData,
        }
    }

    pub fn bind(&mut self)
        ensures
            *final(self) == (DynamicBuffer { bound: true, ..*old(self) }),
    {
        self.bound = true;
    }

    pub fn unbind(&mut self)
        ensures
            *final(self) == (DynamicBuffer { bound: false, ..*old(self) }),
    {
        self.bound = false;
    }

    /// Reserves the buffer's storage on the device; nothing CPU-side changes.
    pub fn set_buffer_data(&self)
        requires
            self.bound,
    {
    }

    /// Writes `byte_len` bytes at the current offset.  The write must stay
    /// inside the storage reserved at construction.
    pub fn upload_draw_data(&self, byte_len: usize)
        requires
            self.bound,
            self.buffer_offset + byte_len <= self.max_buffer_size,
    {
    }

    pub fn set_buffer_offset(&mut self, offset: usize)
        ensures
            *final(self) == (DynamicBuffer { buffer_offset: offset, ..*old(self) }),
    {
        self.buffer_offset = offset;
    }

    pub fn reset_buffer_offset(&mut self)
        ensures
            *final(self) == (DynamicBuffer { buffer_offset: 0, ..*old(self) }),
    {
        self.buffer_offset = 0;
    }
}

/// A vertex array object: only its binding state matters to the library.
pub struct VertexArray {
    pub bound: bool,
}

impl VertexArray {
    pub fn new() -> (r: VertexArray)
        ensures
            !r.bound,
    {
        VertexArray { bound: false }
    }

    pub fn bind(&mut self)
        ensures
            final(self).bound,
    {
        self.bound = true;
    }

    pub fn unbind(&mut self)
        ensures
            !final(self).bound,
    {
        self.bound = false;
    }
}

/// Why a buffer-backed object could not be constructed.
#[derive(Clone, Debug, PartialEq, Eq, Structural)]
pub enum BufferError {
    /// An offscreen buffer was requested with an empty extent.
    InvalidSize { width: u32, height: u32 },
}

/// The color texture that backs an offscreen frame buffer.
///
/// The device assigns the real texture name when the object is realized;
/// the model tracks the extent and the binding state.
pub struct FrameBufferTexture {
    pub texture_handle: u32,
    pub width: u32,
    pub height: u32,
    pub bound: bool,
}

impl FrameBufferTexture {
    pub fn new(screen_width: u32, screen_height: u32) -> (r: FrameBufferTexture)
        ensures
            r.width == screen_width,
            r.height == screen_height,
            !r.bound,
    {
        FrameBufferTexture {
            texture_handle: 0,
            width: screen_width,
            height: screen_height,
            bound: false,
        }
    }

    pub fn get_texture_handle(&self) -> (r: u32)
        ensures
            r == self.texture_handle,
    {
        self.texture_handle
    }

    /// Resizes the backing storage to track the active viewport.
    pub fn set_size(&mut self, width: u32, height: u32)
        ensures
            *final(self) == (FrameBufferTexture { width, height, ..*old(self) }),
    {
        self.width = width;
        self.height = height;
    }

    pub fn bind(&mut self)
        ensures
            *final(self) == (FrameBufferTexture { bound: true, ..*old(self) }),
    {
        self.bound = true;
    }

    /// Binds the texture to the given texture unit.
    pub fn bind_to_unit(&mut self, _slot: u32)
        ensures
            *final(self) == (FrameBufferTexture { bound: true, ..*old(self) }),
    {
        self.bound = true;
    }

    pub fn unbind(&mut self)
        ensures
            *final(self) == (FrameBufferTexture { bound: false, ..*old(self) }),
    {
        self.bound = false;
    }
}

/// An offscreen render destination: a color texture plus binding state.
pub struct FrameBuffer {
    pub texture: FrameBufferTexture,
    pub bound: bool,
}

impl FrameBuffer {
    /// Fails exactly when the requested extent is empty: an offscreen
    /// buffer without pixels is a fatal configuration error, caught at
    /// construction.
    pub fn new(screen_width: u32, screen_height: u32) -> (r: Result<FrameBuffer, BufferError>)
        ensures
            r is Ok <==> screen_width > 0 && screen_height > 0,
            r matches Ok(fb) ==> {
                &&& fb.texture.width == screen_width
                &&& fb.texture.height == screen_height
                &&& !fb.texture.bound
                &&& !fb.bound
            },
            r matches Err(e) ==> e == (BufferError::InvalidSize {
                width: screen_width,
                height: screen_height,
            }),
    {
        if screen_width == 0 || screen_height == 0 {
            return Err(BufferError::InvalidSize { width: screen_width, height: screen_height });
        }
        let texture = FrameBufferTexture::new(screen_width, screen_height);
        Ok(FrameBuffer { texture, bound: false })
    }

    pub fn bind(&mut self)
        ensures
            final(self).bound,
            final(self).texture == old(self).texture,
    {
        self.bound = true;
    }

    pub fn unbind(&mut self)
        ensures
            !final(self).bound,
            final(self).texture == old(self).texture,
    {
        self.bound = false;
    }
}

} // verus!

//! The texture record: a device handle plus the pixel extent and source
//! identity that the layout logic reads.  Decoding image files is the
//! resource loader's business; it hands the decoded extent in.

use vstd::prelude::*;

verus! {

/// Why a texture could not be constructed.
#[derive(Clone, Debug, PartialEq, Eq)]
pub enum TextureError {
    /// The decoded image has an empty extent; such a texture would make
    /// every derived texture coordinate meaningless.
    InvalidDimensions { image_path: String, width: u32, height: u32 },
    /// No texture of this name is registered.
    NotFound { name: String },
}

pub struct Texture {
    pub texture_handle: u32,
    pub width: u32,
    pub height: u32,
    /// The texture unit hint the texture was created with.
    pub texture_offset: u32,
    pub image_path: String,
}

impl Texture {
    /// A well-formed texture has a nonempty pixel extent.
    pub open spec fn wf(self) -> bool {
        self.width > 0 && self.height > 0
    }

    /// Builds the record for a decoded image.  Fails exactly when the
    /// extent is empty.
    pub fn new(texture_handle: u32, width: u32, height: u32, image_path: String) -> (r: Result<
        Texture,
        TextureError,
    >)
        ensures
            r is Ok <==> width > 0 && height > 0,
            r matches Ok(t) ==> t == (Texture {
                texture_handle,
                width,
                height,
                texture_offset: 0,
                image_path,
            }),
            r matches Ok(t) ==> t.wf(),
            r matches Err(e) ==> e == (TextureError::InvalidDimensions {
                image_path,
                width,
                height,
            }),
    {
        if width == 0 || height == 0 {
            return Err(TextureError::InvalidDimensions { image_path, width, height });
        }
        Ok(Texture { texture_handle, width, height, texture_offset: 0, image_path })
    }

    pub fn get_dimensions(&self) -> (r: (u32, u32))
        ensures
            r == (self.width, self.height),
    {
        (self.width, self.height)
    }

    pub fn get_texture_handle(&self) -> (r: u32)
        ensures
            r == self.texture_handle,
    {
        self.texture_handle
    }

    pub fn get_texture_offset(&self) -> (r: u32)
        ensures
            r == self.texture_offset,
    {
        self.texture_offset
    }
}

impl Clone for Texture {
    fn clone(&self) -> (r: Texture)
        ensures
            r == *self,
    {
        Texture {
            texture_handle: self.texture_handle,
            width: self.width,
            height: self.height,
            texture_offset: self.texture_offset,
            image_path: self.image_path.clone(),
        }
    }
}

impl PartialEq for Texture {
    /// Textures compare by device handle, their identity for slot
    /// assignment.
    fn eq(&self, other: &Texture) -> (r: bool) {
        self.texture_handle == other.texture_handle
    }
}

impl vstd::std_specs::cmp::PartialEqSpecImpl for Texture {
    open spec fn obeys_eq_spec() -> bool {
        true
    }

    open spec fn eq_spec(&self, other: &Texture) -> bool {
        self.texture_handle == other.texture_handle
    }
}

/// Builds a texture step by step: source, decoded extent, then the
/// optional texture unit hint.
pub struct TextureBuilder {
    pub image_path: String,
    pub texture_handle: u32,
    pub width: u32,
    pub height: u32,
    pub texture_slot: u32,
}

impl TextureBuilder {
    pub fn new(image_path: String, texture_handle: u32, width: u32, height: u32) -> (r:
        TextureBuilder)
        ensures
            r == (TextureBuilder { image_path, texture_handle, width, height, texture_slot: 0 }),
    {
        TextureBuilder { image_path, texture_handle, width, height, texture_slot: 0 }
    }

    pub fn with_texture_slot(self, texture_slot: u32) -> (r: TextureBuilder)
        ensures
            r == (TextureBuilder { texture_slot, ..self }),
    {
        TextureBuilder { texture_slot, ..self }
    }

    /// Finishes the texture.  Fails exactly when the extent is empty.
    pub fn build(self) -> (r: Result<Texture, TextureError>)
        ensures
            r is Ok <==> self.width > 0 && self.height > 0,
            r matches Ok(t) ==> t == (Texture {
                texture_handle: self.texture_handle,
                width: self.width,
                height: self.height,
                texture_offset: self.texture_slot,
                image_path: self.image_path,
            }),
            r matches Err(e) ==> e == (TextureError::InvalidDimensions {
                image_path: self.image_path,
                width: self.width,
                height: self.height,
            }),
    {
        if self.width == 0 || self.height == 0 {
            return Err(TextureError::InvalidDimensions {
                image_path: self.image_path,
                width: self.width,
                height: self.height,
            });
        }
        Ok(Texture {
            texture_handle: self.texture_handle,
            width: self.width,
            height: self.height,
            texture_offset: self.texture_slot,
            image_path: self.image_path,
        })
    }
}

} // verus!

use vstd::prelude::*;
use crate::voxel::{TextureId, TEXTURE_LIMIT};

verus! {

/// What kind of resource a load reads: decoded image pixels or shader text.
#[derive(Clone, Copy, Debug, PartialEq, Eq, Structural)]
pub enum ResourceLoader {
    TEXTURE,
    SHADER,
}

/// A resource by name: an optional directory under the resource root, and
/// the file name.
#[derive(Debug)]
pub struct ResourceId(pub Option<String>, pub String);

/// Why a texture was not added.
#[derive(Clone, Copy, Debug, PartialEq, Eq, Structural)]
pub enum TextureError {
    /// The set already holds `TEXTURE_LIMIT` textures: another id would not
    /// fit the texture field of a face record.
    Full,
}

/// The textures of the texture array, in layer order. A texture's id is its
/// layer.
#[derive(Debug)]
pub struct TextureSet<I> {
    images: Vec<I>,
}

impl<I> View for TextureSet<I> {
    type V = Seq<I>;

    closed spec fn view(&self) -> Seq<I> {
        self.images@
    }
}

impl<I> TextureSet<I> {
    pub fn new() -> (r: Self)
        ensures
            r@ == Seq::<I>::empty(),
    {
        TextureSet { images: Vec::new() }
    }

    /// Adds a texture as the next layer and returns its id, unless the set
    /// is full.
    pub fn add_texture(&mut self, image: I) -> (r: Result<TextureId, TextureError>)
        ensures
            old(self)@.len() >= TEXTURE_LIMIT ==> r == Err::<TextureId, TextureError>(
                TextureError::Full,
            ) && final(self)@ == old(self)@,
            old(self)@.len() < TEXTURE_LIMIT ==> r == Ok::<TextureId, TextureError>(
                old(self)@.len() as TextureId,
            ) && final(self)@ == old(self)@.push(image),
            r matches Ok(id) ==> id < TEXTURE_LIMIT,
    {
        if self.images.len() >= TEXTURE_LIMIT as usize {
            return Err(TextureError::Full);
        }
        let id = self.images.len() as TextureId;
        self.images.push(image);
        Ok(id)
    }

    pub fn len(&self) -> (r: usize)
        ensures
            r == self@.len(),
    {
        self.images.len()
    }

    /// The textures, in layer order.
    pub fn images(&self) -> (r: &[I])
        ensures
            r@ == self@,
    {
        self.images.as_slice()
    }
}

} // verus!

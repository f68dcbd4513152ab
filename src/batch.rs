use vstd::prelude::*;

use crate::backend::Backend;
use crate::graphics::{DrawError, DrawOptions, Graphics};
use crate::texture::Texture;

verus! {

/// Which texture a batch draws, and into which target (the viewport when
/// `None`).
#[derive(Copy, Clone, Debug, PartialEq, Eq, Structural)]
pub struct TextureBatchOptions {
    pub texture: Texture,
    pub target: Option<Texture>,
}

/// A run of draws of one texture into one target, as checked by
/// `Graphics::new_batch`. Each draw is checked again when it is made.
#[derive(Copy, Clone, Debug, PartialEq, Eq, Structural)]
pub struct TextureBatch {
    pub options: TextureBatchOptions,
}

impl TextureBatchOptions {
    pub fn new(texture: Texture, target: Option<Texture>) -> (r: Self)
        ensures
            r == (TextureBatchOptions { texture, target }),
    {
        Self { texture, target }
    }
}

impl TextureBatch {
    /// Draws one quad of the batch's texture into its target, as
    /// `Graphics::draw_texture` does, and gives the batch back for the next.
    pub fn draw<B: Backend<A>, A>(self, graphics: &mut Graphics<B, A>, options: DrawOptions<A>) -> (r:
        Result<Self, DrawError>)
        requires
            old(graphics).wf(),
            old(graphics)@.quads.len() < usize::MAX,
        ensures
            final(graphics).wf(),
            final(graphics)@.wf(),
            old(graphics)@.drew(
                final(graphics)@,
                self.options.texture,
                self.options.target,
                options,
                match r {
                    Ok(_) => Ok(()),
                    Err(e) => Err(e),
                },
            ),
            r is Ok ==> r == Ok::<Self, DrawError>(self),
    {
        match graphics.draw_texture(self.options.texture, self.options.target, options) {
            Ok(()) => Ok(self),
            Err(e) => Err(e),
        }
    }
}

} // verus!

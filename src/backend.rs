use vstd::prelude::*;

use crate::commons::ViewSize;
use crate::graphics::DrawCommand;
use crate::quad::Quad;
use crate::texture::{Texture, TextureLoadOptions, TextureQuery};

pub mod blank;

verus! {

/// Why a backend could not present a frame.
#[derive(Clone, Debug)]
pub enum PresentError {
    /// The surface could not be acquired for now (device lost, out of memory);
    /// the viewport must be set again before the next frame.
    SurfaceUnavailable,
    /// Any other failure of the device.
    Failed(String),
}

/// What `query_texture` reports for `texture` when the backend holds `textures`.
pub open spec fn lookup(textures: Map<u32, TextureQuery>, texture: Texture) -> Option<TextureQuery> {
    if textures.contains_key(texture@) {
        Some(textures[texture@])
    } else {
        None
    }
}

/// The table `after` is `before` with one more texture, under a handle that
/// was not in use, described as `options` asked.
pub open spec fn texture_added(
    before: Map<u32, TextureQuery>,
    after: Map<u32, TextureQuery>,
    texture: Texture,
    options: TextureLoadOptions,
) -> bool {
    &&& !before.contains_key(texture@)
    &&& after.contains_key(texture@)
    &&& after[texture@].matches_options(options)
    &&& after == before.insert(texture@, after[texture@])
}

/// Whether every batch among `commands` draws a range of `n` quads.
pub open spec fn commands_fit(commands: Seq<DrawCommand>, n: int) -> bool {
    forall|i: int|
        0 <= i < commands.len() ==> #[trigger] commands[i].fits(n)
}

/// A GPU backend for quads that carry `A`: it holds textures, knows the
/// viewport's size, and executes a frame's commands against its quads.
/// Handles are handed out in increasing order, so none is ever reused.
pub trait Backend<A> {
    /// The textures held, by handle.
    spec fn textures(&self) -> Map<u32, TextureQuery>;

    /// The size of the presentation surface.
    spec fn viewport_size(&self) -> ViewSize;

    /// The handle that the next successful load hands out.
    spec fn next_handle(&self) -> nat;

    /// Whether the next load is sure to succeed.
    spec fn can_load(&self) -> bool;

    /// `after` is this backend once it ran the frame of `commands` over
    /// `quads` and returned `r`.
    spec fn ran_frame(
        &self,
        after: &Self,
        commands: Seq<DrawCommand>,
        quads: Seq<Quad<A>>,
        r: Result<(), PresentError>,
    ) -> bool;

    /// Executes `commands` in order: a clear fills its target with a colour; a
    /// batch draws its range of `quads` with its texture into its target, over
    /// what the target holds.
    fn present(&mut self, commands: &[DrawCommand], quads: &[Quad<A>]) -> (r: Result<
        (),
        PresentError,
    >)
        requires
            commands_fit(commands@, quads@.len() as int),
        ensures
            old(self).ran_frame(&*final(self), commands@, quads@, r),
            final(self).textures() == old(self).textures(),
            final(self).viewport_size() == old(self).viewport_size(),
            final(self).next_handle() == old(self).next_handle(),
            final(self).can_load() == old(self).can_load(),
    ;

    /// Creates a texture under the next handle.
    fn load_texture(&mut self, options: TextureLoadOptions) -> (r: Result<Texture, String>)
        ensures
            old(self).can_load() ==> r is Ok,
            match r {
                Ok(texture) => {
                    &&& texture@ == old(self).next_handle()
                    &&& final(self).next_handle() == old(self).next_handle() + 1
                    &&& texture_added(old(self).textures(), final(self).textures(), texture, options)
                },
                Err(_) => {
                    &&& final(self).textures() == old(self).textures()
                    &&& final(self).next_handle() == old(self).next_handle()
                },
            },
            final(self).viewport_size() == old(self).viewport_size(),
    ;

    /// Drops a texture; its handle is found no more, and is not handed out
    /// again.
    fn unload_texture(&mut self, texture: Texture)
        ensures
            final(self).textures() == old(self).textures().remove(texture@),
            final(self).viewport_size() == old(self).viewport_size(),
            final(self).next_handle() == old(self).next_handle(),
            final(self).can_load() == old(self).can_load(),
    ;

    fn query_texture(&self, texture: Texture) -> (r: Option<TextureQuery>)
        ensures
            r == lookup(self.textures(), texture),
    ;

    fn resize_viewport(&mut self, new_size: ViewSize)
        ensures
            final(self).textures() == old(self).textures(),
            final(self).viewport_size() == new_size,
            final(self).next_handle() == old(self).next_handle(),
            final(self).can_load() == old(self).can_load(),
    ;

    fn viewport(&self) -> (r: ViewSize)
        ensures
            r == self.viewport_size(),
    ;
}

} // verus!

use vstd::prelude::*;

use std::collections::HashMap;

use crate::backend::{Backend, PresentError};
use crate::commons::ViewSize;
use crate::graphics::DrawCommand;
use crate::quad::Quad;
use crate::texture::{Texture, TextureLoadOptions, TextureQuery};

verus! {

broadcast use vstd::std_specs::hash::group_hash_axioms;

/// A backend that draws nothing. It keeps a table of textures and the
/// viewport's size, so that everything above it runs as it would on a GPU.
pub struct BackendBlank {
    viewport_size: ViewSize,
    textures: HashMap<u32, TextureQuery>,
    next_texture: Texture,
}

impl BackendBlank {
    /// Every handle in use is below the next one to be handed out.
    #[verifier::type_invariant]
    spec fn handles_below_next(&self) -> bool {
        forall|k: u32| #[trigger] self.textures@.contains_key(k) ==> k < self.next_texture@
    }

    /// The textures held, by handle.
    pub closed spec fn table(&self) -> Map<u32, TextureQuery> {
        self.textures@
    }

    /// The next handle to be handed out.
    pub closed spec fn handle(&self) -> nat {
        self.next_texture@ as nat
    }

    /// The size of the presentation surface.
    pub closed spec fn surface(&self) -> ViewSize {
        self.viewport_size
    }

    /// A backend with no textures and a viewport of 860 by 640. Its first
    /// texture gets handle 0.
    pub fn new() -> (r: Self)
        ensures
            r.table() == Map::<u32, TextureQuery>::empty(),
            r.handle() == 0,
            r.surface() == (ViewSize { width: 860, height: 640 }),
    {
        Self {
            viewport_size: ViewSize { width: 860, height: 640 },
            next_texture: Texture::new(0),
            textures: HashMap::with_capacity(100),
        }
    }
}

impl<A> Backend<A> for BackendBlank {
    open spec fn textures(&self) -> Map<u32, TextureQuery> {
        self.table()
    }

    open spec fn viewport_size(&self) -> ViewSize {
        self.surface()
    }

    open spec fn next_handle(&self) -> nat {
        self.handle()
    }

    /// A load fails only once every `u32` handle was handed out.
    open spec fn can_load(&self) -> bool {
        self.handle() < u32::MAX
    }

    /// Nothing is drawn, nothing changes, and the frame always succeeds.
    open spec fn ran_frame(
        &self,
        after: &Self,
        commands: Seq<DrawCommand>,
        quads: Seq<Quad<A>>,
        r: Result<(), PresentError>,
    ) -> bool {
        *after == *self && r is Ok
    }

    fn present(&mut self, _commands: &[DrawCommand], _quads: &[Quad<A>]) -> (r: Result<
        (),
        PresentError,
    >) {
        Ok(())
    }

    fn load_texture(&mut self, options: TextureLoadOptions) -> (r: Result<Texture, String>) {
        proof {
            use_type_invariant(&*self);
        }
        let id = self.next_texture.id();
        if id == u32::MAX {
            return Err("no texture handle is left".to_owned());
        }
        let name = match options.name {
            Some(name) => name.to_owned(),
            None => "Untitled".to_owned(),
        };
        let query = TextureQuery {
            name: Some(name),
            width: options.width,
            height: options.height,
            format: options.format,
            usage: options.usage,
        };
        let mut textures = HashMap::new();
        std::mem::swap(&mut textures, &mut self.textures);
        textures.insert(id, query);
        self.next_texture = Texture::new(id + 1);
        self.textures = textures;
        Ok(Texture::new(id))
    }

    fn unload_texture(&mut self, texture: Texture) {
        proof {
            use_type_invariant(&*self);
        }
        let mut textures = HashMap::new();
        std::mem::swap(&mut textures, &mut self.textures);
        textures.remove(&texture.id());
        self.textures = textures;
    }

    fn query_texture(&self, texture: Texture) -> (r: Option<TextureQuery>) {
        match self.textures.get(&texture.id()) {
            Some(query) => {
                let name = match &query.name {
                    Some(name) => Some(name.clone()),
                    None => None,
                };
                Some(
                    TextureQuery {
                        name,
                        width: query.width,
                        height: query.height,
                        format: query.format,
                        usage: query.usage,
                    },
                )
            },
            None => None,
        }
    }

    fn resize_viewport(&mut self, new_size: ViewSize) {
        proof {
            use_type_invariant(&*self);
        }
        self.viewport_size = new_size;
    }

    fn viewport(&self) -> (r: ViewSize) {
        self.viewport_size
    }
}

} // verus!

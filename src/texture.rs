use vstd::prelude::*;

verus! {

/// A handle to a texture held by a backend. Handles are plain identifiers:
/// a backend hands out a fresh one for each texture it loads.
#[derive(Copy, Clone, Debug, PartialEq, Eq, Structural)]
pub struct Texture(u32);

impl View for Texture {
    type V = u32;

    closed spec fn view(&self) -> u32 {
        self.0
    }
}

impl Texture {
    pub fn new(id: u32) -> (t: Self)
        ensures
            t@ == id,
    {
        Self(id)
    }

    pub fn id(&self) -> (r: u32)
        ensures
            r == self@,
    {
        self.0
    }
}

/// What a backend reports about a texture it holds.
#[derive(Clone, Debug)]
pub struct TextureQuery {
    pub name: Option<String>,
    pub width: u32,
    pub height: u32,
    pub format: TextureFormat,
    pub usage: TextureUsage,
}

/// How to create a texture.
#[derive(Copy, Clone, Debug, Default)]
pub struct TextureLoadOptions<'a> {
    pub name: Option<&'a str>,
    pub data: Option<&'a [u8]>,
    pub width: u32,
    pub height: u32,
    pub format: TextureFormat,
    pub usage: TextureUsage,
}

#[derive(Copy, Clone, Debug, PartialEq, Eq, Structural)]
pub enum TextureFormat {
    Bgra8UnormSrgb,
}

/// Whether a texture may only be sampled, or may also be drawn into.
#[derive(Copy, Clone, Debug, PartialEq, Eq, Structural)]
pub enum TextureUsage {
    Default,
    RenderTarget,
}

impl Default for TextureFormat {
    fn default() -> (r: Self)
        ensures
            r == TextureFormat::Bgra8UnormSrgb,
    {
        Self::Bgra8UnormSrgb
    }
}

impl Default for TextureUsage {
    fn default() -> (r: Self)
        ensures
            r == TextureUsage::Default,
    {
        Self::Default
    }
}

impl TextureQuery {
    /// Whether this description has the size, format and usage that `options`
    /// asked for.
    pub open spec fn matches_options(self, options: TextureLoadOptions) -> bool {
        &&& self.width == options.width
        &&& self.height == options.height
        &&& self.format == options.format
        &&& self.usage == options.usage
    }

    /// The texture's size.
    pub open spec fn size_spec(self) -> crate::commons::ViewSize {
        crate::commons::ViewSize { width: self.width, height: self.height }
    }
}

} // verus!

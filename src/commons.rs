use vstd::prelude::*;

verus! {

/// The size in pixels of a surface: the viewport or a texture.
#[derive(Copy, Clone, Debug, Default, PartialEq, Eq, Structural)]
pub struct ViewSize {
    pub width: u32,
    pub height: u32,
}

/// The size of the presentation surface.
pub type ViewportSize = ViewSize;

/// An RGBA colour, one byte per channel.
#[derive(Copy, Clone, Debug, PartialEq, Eq, Structural)]
pub struct Color {
    pub r: u8,
    pub g: u8,
    pub b: u8,
    pub a: u8,
}

/// An axis-aligned rectangle in pixels. It covers the pixels `(px, py)` with
/// `x <= px < x + w` and `y <= py < y + h`.
#[derive(Copy, Clone, Debug, Default, PartialEq, Eq, Structural)]
pub struct Rect {
    pub x: i32,
    pub y: i32,
    pub w: u32,
    pub h: u32,
}

/// A rectangle in texture space, given as fractions of the texture's size:
/// its offsets and extents are `x / width`, `y / height`, `w / width` and
/// `h / height`, kept exactly as numerator and denominator.
#[derive(Copy, Clone, Debug, PartialEq, Eq, Structural)]
pub struct UvRect {
    pub x: i32,
    pub y: i32,
    pub w: u32,
    pub h: u32,
    pub width: u32,
    pub height: u32,
}

impl ViewSize {
    pub fn new(width: u32, height: u32) -> (r: Self)
        ensures
            r.width == width,
            r.height == height,
    {
        Self { width, height }
    }

    /// The rectangle that covers the whole surface.
    pub open spec fn full_rect(self) -> Rect {
        Rect { x: 0, y: 0, w: self.width, h: self.height }
    }
}

impl Color {
    pub fn new(r: u8, g: u8, b: u8, a: u8) -> (c: Self)
        ensures
            c == (Color { r, g, b, a }),
    {
        Self { r, g, b, a }
    }
}

/// Whether the pixel `(px, py)` lies inside `r`.
pub open spec fn covers(r: Rect, px: int, py: int) -> bool {
    &&& r.x <= px < r.x + r.w
    &&& r.y <= py < r.y + r.h
}

/// Whether two rectangles overlap with a non-empty area.
pub open spec fn overlaps(a: Rect, b: Rect) -> bool {
    &&& 0 < a.w && 0 < a.h && 0 < b.w && 0 < b.h
    &&& a.x < b.x + b.w
    &&& b.x < a.x + a.w
    &&& a.y < b.y + b.h
    &&& b.y < a.y + a.h
}

impl Rect {
    pub fn new(x: i32, y: i32, w: u32, h: u32) -> (r: Self)
        ensures
            r == (Rect { x, y, w, h }),
    {
        Self { x, y, w, h }
    }

    /// This rectangle as fractions of a texture of `width` by `height`.
    pub open spec fn normalized_spec(self, width: u32, height: u32) -> UvRect {
        UvRect { x: self.x, y: self.y, w: self.w, h: self.h, width, height }
    }

    /// Normalizes this rectangle against a texture of `width` by `height`:
    /// `[x / width, y / height, w / width, h / height]`.
    pub fn normalized(self, width: u32, height: u32) -> (r: UvRect)
        ensures
            r == self.normalized_spec(width, height),
    {
        UvRect { x: self.x, y: self.y, w: self.w, h: self.h, width, height }
    }

    /// Whether the two rectangles share at least one pixel. Rectangles that
    /// only touch along an edge do not intersect, nor does an empty one.
    pub fn intersects(&self, rhs: Rect) -> (r: bool)
        ensures
            r == overlaps(*self, rhs),
    {
        let left = self.x as i64;
        let right = self.x as i64 + self.w as i64;
        let top = self.y as i64;
        let bottom = self.y as i64 + self.h as i64;

        let rhs_left = rhs.x as i64;
        let rhs_right = rhs.x as i64 + rhs.w as i64;
        let rhs_top = rhs.y as i64;
        let rhs_bottom = rhs.y as i64 + rhs.h as i64;

        left < right && top < bottom && rhs_left < rhs_right && rhs_top < rhs_bottom
            && left < rhs_right && rhs_left < right && top < rhs_bottom && rhs_top < bottom
    }
}

impl From<ViewSize> for Rect {
    fn from(size: ViewSize) -> (r: Rect) {
        Rect { x: 0, y: 0, w: size.width, h: size.height }
    }
}

impl vstd::std_specs::convert::FromSpecImpl<ViewSize> for Rect {
    open spec fn obeys_from_spec() -> bool {
        true
    }

    open spec fn from_spec(size: ViewSize) -> Rect {
        size.full_rect()
    }
}

impl UvRect {
    /// The whole texture: `[0, 0, 1, 1]`.
    pub open spec fn full_spec() -> UvRect {
        UvRect { x: 0, y: 0, w: 1, h: 1, width: 1, height: 1 }
    }

    pub fn full() -> (r: UvRect)
        ensures
            r == Self::full_spec(),
    {
        UvRect { x: 0, y: 0, w: 1, h: 1, width: 1, height: 1 }
    }

    /// Scales the fractions back by `width` and `height`, rounding down:
    /// `(x * width / self.width, y * height / self.height, ...)`.
    pub open spec fn scaled_spec(self, width: int, height: int) -> (int, int, int, int) {
        (
            self.x * width / (self.width as int),
            self.y * height / (self.height as int),
            self.w * width / (self.width as int),
            self.h * height / (self.height as int),
        )
    }
}

/// Normalizing a rectangle against a texture's size and scaling the result
/// back by that size gives the rectangle's own offsets and extents.
pub proof fn lemma_normalize_round_trip(rect: Rect, width: u32, height: u32)
    requires
        width > 0,
        height > 0,
    ensures
        rect.normalized_spec(width, height).scaled_spec(width as int, height as int) == (
            rect.x as int,
            rect.y as int,
            rect.w as int,
            rect.h as int,
        ),
{
    let (w, h) = (width as int, height as int);
    assert((rect.x as int) * w / w == rect.x as int) by (nonlinear_arith)
        requires w > 0;
    assert((rect.y as int) * h / h == rect.y as int) by (nonlinear_arith)
        requires h > 0;
    assert((rect.w as int) * w / w == rect.w as int) by (nonlinear_arith)
        requires w > 0;
    assert((rect.h as int) * h / h == rect.h as int) by (nonlinear_arith)
        requires h > 0;
}

/// Two rectangles overlap exactly when some pixel lies inside both: a
/// rectangle that only touches another along an edge does not overlap it.
pub proof fn lemma_overlap_iff_shared_pixel(a: Rect, b: Rect)
    ensures
        overlaps(a, b) <==> exists|px: int, py: int| covers(a, px, py) && covers(b, px, py),
{
    if overlaps(a, b) {
        let px = if a.x >= b.x { a.x as int } else { b.x as int };
        let py = if a.y >= b.y { a.y as int } else { b.y as int };
        assert(covers(a, px, py) && covers(b, px, py));
    }
}

/// Culling at the edge of a non-empty surface: a rectangle that starts at its
/// right edge misses it, while one that starts a pixel to the left of that
/// edge, and has some width and a row on the surface, is kept.
pub proof fn lemma_culling_boundary(r: Rect, size: ViewSize)
    ensures
        r.x >= size.width ==> !overlaps(r, size.full_rect()),
        size.width > 0 && r.x == size.width - 1 && r.w > 0 && r.h > 0 && 0 <= r.y < size.height
            ==> overlaps(r, size.full_rect()),
{
}

} // verus!

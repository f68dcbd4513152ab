use lois::backend::blank::BackendBlank;
use lois::backend::Backend;

/// The blank backend, for quads that carry nothing.
fn blank() -> impl Backend<()> {
    BackendBlank::new()
}
use lois::commons::{Color, Rect, UvRect, ViewSize};
use lois::quad::{Quad, QuadArrayVec};
use lois::texture::{Texture, TextureFormat, TextureLoadOptions, TextureUsage};

fn quad(i: i32) -> Quad<u32> {
    Quad {
        dest_rect: Rect::new(i, -i, i as u32, 1),
        src_rect: UvRect::full(),
        appearance: i as u32,
    }
}

#[test]
fn growth_keeps_every_pushed_quad_in_place() {
    let mut store = QuadArrayVec::new();
    for i in 0..2500 {
        store.push(quad(i));
    }
    assert_eq!(store.next(), 2500);
    let slice = store.slice();
    assert_eq!(slice.len(), 2500);
    for (i, q) in slice.iter().enumerate() {
        assert_eq!(q.appearance, i as u32);
        assert_eq!(q.dest_rect, Rect::new(i as i32, -(i as i32), i as u32, 1));
    }
}

#[test]
fn clearing_keeps_no_stale_quad_visible() {
    let mut store = QuadArrayVec::new();
    for i in 0..10 {
        store.push(quad(i));
    }
    store.clear();
    assert_eq!(store.next(), 0);
    assert!(store.slice().is_empty());
    store.push(quad(100));
    store.push(quad(101));
    let slice = store.slice();
    assert_eq!(slice.len(), 2);
    assert_eq!(slice[0].appearance, 100);
    assert_eq!(slice[1].appearance, 101);
}

#[test]
fn quad_new_applies_the_defaults() {
    let q = Quad::new(ViewSize::new(300, 200), ViewSize::new(64, 32), None, None, 7u8);
    assert_eq!(q.dest_rect, Rect::new(0, 0, 300, 200));
    assert_eq!(q.src_rect, UvRect::full());
    assert_eq!(q.appearance, 7);

    let q = Quad::new(
        ViewSize::new(300, 200),
        ViewSize::new(64, 32),
        Some(Rect::new(16, 8, 32, 16)),
        Some(Rect::new(-5, 6, 7, 8)),
        (),
    );
    assert_eq!(q.dest_rect, Rect::new(-5, 6, 7, 8));
    assert_eq!(q.src_rect, UvRect { x: 16, y: 8, w: 32, h: 16, width: 64, height: 32 });
}

#[test]
fn normalizing_and_scaling_back_gives_the_rectangle() {
    let (width, height) = (640u32, 480u32);
    for rect in [Rect::new(0, 0, 640, 480), Rect::new(13, 77, 100, 3), Rect::new(639, 479, 1, 1)] {
        let uv = rect.normalized(width, height);
        let fractions = [
            uv.x as f32 / uv.width as f32,
            uv.y as f32 / uv.height as f32,
            uv.w as f32 / uv.width as f32,
            uv.h as f32 / uv.height as f32,
        ];
        let back = [
            fractions[0] * width as f32,
            fractions[1] * height as f32,
            fractions[2] * width as f32,
            fractions[3] * height as f32,
        ];
        let expected = [rect.x as f32, rect.y as f32, rect.w as f32, rect.h as f32];
        for k in 0..4 {
            assert!((back[k] - expected[k]).abs() < 1e-3, "{:?} came back as {:?}", rect, back);
        }
    }
}

#[test]
fn normalized_keeps_numerators_and_sizes() {
    let uv = Rect::new(-3, 4, 5, 6).normalized(10, 20);
    assert_eq!(uv, UvRect { x: -3, y: 4, w: 5, h: 6, width: 10, height: 20 });
}

#[test]
fn rectangles_touching_at_an_edge_do_not_intersect() {
    let viewport = Rect::from(ViewSize::new(800, 600));
    assert!(!Rect::new(800, 0, 10, 10).intersects(viewport));
    assert!(Rect::new(799, 0, 10, 10).intersects(viewport));
    assert!(!Rect::new(0, 600, 10, 10).intersects(viewport));
    assert!(Rect::new(0, 599, 10, 10).intersects(viewport));
    assert!(!Rect::new(-10, 0, 10, 10).intersects(viewport));
    assert!(Rect::new(-9, -9, 10, 10).intersects(viewport));
}

#[test]
fn a_large_rectangle_around_the_viewport_intersects_it() {
    let viewport = Rect::from(ViewSize::new(800, 600));
    assert!(Rect::new(-100, -100, 2000, 2000).intersects(viewport));
    assert!(viewport.intersects(Rect::new(-100, -100, 2000, 2000)));
    assert!(Rect::new(-100, 300, 2000, 1).intersects(viewport));
}

#[test]
fn empty_rectangles_intersect_nothing() {
    let viewport = Rect::from(ViewSize::new(800, 600));
    assert!(!Rect::new(10, 10, 0, 5).intersects(viewport));
    assert!(!Rect::new(10, 10, 5, 0).intersects(viewport));
    assert!(!viewport.intersects(Rect::new(10, 10, 0, 0)));
}

#[test]
fn extreme_coordinates_do_not_overflow() {
    let far = Rect::new(i32::MAX, i32::MAX, u32::MAX, u32::MAX);
    let near = Rect::new(i32::MIN, i32::MIN, u32::MAX, u32::MAX);
    assert!(!far.intersects(Rect::new(0, 0, 10, 10)));
    assert!(near.intersects(Rect::new(0, 0, 10, 10)));
    assert!(!far.intersects(near));
    assert!(Rect::new(i32::MAX - 1, 0, 5, 5).intersects(near));
}

#[test]
fn a_view_size_becomes_the_full_rectangle() {
    assert_eq!(Rect::from(ViewSize::new(12, 34)), Rect::new(0, 0, 12, 34));
    let size = ViewSize::new(5, 6);
    assert_eq!((size.width, size.height), (5, 6));
}

#[test]
fn constructors_keep_their_fields() {
    let c = Color::new(1, 2, 3, 4);
    assert_eq!((c.r, c.g, c.b, c.a), (1, 2, 3, 4));
    let r = Rect::new(-1, 2, 3, 4);
    assert_eq!((r.x, r.y, r.w, r.h), (-1, 2, 3, 4));
    assert_eq!(Texture::new(42).id(), 42);
    assert_eq!(UvRect::full(), UvRect { x: 0, y: 0, w: 1, h: 1, width: 1, height: 1 });
}

#[test]
fn texture_defaults() {
    assert_eq!(TextureFormat::default(), TextureFormat::Bgra8UnormSrgb);
    assert_eq!(TextureUsage::default(), TextureUsage::Default);
    let options = TextureLoadOptions::default();
    assert_eq!((options.width, options.height), (0, 0));
    assert!(options.name.is_none() && options.data.is_none());
}

#[test]
fn the_blank_backend_hands_out_fresh_handles() {
    let mut b = blank();
    let first = b.load_texture(TextureLoadOptions { width: 1, height: 1, ..Default::default() }).unwrap();
    let second = b.load_texture(TextureLoadOptions { width: 1, height: 1, ..Default::default() }).unwrap();
    assert_ne!(first, second);
    b.unload_texture(first);
    let third = b.load_texture(TextureLoadOptions { width: 1, height: 1, ..Default::default() }).unwrap();
    assert_ne!(third, first);
    assert_ne!(third, second);
}

#[test]
fn the_blank_backend_reports_what_was_loaded() {
    let mut b = blank();
    let named = b
        .load_texture(TextureLoadOptions {
            name: Some("hero"),
            data: Some(&[0u8; 16]),
            width: 2,
            height: 2,
            format: TextureFormat::Bgra8UnormSrgb,
            usage: TextureUsage::RenderTarget,
        })
        .unwrap();
    let query = b.query_texture(named).unwrap();
    assert_eq!(query.name.as_deref(), Some("hero"));
    assert_eq!((query.width, query.height), (2, 2));
    assert_eq!(query.format, TextureFormat::Bgra8UnormSrgb);
    assert_eq!(query.usage, TextureUsage::RenderTarget);

    let unnamed = b.load_texture(TextureLoadOptions { width: 200, height: 100, ..Default::default() }).unwrap();
    let query = b.query_texture(unnamed).unwrap();
    assert_eq!(query.name.as_deref(), Some("Untitled"));
    assert_eq!((query.width, query.height), (200, 100));
    assert_eq!(query.usage, TextureUsage::Default);

    b.unload_texture(unnamed);
    assert!(b.query_texture(unnamed).is_none());
    assert!(b.query_texture(named).is_some());
}

#[test]
fn the_blank_backend_keeps_the_viewport() {
    let mut b = blank();
    assert_eq!(b.viewport(), ViewSize::new(860, 640));
    b.resize_viewport(ViewSize::new(10, 20));
    assert_eq!(b.viewport(), ViewSize::new(10, 20));
    let quads: [Quad<()>; 0] = [];
    assert!(b.present(&[], &quads).is_ok());
    assert_eq!(b.viewport(), ViewSize::new(10, 20));
}

#[test]
fn handles_count_up_from_zero_and_are_never_reused() {
    let mut b = blank();
    let mut handles = Vec::new();
    for _ in 0..5 {
        handles.push(b.load_texture(TextureLoadOptions { width: 1, height: 1, ..Default::default() }).unwrap());
    }
    let ids: Vec<u32> = handles.iter().map(|t| t.id()).collect();
    assert_eq!(ids, vec![0, 1, 2, 3, 4]);
    b.unload_texture(handles[4]);
    b.unload_texture(handles[0]);
    let next = b.load_texture(TextureLoadOptions { width: 1, height: 1, ..Default::default() }).unwrap();
    assert_eq!(next.id(), 5);
}

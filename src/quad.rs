use vstd::prelude::*;

use crate::commons::{Rect, UvRect, ViewSize};

verus! {

/// One textured quad, ready for instanced drawing: where it lands, which part
/// of its texture it samples, and the per-draw data `A` (rotation, opacity)
/// that the batcher hands to the backend without reading it.
#[derive(Clone, Debug)]
pub struct Quad<A> {
    pub dest_rect: Rect,
    pub src_rect: UvRect,
    pub appearance: A,
}

impl<A> Quad<A> {
    /// The quad for one draw: `dest_rect` defaults to the whole target and
    /// `src_rect` to the whole texture; a given `src_rect` is normalized
    /// against the texture's size.
    pub open spec fn spec_new(
        target_size: ViewSize,
        texture_size: ViewSize,
        src_rect: Option<Rect>,
        dest_rect: Option<Rect>,
        appearance: A,
    ) -> Quad<A> {
        Quad {
            dest_rect: match dest_rect {
                Some(r) => r,
                None => target_size.full_rect(),
            },
            src_rect: match src_rect {
                Some(r) => r.normalized_spec(texture_size.width, texture_size.height),
                None => UvRect::full_spec(),
            },
            appearance,
        }
    }

    pub fn new(
        target_size: ViewSize,
        texture_size: ViewSize,
        src_rect: Option<Rect>,
        dest_rect: Option<Rect>,
        appearance: A,
    ) -> (q: Self)
        ensures
            q == Self::spec_new(target_size, texture_size, src_rect, dest_rect, appearance),
    {
        let dest_rect = match dest_rect {
            Some(r) => r,
            None => Rect::from(target_size),
        };
        let src_rect = match src_rect {
            Some(r) => r.normalized(texture_size.width, texture_size.height),
            None => UvRect::full(),
        };
        Quad { dest_rect, src_rect, appearance }
    }
}

/// The per-frame store of quads. Its contents are the first `next` slots;
/// the slots past them keep quads of earlier frames, which are overwritten
/// before they are read again. Slots are added when a push finds none free and
/// are never given back, so a frame of a size seen before allocates nothing.
pub struct QuadArrayVec<A> {
    quads: Vec<Quad<A>>,
    next: usize,
}

impl<A> View for QuadArrayVec<A> {
    type V = Seq<Quad<A>>;

    /// The quads pushed since the last `clear`, in order.
    closed spec fn view(&self) -> Seq<Quad<A>> {
        self.quads@.subrange(0, self.next as int)
    }
}

impl<A> QuadArrayVec<A> {
    pub closed spec fn wf(&self) -> bool {
        self.next <= self.quads@.len()
    }

    /// How many slots are allocated, in use or not.
    pub closed spec fn slots(&self) -> nat {
        self.quads@.len()
    }

    pub fn new() -> (r: Self)
        ensures
            r.wf(),
            r@ == Seq::<Quad<A>>::empty(),
            r.slots() == 0,
    {
        let r = Self { quads: Vec::with_capacity(1000), next: 0 };
        assert(r@ =~= Seq::<Quad<A>>::empty());
        r
    }

    /// Appends `quad`, taking a new slot when all are in use. The quads
    /// already pushed keep their places.
    pub fn push(&mut self, quad: Quad<A>)
        requires
            old(self).wf(),
            old(self)@.len() < usize::MAX,
        ensures
            final(self).wf(),
            final(self)@ == old(self)@.push(quad),
            final(self).slots() >= old(self).slots(),
    {
        if self.next < self.quads.len() {
            self.quads.set(self.next, quad);
        } else {
            self.quads.push(quad);
        }
        self.next = self.next + 1;
        assert(self@ =~= old(self)@.push(quad));
    }

    /// Empties the store and keeps its slots for the next frame.
    pub fn clear(&mut self)
        requires
            old(self).wf(),
        ensures
            final(self).wf(),
            final(self)@ == Seq::<Quad<A>>::empty(),
            final(self).slots() == old(self).slots(),
    {
        self.next = 0;
        assert(self@ =~= Seq::<Quad<A>>::empty());
    }

    /// The quads pushed since the last `clear`, and none of the stale ones.
    pub fn slice(&self) -> (r: &[Quad<A>])
        requires
            self.wf(),
        ensures
            r@ == self@,
    {
        vstd::slice::slice_subrange(self.quads.as_slice(), 0, self.next)
    }

    /// How many quads were pushed since the last `clear`.
    pub fn next(&self) -> (r: usize)
        requires
            self.wf(),
        ensures
            r == self@.len(),
    {
        self.next
    }
}

/// The contents of a store after `items` are pushed, one at a time and in
/// order, onto a store holding `start`.
pub open spec fn pushed_all<A>(start: Seq<Quad<A>>, items: Seq<Quad<A>>) -> Seq<Quad<A>>
    decreases items.len(),
{
    if items.len() == 0 {
        start
    } else {
        pushed_all(start, items.drop_last()).push(items.last())
    }
}

/// Pushing quads one by one onto an empty store, however many slots that
/// adds, leaves the `i`-th quad pushed at index `i`.
pub proof fn lemma_pushes_keep_order<A>(items: Seq<Quad<A>>)
    ensures
        pushed_all(Seq::empty(), items).len() == items.len(),
        forall|i: int| 0 <= i < items.len() ==> #[trigger] pushed_all(Seq::empty(), items)[i] == items[i],
    decreases items.len(),
{
    if items.len() > 0 {
        lemma_pushes_keep_order(items.drop_last());
        assert(pushed_all(Seq::empty(), items) =~= items);
    } else {
        assert(pushed_all(Seq::empty(), items) =~= items);
    }
}

} // verus!

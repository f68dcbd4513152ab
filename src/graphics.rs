use vstd::prelude::*;

use std::ops::Range;

use crate::backend::{commands_fit, lookup, texture_added, Backend, PresentError};
use crate::batch::{TextureBatch, TextureBatchOptions};
use crate::commons::{overlaps, Color, Rect, ViewSize};
use crate::quad::{Quad, QuadArrayVec};
use crate::texture::{Texture, TextureLoadOptions, TextureQuery, TextureUsage};

verus! {

/// One step of a frame, as handed to the backend.
#[derive(Debug)]
pub enum DrawCommand {
    DrawTextureBatch(DrawTextureBatchCommand),
    Clear(ClearCommand),
}

/// Fills `target` (the viewport when `None`) with `color`.
#[derive(Copy, Clone, Debug, PartialEq, Eq, Structural)]
pub struct ClearCommand {
    pub target: Option<Texture>,
    pub color: Color,
}

/// Draws the quads of `range` with `texture` into `target` (the viewport when
/// `None`), in one instanced draw.
#[derive(Debug)]
pub struct DrawTextureBatchCommand {
    pub texture: Texture,
    pub target: Option<Texture>,
    pub range: Range<usize>,
}

/// Why a draw was refused. A refused draw changes nothing.
#[derive(Copy, Clone, Debug, PartialEq, Eq, Structural)]
pub enum DrawError {
    /// The texture to draw is not held by the backend.
    TextureNotFound,
    /// The target is not held by the backend.
    TargetNotFound,
    /// The target was not created as a render target.
    InvalidTarget,
    /// The texture would be drawn into itself.
    SelfTargetError,
}

/// What to draw of a texture, and where. `src_rect` defaults to the whole
/// texture and `dest_rect` to the whole target; `appearance` travels with the
/// quad to the backend.
#[derive(Copy, Clone, Debug, Default)]
pub struct DrawOptions<A> {
    pub src_rect: Option<Rect>,
    pub dest_rect: Option<Rect>,
    pub appearance: A,
}

impl DrawCommand {
    /// Whether this command is fit to run against `n` quads: a batch draws a
    /// non-empty range of them.
    pub open spec fn fits(self, n: int) -> bool {
        match self {
            DrawCommand::DrawTextureBatch(c) => c.range.start < c.range.end <= n,
            DrawCommand::Clear(_) => true,
        }
    }

    /// Whether this command is a batch of `texture` drawn into `target`.
    pub open spec fn is_batch_of(self, texture: Texture, target: Option<Texture>) -> bool {
        match self {
            DrawCommand::DrawTextureBatch(c) => c.texture == texture && c.target == target,
            DrawCommand::Clear(_) => false,
        }
    }

    /// The quads a batch draws; nothing for a clear.
    pub open spec fn quad_range(self) -> Range<usize> {
        match self {
            DrawCommand::DrawTextureBatch(c) => c.range,
            DrawCommand::Clear(_) => Range { start: 0, end: 0 },
        }
    }
}

/// The batch of `texture` into `target` over the quads `start..end`.
pub open spec fn batch(texture: Texture, target: Option<Texture>, start: int, end: int) -> DrawCommand {
    DrawCommand::DrawTextureBatch(
        DrawTextureBatchCommand {
            texture,
            target,
            range: Range { start: start as usize, end: end as usize },
        },
    )
}

/// The queue's invariant over `n` quads: each batch draws a non-empty range
/// of them, the ranges follow one another in the queue's order, and a batch at
/// the tail ends at the last quad.
pub open spec fn queue_wf(commands: Seq<DrawCommand>, n: int) -> bool {
    &&& commands_fit(commands, n)
    &&& commands.len() > 0 && commands.last() is DrawTextureBatch
        ==> commands.last().quad_range().end == n
    &&& forall|i: int, j: int|
        0 <= i < j < commands.len() && commands[i] is DrawTextureBatch
            && commands[j] is DrawTextureBatch ==> #[trigger] commands[i].quad_range().end
            <= #[trigger] commands[j].quad_range().start
}

/// The queue after the quad at `index` is drawn with `texture` into `target`:
/// a batch of the same pair at the tail takes it in; otherwise a new batch of
/// that one quad is appended.
pub open spec fn record_draw(
    commands: Seq<DrawCommand>,
    texture: Texture,
    target: Option<Texture>,
    index: int,
) -> Seq<DrawCommand> {
    if commands.len() > 0 && commands.last().is_batch_of(texture, target) {
        commands.update(
            commands.len() - 1,
            batch(texture, target, commands.last().quad_range().start as int, index + 1),
        )
    } else {
        commands.push(batch(texture, target, index, index + 1))
    }
}

/// The queue after `n` draws in a row with `texture` into `target`, of the
/// quads `start..start + n`.
pub open spec fn record_draws(
    commands: Seq<DrawCommand>,
    texture: Texture,
    target: Option<Texture>,
    start: int,
    n: nat,
) -> Seq<DrawCommand>
    decreases n,
{
    if n == 0 {
        commands
    } else {
        record_draw(
            record_draws(commands, texture, target, start, (n - 1) as nat),
            texture,
            target,
            start + n - 1,
        )
    }
}

/// The size a draw into `target` works with, or the error that refuses it:
/// the viewport's size when there is no target; else the target's, which must
/// be another texture, held, and a render target.
pub open spec fn target_size_for(
    textures: Map<u32, TextureQuery>,
    viewport: ViewSize,
    texture: Texture,
    target: Option<Texture>,
) -> Result<ViewSize, DrawError> {
    match target {
        None => Ok(viewport),
        Some(t) => if t == texture {
            Err(DrawError::SelfTargetError)
        } else if !textures.contains_key(t@) {
            Err(DrawError::TargetNotFound)
        } else if textures[t@].usage != TextureUsage::RenderTarget {
            Err(DrawError::InvalidTarget)
        } else {
            Ok(textures[t@].size_spec())
        },
    }
}

/// The target's and the texture's sizes for a draw of `texture` into
/// `target`, or the error that refuses it.
pub open spec fn draw_sizes(
    textures: Map<u32, TextureQuery>,
    viewport: ViewSize,
    texture: Texture,
    target: Option<Texture>,
) -> Result<(ViewSize, ViewSize), DrawError> {
    match target_size_for(textures, viewport, texture, target) {
        Err(e) => Err(e),
        Ok(target_size) => if textures.contains_key(texture@) {
            Ok((target_size, textures[texture@].size_spec()))
        } else {
            Err(DrawError::TextureNotFound)
        },
    }
}

/// The state of a `Graphics`: its backend, the viewport's size, and the
/// frame recorded so far.
pub struct GraphicsView<B, A> {
    pub backend: B,
    pub viewport_size: ViewSize,
    pub commands: Seq<DrawCommand>,
    pub quads: Seq<Quad<A>>,
}

impl<B: Backend<A>, A> GraphicsView<B, A> {
    pub open spec fn wf(self) -> bool {
        queue_wf(self.commands, self.quads.len() as int)
    }

    /// This state with the frame recorded so far replaced.
    pub open spec fn with_frame(self, commands: Seq<DrawCommand>, quads: Seq<Quad<A>>) -> Self {
        GraphicsView { backend: self.backend, viewport_size: self.viewport_size, commands, quads }
    }

    /// `after` is this state once `texture` was drawn into `target` with
    /// `options`, and `r` was returned. A refused draw changes nothing. A quad
    /// that misses the target entirely is dropped without an error. Else the
    /// quad is appended and the queue records it.
    pub open spec fn drew(
        self,
        after: Self,
        texture: Texture,
        target: Option<Texture>,
        options: DrawOptions<A>,
        r: Result<(), DrawError>,
    ) -> bool {
        match draw_sizes(self.backend.textures(), self.viewport_size, texture, target) {
            Err(e) => r == Err::<(), DrawError>(e) && after == self,
            Ok((target_size, texture_size)) => {
                let quad = Quad::spec_new(
                    target_size,
                    texture_size,
                    options.src_rect,
                    options.dest_rect,
                    options.appearance,
                );
                &&& r == Ok::<(), DrawError>(())
                &&& if overlaps(quad.dest_rect, target_size.full_rect()) {
                    after == self.with_frame(
                        record_draw(self.commands, texture, target, self.quads.len() as int),
                        self.quads.push(quad),
                    )
                } else {
                    after == self
                }
            },
        }
    }

    /// `after` is this state once the backend ran the recorded frame, ending
    /// as `mid` with `rb`, and `r` was returned. On success `r` is `Ok`. When
    /// the surface was unavailable the viewport is set again on the backend and
    /// `r` is `Ok`. Any other failure of the backend is returned as it came.
    pub open spec fn presented_via(
        self,
        after: Self,
        r: Result<(), PresentError>,
        mid: B,
        rb: Result<(), PresentError>,
    ) -> bool {
        &&& self.backend.ran_frame(&mid, self.commands, self.quads, rb)
        &&& match rb {
            Ok(()) => r == Ok::<(), PresentError>(()) && after.backend == mid,
            Err(PresentError::SurfaceUnavailable) => {
                &&& r == Ok::<(), PresentError>(())
                &&& after.backend.viewport_size() == self.viewport_size
                &&& after.backend.textures() == mid.textures()
                &&& after.backend.next_handle() == mid.next_handle()
                &&& after.backend.can_load() == mid.can_load()
            },
            Err(e) => r == Err::<(), PresentError>(e) && after.backend == mid,
        }
    }

    /// `after` is this state once the frame was handed to the backend, once,
    /// and `r` returned: the frame is gone; the viewport, the textures and the
    /// handles stay.
    pub open spec fn presented(self, after: Self, r: Result<(), PresentError>) -> bool {
        &&& after.commands == Seq::<DrawCommand>::empty()
        &&& after.quads == Seq::<Quad<A>>::empty()
        &&& after.viewport_size == self.viewport_size
        &&& after.backend.textures() == self.backend.textures()
        &&& after.backend.next_handle() == self.backend.next_handle()
        &&& after.backend.can_load() == self.backend.can_load()
        &&& exists|mid: B, rb: Result<(), PresentError>| #[trigger]
            self.presented_via(after, r, mid, rb)
    }
}

/// The front end of the renderer: it checks draws, batches them into a
/// command queue with their quads, and hands each frame to the backend.
pub struct Graphics<B: Backend<A>, A> {
    backend: B,
    viewport_size: ViewSize,
    commands: Vec<DrawCommand>,
    quads: QuadArrayVec<A>,
}

impl<B: Backend<A>, A> View for Graphics<B, A> {
    type V = GraphicsView<B, A>;

    closed spec fn view(&self) -> GraphicsView<B, A> {
        GraphicsView {
            backend: self.backend,
            viewport_size: self.viewport_size,
            commands: self.commands@,
            quads: self.quads@,
        }
    }
}

/// Recording one more draw keeps the queue's invariant, with one more quad.
proof fn lemma_record_draw_wf(
    commands: Seq<DrawCommand>,
    texture: Texture,
    target: Option<Texture>,
    n: int,
)
    requires
        queue_wf(commands, n),
        0 <= n < usize::MAX,
    ensures
        queue_wf(record_draw(commands, texture, target, n), n + 1),
{
    let after = record_draw(commands, texture, target, n);
    assert forall|i: int| 0 <= i < after.len() implies #[trigger] after[i].fits(n + 1) by {
        if i < commands.len() {
            assert(commands[i].fits(n));
        }
    }
    assert forall|i: int, j: int|
        0 <= i < j < after.len() && after[i] is DrawTextureBatch
            && after[j] is DrawTextureBatch implies #[trigger] after[i].quad_range().end
        <= #[trigger] after[j].quad_range().start by {
        assert(commands[i].fits(n));
        if j < commands.len() {
            assert(commands[i].quad_range().end <= commands[j].quad_range().start);
        }
    }
}

impl<B: Backend<A>, A> Graphics<B, A> {
    pub closed spec fn wf(&self) -> bool {
        self.quads.wf() && self@.wf()
    }

    /// How many quad slots the store has allocated; a frame of that many
    /// quads or fewer allocates nothing.
    pub closed spec fn quad_slots(&self) -> nat {
        self.quads.slots()
    }

    pub fn new(backend: B) -> (g: Self)
        ensures
            g.wf(),
            g@.wf(),
            g.quad_slots() == 0,
            g@.backend == backend,
            g@.viewport_size == backend.viewport_size(),
            g@.commands == Seq::<DrawCommand>::empty(),
            g@.quads == Seq::<Quad<A>>::empty(),
    {
        let viewport_size = backend.viewport();
        let commands = Vec::with_capacity(1000);
        let quads = QuadArrayVec::new();
        Self { backend, viewport_size, commands, quads }
    }

    /// Checks that `texture` can be drawn into `options.target` now, and gives
    /// the batch through which to draw it.
    pub fn new_batch(&self, options: TextureBatchOptions) -> (r: Result<TextureBatch, DrawError>)
        ensures
            match draw_sizes(
                self@.backend.textures(),
                self@.viewport_size,
                options.texture,
                options.target,
            ) {
                Ok(_) => r == Ok::<TextureBatch, DrawError>(TextureBatch { options }),
                Err(e) => r == Err::<TextureBatch, DrawError>(e),
            },
    {
        match self.try_get_batch_view_size(options.texture, options.target) {
            Ok(_) => {},
            Err(e) => return Err(e),
        }
        match self.backend.query_texture(options.texture) {
            Some(_) => Ok(TextureBatch { options }),
            None => Err(DrawError::TextureNotFound),
        }
    }

    /// Appends a command that fills `target` (the viewport when `None`) with
    /// `color`. Clears are never merged.
    pub fn clear(&mut self, color: Color, target: Option<Texture>)
        requires
            old(self).wf(),
        ensures
            final(self).wf(),
            final(self)@.wf(),
            final(self)@ == old(self)@.with_frame(
                old(self)@.commands.push(DrawCommand::Clear(ClearCommand { target, color })),
                old(self)@.quads,
            ),
    {
        self.commands.push(DrawCommand::Clear(ClearCommand { target, color }));
        proof {
            let c = self.commands@;
            assert forall|i: int| 0 <= i < c.len() implies #[trigger] c[i].fits(
                self.quads@.len() as int,
            ) by {
                if i < c.len() - 1 {
                    assert(old(self).commands@[i].fits(self.quads@.len() as int));
                }
            }
        }
    }

    /// Draws `texture` into `target` (the viewport when `None`).
    ///
    /// The draw is checked first: the target must be another texture, held by
    /// the backend and made as a render target; the texture must be held. A
    /// refused draw returns its error and changes nothing. A quad that misses
    /// the target entirely is dropped. Else the quad is appended, and the batch
    /// at the tail of the queue takes it in when it draws the same texture into
    /// the same target; otherwise a new batch starts with it.
    pub fn draw_texture(
        &mut self,
        texture: Texture,
        target: Option<Texture>,
        options: DrawOptions<A>,
    ) -> (r: Result<(), DrawError>)
        requires
            old(self).wf(),
            old(self)@.quads.len() < usize::MAX,
        ensures
            final(self).wf(),
            final(self)@.wf(),
            old(self)@.drew(final(self)@, texture, target, options, r),
            final(self).quad_slots() >= old(self).quad_slots(),
    {
        let target_size = match self.try_get_batch_view_size(texture, target) {
            Ok(size) => size,
            Err(e) => return Err(e),
        };
        let texture_size = match self.backend.query_texture(texture) {
            Some(query) => ViewSize::new(query.width, query.height),
            None => return Err(DrawError::TextureNotFound),
        };
        let quad = Quad::new(
            target_size,
            texture_size,
            options.src_rect,
            options.dest_rect,
            options.appearance,
        );
        if !quad.dest_rect.intersects(Rect::from(target_size)) {
            return Ok(());
        }
        let index = self.quads.next();
        self.push_command_if_necessary(texture, target, index);
        self.quads.push(quad);
        proof {
            lemma_record_draw_wf(old(self)@.commands, texture, target, index as int);
        }
        Ok(())
    }

    /// Hands the frame to the backend, then empties the queue and the quads
    /// for the next frame. When the surface was unavailable, the frame is
    /// dropped and the viewport is set again.
    pub fn present(&mut self) -> (r: Result<(), PresentError>)
        requires
            old(self).wf(),
        ensures
            final(self).wf(),
            final(self)@.wf(),
            old(self)@.presented(final(self)@, r),
            final(self).quad_slots() == old(self).quad_slots(),
    {
        let result = self.backend.present(self.commands.as_slice(), self.quads.slice());
        let ghost mid = self.backend;
        let ghost rb = result;
        self.commands.clear();
        self.quads.clear();
        let r = match result {
            Ok(()) => Ok(()),
            Err(PresentError::SurfaceUnavailable) => {
                self.backend.resize_viewport(self.viewport_size);
                Ok(())
            },
            Err(e) => Err(e),
        };
        assert(old(self)@.presented_via(self@, r, mid, rb));
        r
    }

    pub fn load_texture(&mut self, options: TextureLoadOptions) -> (r: Result<Texture, String>)
        requires
            old(self).wf(),
        ensures
            final(self).wf(),
            final(self)@.wf(),
            final(self)@.viewport_size == old(self)@.viewport_size,
            final(self)@.commands == old(self)@.commands,
            final(self)@.quads == old(self)@.quads,
            final(self)@.backend.viewport_size() == old(self)@.backend.viewport_size(),
            old(self)@.backend.can_load() ==> r is Ok,
            match r {
                Ok(texture) => {
                    &&& texture@ == old(self)@.backend.next_handle()
                    &&& final(self)@.backend.next_handle() == old(self)@.backend.next_handle() + 1
                    &&& texture_added(
                        old(self)@.backend.textures(),
                        final(self)@.backend.textures(),
                        texture,
                        options,
                    )
                },
                Err(_) => {
                    &&& final(self)@.backend.textures() == old(self)@.backend.textures()
                    &&& final(self)@.backend.next_handle() == old(self)@.backend.next_handle()
                },
            },
    {
        self.backend.load_texture(options)
    }

    pub fn unload_texture(&mut self, texture: Texture)
        requires
            old(self).wf(),
        ensures
            final(self).wf(),
            final(self)@.wf(),
            final(self)@.viewport_size == old(self)@.viewport_size,
            final(self)@.commands == old(self)@.commands,
            final(self)@.quads == old(self)@.quads,
            final(self)@.backend.viewport_size() == old(self)@.backend.viewport_size(),
            final(self)@.backend.textures() == old(self)@.backend.textures().remove(texture@),
            final(self)@.backend.next_handle() == old(self)@.backend.next_handle(),
            final(self)@.backend.can_load() == old(self)@.backend.can_load(),
    {
        self.backend.unload_texture(texture);
    }

    pub fn query_texture(&self, texture: Texture) -> (r: Option<TextureQuery>)
        ensures
            r == lookup(self@.backend.textures(), texture),
    {
        self.backend.query_texture(texture)
    }

    /// Sets the viewport's size, here and in the backend. Commands already
    /// queued are kept as they are.
    pub fn resize_viewport(&mut self, new_size: ViewSize)
        requires
            old(self).wf(),
        ensures
            final(self).wf(),
            final(self)@.wf(),
            final(self)@.viewport_size == new_size,
            final(self)@.commands == old(self)@.commands,
            final(self)@.quads == old(self)@.quads,
            final(self)@.backend.viewport_size() == new_size,
            final(self)@.backend.textures() == old(self)@.backend.textures(),
            final(self)@.backend.next_handle() == old(self)@.backend.next_handle(),
            final(self)@.backend.can_load() == old(self)@.backend.can_load(),
    {
        self.viewport_size = new_size;
        self.backend.resize_viewport(new_size);
    }

    pub fn backend(&mut self) -> (r: &mut B)
        requires
            old(self).wf(),
        ensures
            *r == old(self)@.backend,
            final(self).wf(),
            final(self)@.wf(),
            final(self)@ == (GraphicsView {
                backend: *final(r),
                viewport_size: old(self)@.viewport_size,
                commands: old(self)@.commands,
                quads: old(self)@.quads,
            }),
    {
        &mut self.backend
    }

    /// The commands recorded for the frame so far.
    pub fn commands(&self) -> (r: &[DrawCommand])
        ensures
            r@ == self@.commands,
    {
        self.commands.as_slice()
    }

    /// The quads recorded for the frame so far.
    pub fn quads(&self) -> (r: &[Quad<A>])
        requires
            self.wf(),
        ensures
            r@ == self@.quads,
    {
        self.quads.slice()
    }

    /// The viewport's size as last set.
    pub fn viewport(&self) -> (r: ViewSize)
        ensures
            r == self@.viewport_size,
    {
        self.viewport_size
    }

    /// Makes the command queue take in the quad at `index`, the next one.
    fn push_command_if_necessary(&mut self, texture: Texture, target: Option<Texture>, index: usize)
        requires
            old(self).wf(),
            index == old(self)@.quads.len(),
            index < usize::MAX,
        ensures
            final(self).quads == old(self).quads,
            final(self).backend == old(self).backend,
            final(self).viewport_size == old(self).viewport_size,
            final(self).commands@ == record_draw(
                old(self).commands@,
                texture,
                target,
                index as int,
            ),
    {
        let n = self.commands.len();
        if n > 0 {
            let merge = match &self.commands[n - 1] {
                DrawCommand::DrawTextureBatch(c) => if c.texture == texture && c.target == target {
                    Some(c.range.start)
                } else {
                    None
                },
                DrawCommand::Clear(_) => None,
            };
            if let Some(start) = merge {
                self.commands.set(
                    n - 1,
                    DrawCommand::DrawTextureBatch(
                        DrawTextureBatchCommand { texture, target, range: start..index + 1 },
                    ),
                );
                return ;
            }
        }
        self.commands.push(
            DrawCommand::DrawTextureBatch(
                DrawTextureBatchCommand { texture, target, range: index..index + 1 },
            ),
        );
    }

    /// The size of the surface a draw into `target` lands on, once the target
    /// is found fit.
    fn try_get_batch_view_size(&self, texture: Texture, target: Option<Texture>) -> (r: Result<
        ViewSize,
        DrawError,
    >)
        ensures
            r == target_size_for(
                self@.backend.textures(),
                self@.viewport_size,
                texture,
                target,
            ),
    {
        match target {
            None => Ok(self.viewport_size),
            Some(t) => {
                if t == texture {
                    return Err(DrawError::SelfTargetError);
                }
                match self.backend.query_texture(t) {
                    None => Err(DrawError::TargetNotFound),
                    Some(query) => {
                        if query.usage != TextureUsage::RenderTarget {
                            Err(DrawError::InvalidTarget)
                        } else {
                            Ok(ViewSize::new(query.width, query.height))
                        }
                    },
                }
            },
        }
    }
}

/// Draws in a row of one texture into one target make one batch. Onto a
/// queue whose tail is not a batch of that pair, `n` such draws of the quads
/// `start..start + n` append a single batch of those `n` quads; onto a tail
/// batch of that pair, they extend it to end at `start + n`.
pub proof fn lemma_consecutive_draws_merge(
    commands: Seq<DrawCommand>,
    texture: Texture,
    target: Option<Texture>,
    start: int,
    n: nat,
)
    requires
        n >= 1,
        0 <= start,
        start + n <= usize::MAX,
    ensures
        if commands.len() > 0 && commands.last().is_batch_of(texture, target) {
            record_draws(commands, texture, target, start, n) == commands.update(
                commands.len() - 1,
                batch(texture, target, commands.last().quad_range().start as int, start + n),
            )
        } else {
            record_draws(commands, texture, target, start, n) == commands.push(
                batch(texture, target, start, start + n),
            )
        },
    decreases n,
{
    assert(record_draws(commands, texture, target, start, 0) == commands);
    if n > 1 {
        lemma_consecutive_draws_merge(commands, texture, target, start, (n - 1) as nat);
        let before = record_draws(commands, texture, target, start, (n - 1) as nat);
        if commands.len() > 0 && commands.last().is_batch_of(texture, target) {
            assert(before.last().quad_range().start == commands.last().quad_range().start);
            assert(record_draws(commands, texture, target, start, n) =~= commands.update(
                commands.len() - 1,
                batch(texture, target, commands.last().quad_range().start as int, start + n),
            ));
        } else {
            assert(before.last().quad_range().start as int == start);
            assert(record_draws(commands, texture, target, start, n) =~= commands.push(
                batch(texture, target, start, start + n),
            ));
        }
    }
}

/// A draw made after any other command starts a new batch, even when a batch
/// of the same texture and target stands before that command.
pub proof fn lemma_intervening_command_splits(
    commands: Seq<DrawCommand>,
    other: DrawCommand,
    texture: Texture,
    target: Option<Texture>,
    index: int,
)
    requires
        !other.is_batch_of(texture, target),
    ensures
        record_draw(commands.push(other), texture, target, index) == commands.push(other).push(
            batch(texture, target, index, index + 1),
        ),
{
    assert(commands.push(other).last() == other);
}

/// Presenting leaves no command and no quad behind, and presenting again with
/// nothing drawn in between hands the backend an empty frame and leaves none
/// either; the viewport and the textures stay as they were.
pub proof fn lemma_present_twice_empty<B: Backend<A>, A>(
    g0: GraphicsView<B, A>,
    g1: GraphicsView<B, A>,
    g2: GraphicsView<B, A>,
    r1: Result<(), PresentError>,
    r2: Result<(), PresentError>,
)
    requires
        g0.presented(g1, r1),
        g1.presented(g2, r2),
    ensures
        g1.commands.len() == 0,
        g1.quads.len() == 0,
        g2.commands.len() == 0,
        g2.quads.len() == 0,
        exists|mid: B, rb: Result<(), PresentError>|
            #[trigger] g1.backend.ran_frame(&mid, Seq::empty(), Seq::empty(), rb),
        g2.viewport_size == g0.viewport_size,
        g2.backend.textures() == g0.backend.textures(),
{
    let (mid, rb) = choose|mid: B, rb: Result<(), PresentError>| #[trigger]
        g1.presented_via(g2, r2, mid, rb);
    assert(g1.backend.ran_frame(&mid, Seq::empty(), Seq::empty(), rb));
}

} // verus!

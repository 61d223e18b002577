//! Nested scoped capabilities that encode the legal GPU call order.
//!
//! Entering the [`Pipeline`] binds a render target and clears it; only a
//! held `Pipeline` yields a [`ShadingGate`], which binds a program; only a
//! held `ShadingGate` yields a [`RenderGate`], which applies fixed-function
//! state; only a held `RenderGate` yields a [`TessGate`], the one place
//! draw calls can be issued. Each gate mutably borrows its parent for as
//! long as it lives, so scopes nest properly, and each gate's contract
//! proves that the backend's command record only ever grows inside the
//! scope's own level — drawing before binding is unrepresentable, and
//! reusing a gate after its target or program was rebound is rejected by
//! the verifier.

use vstd::prelude::*;
use core::marker::PhantomData;
use crate::context::ClearColor;
use crate::context::HasContext;
use crate::context::RenderCmd;
use crate::context::cmd_level;
use crate::framebuffer::Framebuffer;
use crate::framebuffer::HasFramebuffer;
use crate::render_state::HasRenderState;
use crate::render_state::RenderState;
use crate::shader::program::HasProgram;
use crate::shader::program::Program;
use crate::tess::HasTess;
use crate::tess::Tess;

verus! {

/// A scope entered when the backend had issued `entry` is still usable
/// against the record `cmds`: nothing was rewound, and everything issued
/// since belongs to the scope's `level` or deeper.
pub open spec fn scope_active(entry: Seq<RenderCmd>, cmds: Seq<RenderCmd>, level: int) -> bool {
    &&& entry.is_prefix_of(cmds)
    &&& forall|i: int| entry.len() <= i < cmds.len() ==> cmd_level(cmds[i]) >= level
}

/// Appending commands of a scope's level or deeper keeps the scope usable.
pub proof fn lemma_scope_active_append(
    entry: Seq<RenderCmd>,
    cmds: Seq<RenderCmd>,
    tail: Seq<RenderCmd>,
    level: int,
)
    requires
        scope_active(entry, cmds, level),
        forall|i: int| 0 <= i < tail.len() ==> cmd_level(tail[i]) >= level,
    ensures
        scope_active(entry, cmds + tail, level),
{
    assert(entry =~= (cmds + tail).subrange(0, entry.len() as int));
    assert forall|i: int| entry.len() <= i < (cmds + tail).len() implies cmd_level(
        (cmds + tail)[i],
    ) >= level by {
        if i < cmds.len() {
            assert((cmds + tail)[i] == cmds[i]);
        } else {
            assert((cmds + tail)[i] == tail[i - cmds.len()]);
        }
    }
}

/// The outermost gate: a render target is bound and cleared for the span
/// of this value's life.
pub struct Pipeline {
    entry: Ghost<Seq<RenderCmd>>,
}

impl Pipeline {
    /// The backend's command record when this scope was entered.
    pub closed spec fn entry_at(&self) -> Seq<RenderCmd> {
        self.entry@
    }

    /// The scope is still usable against the record `cmds`.
    pub open spec fn active(&self, cmds: Seq<RenderCmd>) -> bool {
        scope_active(self.entry_at(), cmds, 1)
    }

    /// Enter the pipeline: bind `fb` as the render target and clear it to
    /// `clear`. The returned gate is the only way to a [`ShadingGate`].
    pub fn new<C: HasFramebuffer>(ctx: &mut C, fb: &Framebuffer<C>, clear: ClearColor) -> (p:
        Pipeline)
        ensures
            final(ctx).cmds() =~= old(ctx).cmds() + seq![
                (RenderCmd::BindFramebuffer {
                    fb: fb.id(),
                    width: fb.width(),
                    height: fb.height(),
                }),
                (RenderCmd::Clear { color: clear }),
            ],
            p.entry_at() == final(ctx).cmds(),
            p.active(final(ctx).cmds()),
    {
        ctx.bind_framebuffer(&fb.repr, clear);
        Pipeline { entry: Ghost(ctx.cmds()) }
    }

    /// Enter a shading scope: bind `program` for the span of the returned
    /// gate's life. Several shading scopes may be entered one after the
    /// other inside one pipeline scope (multi-pass shading).
    pub fn shade<'s, C: HasProgram>(&'s mut self, ctx: &mut C, program: &Program<C>) -> (g:
        ShadingGate<'s>)
        requires
            old(self).active(old(ctx).cmds()),
        ensures
            final(ctx).cmds() =~= old(ctx).cmds() + seq![
                (RenderCmd::BindProgram { program: program.id() }),
            ],
            final(self).entry_at() == old(self).entry_at(),
            final(self).active(final(ctx).cmds()),
            g.entry_at() == final(ctx).cmds(),
            g.active(final(ctx).cmds()),
            forall|e: Seq<RenderCmd>, l: int|
                #![trigger scope_active(e, final(ctx).cmds(), l)]
                l <= 1 && scope_active(e, old(ctx).cmds(), l) ==> scope_active(
                    e,
                    final(ctx).cmds(),
                    l,
                ),
    {
        ctx.bind_program(&program.repr);
        proof {
            let tail = seq![RenderCmd::BindProgram { program: program.id() }];
            assert forall|e: Seq<RenderCmd>, l: int|
                l <= 1 && scope_active(e, old(ctx).cmds(), l) implies scope_active(
                e,
                ctx.cmds(),
                l,
            ) by {
                lemma_scope_active_append(e, old(ctx).cmds(), tail, l);
            }
        }
        ShadingGate { entry: Ghost(ctx.cmds()), _scope: PhantomData }
    }
}

/// The scope in which one program is bound: yields uniform updates through
/// the program and, inside, render-state scopes.
pub struct ShadingGate<'a> {
    entry: Ghost<Seq<RenderCmd>>,
    _scope: PhantomData<&'a ()>,
}

impl<'a> ShadingGate<'a> {
    /// The backend's command record when this scope was entered.
    pub closed spec fn entry_at(&self) -> Seq<RenderCmd> {
        self.entry@
    }

    /// The scope is still usable against the record `cmds`.
    pub open spec fn active(&self, cmds: Seq<RenderCmd>) -> bool {
        scope_active(self.entry_at(), cmds, 2)
    }

    /// Enter a render scope: apply the fixed-function `state` for the span
    /// of the returned gate's life.
    pub fn render<'r, C: HasRenderState>(&'r mut self, ctx: &mut C, state: RenderState) -> (g:
        RenderGate<'r>)
        requires
            old(self).active(old(ctx).cmds()),
        ensures
            final(ctx).cmds() =~= old(ctx).cmds() + seq![(RenderCmd::ApplyRenderState { state })],
            final(self).entry_at() == old(self).entry_at(),
            final(self).active(final(ctx).cmds()),
            g.entry_at() == final(ctx).cmds(),
            g.active(final(ctx).cmds()),
            forall|e: Seq<RenderCmd>, l: int|
                #![trigger scope_active(e, final(ctx).cmds(), l)]
                l <= 2 && scope_active(e, old(ctx).cmds(), l) ==> scope_active(
                    e,
                    final(ctx).cmds(),
                    l,
                ),
    {
        ctx.apply_render_state(state);
        proof {
            let tail = seq![RenderCmd::ApplyRenderState { state }];
            assert forall|e: Seq<RenderCmd>, l: int|
                l <= 2 && scope_active(e, old(ctx).cmds(), l) implies scope_active(
                e,
                ctx.cmds(),
                l,
            ) by {
                lemma_scope_active_append(e, old(ctx).cmds(), tail, l);
            }
        }
        RenderGate { entry: Ghost(ctx.cmds()), _scope: PhantomData }
    }
}

/// The scope in which fixed-function state is configured: yields tess
/// scopes.
pub struct RenderGate<'a> {
    entry: Ghost<Seq<RenderCmd>>,
    _scope: PhantomData<&'a ()>,
}

impl<'a> RenderGate<'a> {
    /// The backend's command record when this scope was entered.
    pub closed spec fn entry_at(&self) -> Seq<RenderCmd> {
        self.entry@
    }

    /// The scope is still usable against the record `cmds`.
    pub open spec fn active(&self, cmds: Seq<RenderCmd>) -> bool {
        scope_active(self.entry_at(), cmds, 3)
    }

    /// Enter a tess scope, the one place draw calls may be issued.
    pub fn tess<'t, C: HasContext>(&'t mut self, ctx: &C) -> (g: TessGate<'t>)
        requires
            old(self).active(ctx.cmds()),
        ensures
            final(self).entry_at() == old(self).entry_at(),
            g.entry_at() == ctx.cmds(),
            g.active(ctx.cmds()),
    {
        TessGate { entry: Ghost(ctx.cmds()), _scope: PhantomData }
    }
}

/// The scope in which draw calls are issued.
pub struct TessGate<'a> {
    entry: Ghost<Seq<RenderCmd>>,
    _scope: PhantomData<&'a ()>,
}

impl<'a> TessGate<'a> {
    /// The backend's command record when this scope was entered.
    pub closed spec fn entry_at(&self) -> Seq<RenderCmd> {
        self.entry@
    }

    /// The scope is still usable against the record `cmds`.
    pub open spec fn active(&self, cmds: Seq<RenderCmd>) -> bool {
        scope_active(self.entry_at(), cmds, 3)
    }

    /// Draw `tess`: one `Draw` command with the geometry's primitive mode
    /// and vertex count.
    pub fn render<C: HasTess>(&mut self, ctx: &mut C, tess: &Tess<C>)
        requires
            old(self).active(old(ctx).cmds()),
        ensures
            final(ctx).cmds() =~= old(ctx).cmds() + seq![
                (RenderCmd::Draw { mode: tess.mode(), vertices: tess.vert_nb() }),
            ],
            final(self).entry_at() == old(self).entry_at(),
            final(self).active(final(ctx).cmds()),
            forall|e: Seq<RenderCmd>, l: int|
                #![trigger scope_active(e, final(ctx).cmds(), l)]
                l <= 3 && scope_active(e, old(ctx).cmds(), l) ==> scope_active(
                    e,
                    final(ctx).cmds(),
                    l,
                ),
    {
        ctx.draw(&tess.repr);
        proof {
            let tail = seq![
                RenderCmd::Draw { mode: tess.mode(), vertices: tess.vert_nb() },
            ];
            assert forall|e: Seq<RenderCmd>, l: int|
                l <= 3 && scope_active(e, old(ctx).cmds(), l) implies scope_active(
                e,
                ctx.cmds(),
                l,
            ) by {
                lemma_scope_active_append(e, old(ctx).cmds(), tail, l);
            }
        }
    }
}

/// One full pass through every scope on one backend: bind `fb` and clear
/// it, bind `program`, apply `state`, and draw `tess` — exactly the
/// command sequence a caller holding the four gates in order obtains.
pub fn single_pass<C: HasFramebuffer + HasProgram + HasRenderState + HasTess>(
    ctx: &mut C,
    fb: &Framebuffer<C>,
    clear: ClearColor,
    program: &Program<C>,
    state: RenderState,
    tess: &Tess<C>,
)
    ensures
        final(ctx).cmds() =~= old(ctx).cmds() + seq![
            (RenderCmd::BindFramebuffer { fb: fb.id(), width: fb.width(), height: fb.height() }),
            (RenderCmd::Clear { color: clear }),
            (RenderCmd::BindProgram { program: program.id() }),
            (RenderCmd::ApplyRenderState { state }),
            (RenderCmd::Draw { mode: tess.mode(), vertices: tess.vert_nb() }),
        ],
{
    let mut pipeline = Pipeline::new(ctx, fb, clear);
    let mut shd_gate = pipeline.shade(ctx, program);
    let mut rdr_gate = shd_gate.render(ctx, state);
    let mut tess_gate = rdr_gate.tess(ctx);
    tess_gate.render(ctx, tess);
    proof {
        assert(ctx.cmds() =~= old(ctx).cmds() + seq![
            (RenderCmd::BindFramebuffer { fb: fb.id(), width: fb.width(), height: fb.height() }),
            (RenderCmd::Clear { color: clear }),
            (RenderCmd::BindProgram { program: program.id() }),
            (RenderCmd::ApplyRenderState { state }),
            (RenderCmd::Draw { mode: tess.mode(), vertices: tess.vert_nb() }),
        ]);
    }
}

} // verus!

//! Framebuffers: render targets, either the platform back buffer or an
//! off-screen target with color and depth attachments.

use vstd::prelude::*;
use crate::context::ClearColor;
use crate::context::HasContext;
use crate::context::RenderCmd;

verus! {

/// Why building an off-screen framebuffer failed.
#[derive(Clone, Debug, PartialEq, Eq)]
pub enum FramebufferError {
    /// The backend found the attachment set incomplete; the payload is its
    /// diagnostic text.
    Incomplete(String),
}

/// The capability of creating and binding render targets.
pub trait HasFramebuffer: HasContext {
    type Framebuffer;

    /// The backend's identity for a render target.
    spec fn framebuffer_id(fb: &Self::Framebuffer) -> u64;

    /// The target's dimensions, width then height.
    spec fn framebuffer_size(fb: &Self::Framebuffer) -> (u32, u32);

    /// A handle to the platform surface's back buffer at the given size.
    /// The dimensions are recorded, not self-updating: after a surface
    /// resize the caller builds a new handle.
    fn back_buffer(&mut self, size: [u32; 2]) -> (fb: Self::Framebuffer)
        ensures
            final(self).cmds() == old(self).cmds(),
            Self::framebuffer_size(&fb) == (size[0], size[1]),
    ;

    /// Build an off-screen target of the given size with `color_slots`
    /// color attachments and, when asked, a depth attachment. Whether the
    /// attachment set is complete is the backend's decision; an incomplete
    /// one is rejected here, before any drawing can target it.
    fn new_framebuffer(&mut self, size: [u32; 2], color_slots: u32, depth_slot: bool) -> (r: Result<
        Self::Framebuffer,
        FramebufferError,
    >)
        ensures
            final(self).cmds() == old(self).cmds(),
            (r matches Ok(fb) ==> Self::framebuffer_size(&fb) == (size[0], size[1])),
            (r matches Err(e) ==> e matches FramebufferError::Incomplete(_)),
    ;

    /// Make `fb` the bound render target and clear it to `color`.
    fn bind_framebuffer(&mut self, fb: &Self::Framebuffer, color: ClearColor)
        ensures
            final(self).cmds() =~= old(self).cmds() + seq![
                (RenderCmd::BindFramebuffer {
                    fb: Self::framebuffer_id(fb),
                    width: Self::framebuffer_size(fb).0,
                    height: Self::framebuffer_size(fb).1,
                }),
                (RenderCmd::Clear { color }),
            ],
    ;

    /// Release a render target. Releasing issues no driver command.
    fn free_framebuffer(&mut self, fb: Self::Framebuffer)
        ensures
            final(self).cmds() == old(self).cmds(),
    ;
}

/// A render target, owning its backend handle.
pub struct Framebuffer<C> where C: HasFramebuffer {
    pub repr: C::Framebuffer,
}

impl<C> Framebuffer<C> where C: HasFramebuffer {
    /// The backend's identity for this target.
    pub open spec fn id(&self) -> u64 {
        C::framebuffer_id(&self.repr)
    }

    /// The recorded width.
    pub open spec fn width(&self) -> u32 {
        C::framebuffer_size(&self.repr).0
    }

    /// The recorded height.
    pub open spec fn height(&self) -> u32 {
        C::framebuffer_size(&self.repr).1
    }

    /// The platform back buffer at the given size. Rebuilt by the caller
    /// whenever the platform surface is resized, which is what updates the
    /// recorded dimensions.
    pub fn back_buffer(ctx: &mut C, size: [u32; 2]) -> (fb: Framebuffer<C>)
        ensures
            final(ctx).cmds() == old(ctx).cmds(),
            fb.width() == size[0],
            fb.height() == size[1],
    {
        let repr = ctx.back_buffer(size);
        Framebuffer { repr }
    }

    /// An off-screen target with the given attachment set; incomplete
    /// attachment sets are rejected by the backend at construction.
    pub fn new(ctx: &mut C, size: [u32; 2], color_slots: u32, depth_slot: bool) -> (r: Result<
        Framebuffer<C>,
        FramebufferError,
    >)
        ensures
            final(ctx).cmds() == old(ctx).cmds(),
            (r matches Ok(fb) ==> fb.width() == size[0] && fb.height() == size[1]),
            (r matches Err(e) ==> e matches FramebufferError::Incomplete(_)),
    {
        match ctx.new_framebuffer(size, color_slots, depth_slot) {
            Ok(repr) => Ok(Framebuffer { repr }),
            Err(e) => Err(e),
        }
    }

    /// Release the target's backend handle; consuming the framebuffer makes
    /// the release happen exactly once.
    pub fn release(self, ctx: &mut C)
        ensures
            final(ctx).cmds() == old(ctx).cmds(),
    {
        let Framebuffer { repr } = self;
        ctx.free_framebuffer(repr);
    }
}

} // verus!

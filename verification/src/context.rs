//! The base capability every backend provides: a record of the driver
//! commands it has issued, used throughout the crate to state what each
//! operation does to the device.

use vstd::prelude::*;
use crate::render_state::RenderState;
use crate::tess::Mode;

verus! {

/// A color the bound render target is cleared to, one byte per channel.
#[derive(Clone, Copy, Debug, PartialEq, Eq, Structural)]
pub struct ClearColor {
    pub r: u8,
    pub g: u8,
    pub b: u8,
    pub a: u8,
}

/// One driver-level command, as a backend records it.
#[derive(Clone, Copy, Debug, PartialEq, Eq, Structural)]
pub enum RenderCmd {
    /// The render target `fb` of the given dimensions became the bound target.
    BindFramebuffer { fb: u64, width: u32, height: u32 },
    /// The bound render target was cleared to `color`.
    Clear { color: ClearColor },
    /// Program `program` became the bound shading program.
    BindProgram { program: u64 },
    /// The fixed-function pipeline state was set to `state`.
    ApplyRenderState { state: RenderState },
    /// A draw of `vertices` vertex invocations with primitive mode `mode`.
    Draw { mode: Mode, vertices: usize },
}

/// The nesting depth of the scope a command may be issued from: binding
/// a target is outermost, then binding a program, then configuring state,
/// then drawing.
pub open spec fn cmd_level(c: RenderCmd) -> int {
    match c {
        RenderCmd::BindFramebuffer { .. } => 0,
        RenderCmd::Clear { .. } => 0,
        RenderCmd::BindProgram { .. } => 1,
        RenderCmd::ApplyRenderState { .. } => 2,
        RenderCmd::Draw { .. } => 3,
    }
}

/// The capability common to all backends: the commands issued so far, in
/// order. Contracts all over the crate are stated as appends to this
/// sequence.
pub trait HasContext {
    spec fn cmds(&self) -> Seq<RenderCmd>;
}

} // verus!

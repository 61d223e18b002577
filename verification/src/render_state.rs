//! Fixed-function pipeline configuration applied for one batch of draw
//! calls: blending, depth test and face culling. A `RenderState` is a pure
//! value — no backend resource stands behind it.

use vstd::prelude::*;
use crate::context::HasContext;
use crate::context::RenderCmd;

verus! {

/// The blending equation used when blending is enabled.
#[derive(Clone, Copy, Debug, PartialEq, Eq, Structural)]
pub enum Equation {
    Additive,
    Subtract,
    ReverseSubtract,
    Min,
    Max,
}

/// A blending factor applied to the source or destination color.
#[derive(Clone, Copy, Debug, PartialEq, Eq, Structural)]
pub enum Factor {
    One,
    Zero,
    SrcColor,
    DestColor,
    SrcAlpha,
    DestAlpha,
    SrcAlphaComplement,
    DestAlphaComplement,
}

/// Whether blending is performed, and with which equation and factors.
#[derive(Clone, Copy, Debug, PartialEq, Eq, Structural)]
pub enum Blending {
    Disabled,
    Enabled(Equation, Factor, Factor),
}

/// The comparison a fragment's depth must pass when the depth test is on.
#[derive(Clone, Copy, Debug, PartialEq, Eq, Structural)]
pub enum DepthComparison {
    Never,
    Always,
    Equal,
    NotEqual,
    Less,
    LessOrEqual,
    Greater,
    GreaterOrEqual,
}

/// Whether the depth test is performed, and with which comparison.
#[derive(Clone, Copy, Debug, PartialEq, Eq, Structural)]
pub enum DepthTest {
    Disabled,
    Enabled(DepthComparison),
}

/// Which primitive faces are discarded before rasterization.
#[derive(Clone, Copy, Debug, PartialEq, Eq, Structural)]
pub enum FaceCulling {
    Disabled,
    Front,
    Back,
    FrontAndBack,
}

/// The fixed-function state one `RenderGate` scope applies.
#[derive(Clone, Copy, Debug, PartialEq, Eq, Structural)]
pub struct RenderState {
    pub blending: Blending,
    pub depth_test: DepthTest,
    pub face_culling: FaceCulling,
}

impl Default for RenderState {
    /// No blending, depth test with the `Less` comparison, no face culling.
    fn default() -> (r: Self)
        ensures
            r == (RenderState {
                blending: Blending::Disabled,
                depth_test: DepthTest::Enabled(DepthComparison::Less),
                face_culling: FaceCulling::Disabled,
            }),
    {
        RenderState {
            blending: Blending::Disabled,
            depth_test: DepthTest::Enabled(DepthComparison::Less),
            face_culling: FaceCulling::Disabled,
        }
    }
}

/// The capability of configuring the fixed-function state.
pub trait HasRenderState: HasContext {
    /// Make `state` the device's fixed-function configuration.
    fn apply_render_state(&mut self, state: RenderState)
        ensures
            final(self).cmds() =~= old(self).cmds() + seq![
                (RenderCmd::ApplyRenderState { state }),
            ],
    ;
}

} // verus!

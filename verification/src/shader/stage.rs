//! Shader stages: one compiled unit of shader code, tagged with its
//! pipeline role.

use vstd::prelude::*;
use core::marker::PhantomData;
use crate::context::HasContext;
use crate::shader::uniform::UniformType;

verus! {

/// The role of a stage in the pipeline.
#[derive(Clone, Copy, Debug, PartialEq, Eq, Structural)]
pub enum StageType {
    TessellationControlShader,
    TessellationEvaluationShader,
    VertexShader,
    GeometryShader,
    FragmentShader,
}

/// Why building a stage failed.
#[derive(Clone, Debug, PartialEq, Eq)]
pub enum StageError {
    /// The backend compiler rejected the source; the payload is its
    /// diagnostic text.
    CompilationFailed(String),
}

/// Marker type for stages run on tessellation parameters.
pub struct TessellationControlShader;

/// Marker type for stages run on patches.
pub struct TessellationEvaluationShader;

/// Marker type for stages run on vertices.
pub struct VertexShader;

/// Marker type for stages run on primitives.
pub struct GeometryShader;

/// Marker type for stages run on screen fragments.
pub struct FragmentShader;

/// Maps a stage marker type to its pipeline role.
pub trait ShaderTypeable {
    spec fn shader_type_spec() -> StageType;

    fn shader_type() -> (t: StageType)
        ensures
            t == Self::shader_type_spec(),
    ;
}

impl ShaderTypeable for TessellationControlShader {
    open spec fn shader_type_spec() -> StageType {
        StageType::TessellationControlShader
    }

    fn shader_type() -> StageType {
        StageType::TessellationControlShader
    }
}

impl ShaderTypeable for TessellationEvaluationShader {
    open spec fn shader_type_spec() -> StageType {
        StageType::TessellationEvaluationShader
    }

    fn shader_type() -> StageType {
        StageType::TessellationEvaluationShader
    }
}

impl ShaderTypeable for VertexShader {
    open spec fn shader_type_spec() -> StageType {
        StageType::VertexShader
    }

    fn shader_type() -> StageType {
        StageType::VertexShader
    }
}

impl ShaderTypeable for GeometryShader {
    open spec fn shader_type_spec() -> StageType {
        StageType::GeometryShader
    }

    fn shader_type() -> StageType {
        StageType::GeometryShader
    }
}

impl ShaderTypeable for FragmentShader {
    open spec fn shader_type_spec() -> StageType {
        StageType::FragmentShader
    }

    fn shader_type() -> StageType {
        StageType::FragmentShader
    }
}

/// The capability of compiling shader stages.
///
/// `AStage` is the backend's handle for a compiled stage. The backend
/// reports, per stage, its role and the uniform interface its compiler found
/// in the source: the slots in declaration order, each a name with its
/// declared type.
pub trait HasStage: HasContext {
    type AStage;

    /// The pipeline role of a compiled stage.
    spec fn astage_type(stage: &Self::AStage) -> StageType;

    /// The uniform interface the backend compiler reports for a stage.
    spec fn astage_interface(stage: &Self::AStage) -> Seq<(Seq<char>, UniformType)>;

    /// Compile `src` as a stage of role `ty`. Compiling issues no driver
    /// command; whether the source is accepted is the backend compiler's
    /// decision, and a rejection carries its diagnostic.
    fn new_stage(&mut self, ty: StageType, src: &str) -> (r: Result<Self::AStage, StageError>)
        ensures
            final(self).cmds() == old(self).cmds(),
            (r matches Ok(stage) ==> Self::astage_type(&stage) == ty),
    ;

    /// Release a compiled stage. Releasing issues no driver command.
    fn free_stage(&mut self, stage: Self::AStage)
        ensures
            final(self).cmds() == old(self).cmds(),
    ;
}

/// A compiled shader stage of role `T`, owned by whoever built it.
pub struct Stage<C: HasStage, T: ShaderTypeable> {
    pub repr: C::AStage,
    pub _t: PhantomData<T>,
}

impl<C, T> Stage<C, T> where C: HasStage, T: ShaderTypeable {
    /// The stage's backend-reported role agrees with its marker type.
    pub open spec fn wf(&self) -> bool {
        C::astage_type(&self.repr) == T::shader_type_spec()
    }

    /// The uniform interface the backend compiler reports for this stage.
    pub open spec fn interface(&self) -> Seq<(Seq<char>, UniformType)> {
        C::astage_interface(&self.repr)
    }

    /// Compile `src` on `ctx` as a stage of the role named by `T`.
    pub fn new(ctx: &mut C, src: &str) -> (r: Result<Stage<C, T>, StageError>)
        ensures
            final(ctx).cmds() == old(ctx).cmds(),
            (r matches Ok(stage) ==> stage.wf()),
    {
        match ctx.new_stage(T::shader_type(), src) {
            Ok(repr) => Ok(Stage { repr, _t: PhantomData }),
            Err(e) => Err(e),
        }
    }

    /// Release the stage's backend resource; consuming the stage makes the
    /// release happen exactly once.
    pub fn release(self, ctx: &mut C)
        ensures
            final(ctx).cmds() == old(ctx).cmds(),
    {
        let Stage { repr, _t } = self;
        ctx.free_stage(repr);
    }
}

} // verus!

//! Shader programs: the linked, executable pipeline object built from
//! stages.
//!
//! A program is linked from one vertex and one fragment stage, optionally a
//! geometry stage, and optionally both tessellation stages — the stage
//! markers on [`Stage`](crate::shader::stage::Stage) make any other
//! combination unrepresentable. A linked program exposes its active uniform
//! interface, against which typed lookups are checked.

use vstd::prelude::*;
use crate::context::HasContext;
use crate::shader::stage::HasStage;
use crate::shader::stage::Stage;
use crate::shader::stage::StageType;
use crate::shader::stage::TessellationControlShader;
use crate::shader::stage::TessellationEvaluationShader;
use crate::shader::stage::VertexShader;
use crate::shader::stage::GeometryShader;
use crate::shader::stage::FragmentShader;
use crate::shader::uniform::HasUniform;
use crate::shader::uniform::Uniform;
use crate::shader::uniform::Uniformable;
use crate::shader::uniform::UniformName;
use crate::shader::uniform::UniformType;
use crate::shader::uniform::iface_has;
use crate::shader::uniform::iface_type;
use crate::shader::uniform::iface_coherent;
use crate::shader::uniform::lemma_iface_type_of_slot;
use crate::context::RenderCmd;

verus! {

/// Why building or querying a program failed.
#[derive(Clone, Debug, PartialEq, Eq)]
pub enum ProgramError {
    /// The backend linker rejected the stage set; the payload is its
    /// diagnostic text.
    LinkFailed(String),
    /// The name does not resolve to an active uniform slot of the program.
    InactiveUniform(String),
    /// The slot's declared type is not the one the caller asked for.
    UniformTypeMismatch(String),
}

/// The interface a link of the given stage interfaces exposes: their slots,
/// in pipeline order.
pub open spec fn linked_interface<C: HasStage + ?Sized>(
    tess: Option<(&C::AStage, &C::AStage)>,
    vertex: &C::AStage,
    geometry: Option<&C::AStage>,
    fragment: &C::AStage,
) -> Seq<(Seq<char>, UniformType)> {
    (match tess {
        Some((tcs, tes)) => C::astage_interface(tcs) + C::astage_interface(tes),
        None => Seq::empty(),
    }) + C::astage_interface(vertex) + (match geometry {
        Some(g) => C::astage_interface(g),
        None => Seq::empty(),
    }) + C::astage_interface(fragment)
}

/// The capability of linking and using shader programs.
pub trait HasProgram: HasStage + HasUniform {
    type Program;

    /// The backend's identity for a linked program.
    spec fn program_id(program: &Self::Program) -> u64;

    /// The active uniform interface of a linked program.
    spec fn program_interface(program: &Self::Program) -> Seq<(Seq<char>, UniformType)>;

    /// Link a program from stages of the required roles. Linking issues no
    /// driver command. A successful link exposes the stages' combined
    /// interface, which is then coherent; a set of stages whose combined
    /// interface declares one name with two types never links.
    fn new_program(
        &mut self,
        tess: Option<(&Self::AStage, &Self::AStage)>,
        vertex: &Self::AStage,
        geometry: Option<&Self::AStage>,
        fragment: &Self::AStage,
    ) -> (r: Result<Self::Program, ProgramError>)
        requires
            Self::astage_type(vertex) == StageType::VertexShader,
            Self::astage_type(fragment) == StageType::FragmentShader,
            tess matches Some((tcs, tes)) ==> Self::astage_type(tcs)
                == StageType::TessellationControlShader && Self::astage_type(tes)
                == StageType::TessellationEvaluationShader,
            geometry matches Some(g) ==> Self::astage_type(g) == StageType::GeometryShader,
        ensures
            final(self).cmds() == old(self).cmds(),
            (r matches Ok(p) ==> Self::program_interface(&p) == linked_interface::<Self>(
                tess,
                vertex,
                geometry,
                fragment,
            ) && iface_coherent(Self::program_interface(&p))),
            !iface_coherent(linked_interface::<Self>(tess, vertex, geometry, fragment))
                ==> r is Err,
            (r matches Err(e) ==> e matches ProgramError::LinkFailed(_)),
    ;

    /// Release a linked program. Releasing issues no driver command and does
    /// not touch the stages the program was linked from.
    fn free_program(&mut self, program: Self::Program)
        ensures
            final(self).cmds() == old(self).cmds(),
    ;

    /// Make `program` the bound shading program.
    fn bind_program(&mut self, program: &Self::Program)
        ensures
            final(self).cmds() =~= old(self).cmds() + seq![
                (RenderCmd::BindProgram { program: Self::program_id(program) }),
            ],
    ;

    /// Resolve `name` against a linked program's interface: the untyped slot
    /// handle together with the slot's declared type. A pure lookup: no
    /// driver command, no backend state touched.
    fn map_uniform(program: &Self::Program, name: UniformName) -> (r: Result<
        (Self::U, UniformType),
        ProgramError,
    >)
        ensures
            name matches UniformName::StringName(n) ==> (r is Ok <==> iface_has(
                Self::program_interface(program),
                n@,
            )),
            name matches UniformName::StringName(n) ==> (r matches Ok((u, ty))
                ==> Self::u_program(&u) == Self::program_id(program) && Self::u_slot(&u)
                < Self::program_interface(program).len() && Self::program_interface(
                program,
            )[Self::u_slot(&u) as int] == (n@, ty) && (forall|k: int|
                0 <= k < Self::u_slot(&u) ==> Self::program_interface(program)[k].0 != n@)),
            name matches UniformName::StringName(n) ==> (r matches Err(e) ==> e matches
                ProgramError::InactiveUniform(m) && m@ == n@),
            name matches UniformName::IndexName(i) ==> (r is Ok <==> (i as int)
                < Self::program_interface(program).len()),
            name matches UniformName::IndexName(i) ==> (r matches Ok((u, ty))
                ==> Self::u_program(&u) == Self::program_id(program) && Self::u_slot(&u) == i
                as usize && Self::program_interface(program)[i as int].1 == ty),
            name matches UniformName::IndexName(i) ==> (r matches Err(e) ==> e matches
                ProgramError::InactiveUniform(_)),
    ;

    /// Run `f`, a body of uniform updates against this program, while the
    /// program is known to be bound. `f` is invoked: whatever it promises
    /// holds afterwards.
    fn update_uniforms<F: Fn()>(program: &Self::Program, f: F)
        requires
            call_requires(f, ()),
        ensures
            call_ensures(f, (), ()),
    ;
}

/// The combined interface of the stages handed to [`Program::new`], in
/// pipeline order: what a successful link exposes.
pub open spec fn stages_interface<C: HasStage>(
    tess: Option<(&Stage<C, TessellationControlShader>, &Stage<C, TessellationEvaluationShader>)>,
    vertex: &Stage<C, VertexShader>,
    geometry: Option<&Stage<C, GeometryShader>>,
    fragment: &Stage<C, FragmentShader>,
) -> Seq<(Seq<char>, UniformType)> {
    (match tess {
        Some((tcs, tes)) => tcs.interface() + tes.interface(),
        None => Seq::empty(),
    }) + vertex.interface() + (match geometry {
        Some(g) => g.interface(),
        None => Seq::empty(),
    }) + fragment.interface()
}

/// A linked shader program, owning its backend link handle.
pub struct Program<C> where C: HasProgram {
    pub repr: C::Program,
}

impl<C> Program<C> where C: HasProgram {
    /// The backend's identity for this program.
    pub open spec fn id(&self) -> u64 {
        C::program_id(&self.repr)
    }

    /// The active uniform interface of this program.
    pub open spec fn interface(&self) -> Seq<(Seq<char>, UniformType)> {
        C::program_interface(&self.repr)
    }

    /// A linked program's interface is coherent: one declared type per name.
    pub open spec fn wf(&self) -> bool {
        iface_coherent(self.interface())
    }

    /// Link a program from a vertex and a fragment stage, optionally both
    /// tessellation stages, and optionally a geometry stage. Any other
    /// combination of roles is unrepresentable here, so an invalid set never
    /// reaches the backend linker.
    pub fn new(
        ctx: &mut C,
        tess: Option<(&Stage<C, TessellationControlShader>, &Stage<C, TessellationEvaluationShader>)>,
        vertex: &Stage<C, VertexShader>,
        geometry: Option<&Stage<C, GeometryShader>>,
        fragment: &Stage<C, FragmentShader>,
    ) -> (r: Result<Program<C>, ProgramError>)
        requires
            vertex.wf(),
            fragment.wf(),
            tess matches Some((tcs, tes)) ==> tcs.wf() && tes.wf(),
            geometry matches Some(g) ==> g.wf(),
        ensures
            final(ctx).cmds() == old(ctx).cmds(),
            (r matches Ok(p) ==> p.wf() && p.interface() == stages_interface(
                tess,
                vertex,
                geometry,
                fragment,
            )),
            !iface_coherent(stages_interface(tess, vertex, geometry, fragment)) ==> r is Err,
            (r matches Err(e) ==> e matches ProgramError::LinkFailed(_)),
    {
        let tess_reprs = match tess {
            Some((tcs, tes)) => Some((&tcs.repr, &tes.repr)),
            None => None,
        };
        let geometry_repr = match geometry {
            Some(g) => Some(&g.repr),
            None => None,
        };
        proof {
            assert(linked_interface::<C>(tess_reprs, &vertex.repr, geometry_repr, &fragment.repr)
                == stages_interface(tess, vertex, geometry, fragment));
        }
        match ctx.new_program(tess_reprs, &vertex.repr, geometry_repr, &fragment.repr) {
            Ok(repr) => Ok(Program { repr }),
            Err(e) => Err(e),
        }
    }

    /// Look the textual name `name` up in the program's interface, asking
    /// for a slot of the type `T` stands for.
    ///
    /// The lookup succeeds exactly when the interface has the name with that
    /// declared type; a missing name is `InactiveUniform`, a present name of
    /// another type is `UniformTypeMismatch`, each carrying the name. A pure
    /// lookup: a returned handle denotes the first slot of that name, so
    /// repeated calls return the same result and a caller may cache it.
    pub fn uniform<T: Uniformable>(&self, name: &str) -> (r: Result<Uniform<C, T>, ProgramError>)
        requires
            self.wf(),
        ensures
            (r is Ok <==> iface_has(self.interface(), name@) && iface_type(self.interface(), name@)
                == T::reify_type_spec()),
            (r matches Ok(u) ==> u.program() == self.id() && u.slot() < self.interface().len()
                && self.interface()[u.slot() as int] == (name@, T::reify_type_spec()) && (
            forall|k: int| 0 <= k < u.slot() ==> self.interface()[k].0 != name@)),
            (r matches Err(e) ==> match e {
                ProgramError::LinkFailed(_) => false,
                ProgramError::InactiveUniform(m) => m@ == name@ && !iface_has(
                    self.interface(),
                    name@,
                ),
                ProgramError::UniformTypeMismatch(m) => m@ == name@ && iface_has(
                    self.interface(),
                    name@,
                ) && iface_type(self.interface(), name@) != T::reify_type_spec(),
            }),
    {
        let looked = UniformName::StringName(name.to_owned());
        match C::map_uniform(&self.repr, looked) {
            Ok((u, ty)) => {
                let expected = T::reify_type();
                if ty == expected {
                    proof {
                        lemma_iface_type_of_slot(self.interface(), name@, ty);
                    }
                    Ok(Uniform::new(u))
                } else {
                    proof {
                        lemma_iface_type_of_slot(self.interface(), name@, ty);
                    }
                    Err(ProgramError::UniformTypeMismatch(name.to_owned()))
                }
            },
            Err(e) => Err(e),
        }
    }

    /// Run `f`, a body that may only set uniforms through handles obtained
    /// from this program; the shading scope calls this while the program is
    /// bound. `f` is invoked: whatever it promises holds afterwards.
    pub fn update<F: Fn()>(&self, f: F)
        requires
            call_requires(f, ()),
        ensures
            call_ensures(f, (), ()),
    {
        C::update_uniforms(&self.repr, f)
    }

    /// Release the program's backend link handle; consuming the program
    /// makes the release happen exactly once. The stages it was linked from
    /// are owned and released independently.
    pub fn release(self, ctx: &mut C)
        ensures
            final(ctx).cmds() == old(ctx).cmds(),
    {
        let Program { repr } = self;
        ctx.free_program(repr);
    }
}

} // verus!

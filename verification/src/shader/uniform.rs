//! Typed uniform handles: named input slots of a linked program.
//!
//! A `Uniform<C, T>` is pure metadata — a slot of one program, tagged with
//! the value type `T` the caller declared for it — so a value of the wrong
//! type cannot be bound to the slot. The interface of a program is modelled
//! as the sequence of its slots in declaration order, each a name paired
//! with its declared type.

use vstd::prelude::*;
use core::marker::PhantomData;
use crate::context::HasContext;

verus! {

/// The shader-language type a uniform slot is declared with.
///
/// Slots of floating-point shader types are identified by tag only: this
/// layer stores no uniform values, so no host floating-point representation
/// is involved.
#[derive(Clone, Copy, Debug, PartialEq, Eq, Structural)]
pub enum UniformType {
    Int,
    UInt,
    Bool,
    Float,
    Vec2,
    Vec3,
    Vec4,
    Mat44,
}

/// A name under which a uniform slot can be looked up: either the textual
/// name from the shader source, or the backend-assigned slot index.
#[derive(Clone, Debug, PartialEq, Eq)]
pub enum UniformName {
    StringName(String),
    IndexName(u32),
}

/// One slot of a uniform interface: its source-level name and declared type.
#[derive(Clone, Debug, PartialEq, Eq)]
pub struct UniformDecl {
    pub name: String,
    pub ty: UniformType,
}

impl UniformDecl {
    /// An exact copy of the declaration.
    pub fn duplicate(&self) -> (r: UniformDecl)
        ensures
            r.name@ == self.name@,
            r.ty == self.ty,
    {
        UniformDecl { name: self.name.clone(), ty: self.ty }
    }
}

impl View for UniformDecl {
    type V = (Seq<char>, UniformType);

    open spec fn view(&self) -> (Seq<char>, UniformType) {
        (self.name@, self.ty)
    }
}

/// Whether the interface has a slot of the given textual name.
pub open spec fn iface_has(iface: Seq<(Seq<char>, UniformType)>, name: Seq<char>) -> bool {
    exists|i: int| 0 <= i < iface.len() && iface[i].0 == name
}

/// The declared type of the named slot; well-defined whenever the interface
/// is coherent and has the name.
pub open spec fn iface_type(iface: Seq<(Seq<char>, UniformType)>, name: Seq<char>) -> UniformType {
    iface[choose|i: int| 0 <= i < iface.len() && iface[i].0 == name].1
}

/// No two slots of the same name declare different types.
pub open spec fn iface_coherent(iface: Seq<(Seq<char>, UniformType)>) -> bool {
    forall|i: int, j: int|
        0 <= i < iface.len() && 0 <= j < iface.len() && iface[i].0 == iface[j].0
            ==> iface[i].1 == iface[j].1
}

/// In a coherent interface, a slot holding `(name, ty)` settles the type of
/// every slot of that name.
pub proof fn lemma_iface_type_of_slot(
    iface: Seq<(Seq<char>, UniformType)>,
    name: Seq<char>,
    ty: UniformType,
)
    requires
        iface_coherent(iface),
        exists|i: int| 0 <= i < iface.len() && iface[i] == (name, ty),
    ensures
        iface_has(iface, name),
        iface_type(iface, name) == ty,
{
    let i = choose|i: int| 0 <= i < iface.len() && iface[i] == (name, ty);
    assert(iface[i].0 == name);
    let j = choose|j: int| 0 <= j < iface.len() && iface[j].0 == name;
    assert(iface[i].1 == iface[j].1);
}

/// Maps a host-side marker or value type to the shader-language type a slot
/// must be declared with to accept it.
pub trait Uniformable {
    spec fn reify_type_spec() -> UniformType;

    fn reify_type() -> (t: UniformType)
        ensures
            t == Self::reify_type_spec(),
    ;
}

impl Uniformable for i32 {
    open spec fn reify_type_spec() -> UniformType {
        UniformType::Int
    }

    fn reify_type() -> UniformType {
        UniformType::Int
    }
}

impl Uniformable for u32 {
    open spec fn reify_type_spec() -> UniformType {
        UniformType::UInt
    }

    fn reify_type() -> UniformType {
        UniformType::UInt
    }
}

impl Uniformable for bool {
    open spec fn reify_type_spec() -> UniformType {
        UniformType::Bool
    }

    fn reify_type() -> UniformType {
        UniformType::Bool
    }
}

/// Marker for slots of the shader-language scalar floating type.
pub struct ShaderFloat;

/// Marker for slots of the shader-language 2-component vector type.
pub struct ShaderVec2;

/// Marker for slots of the shader-language 3-component vector type.
pub struct ShaderVec3;

/// Marker for slots of the shader-language 4-component vector type.
pub struct ShaderVec4;

/// Marker for slots of the shader-language 4 by 4 matrix type.
pub struct ShaderMat44;

impl Uniformable for ShaderFloat {
    open spec fn reify_type_spec() -> UniformType {
        UniformType::Float
    }

    fn reify_type() -> UniformType {
        UniformType::Float
    }
}

impl Uniformable for ShaderVec2 {
    open spec fn reify_type_spec() -> UniformType {
        UniformType::Vec2
    }

    fn reify_type() -> UniformType {
        UniformType::Vec2
    }
}

impl Uniformable for ShaderVec3 {
    open spec fn reify_type_spec() -> UniformType {
        UniformType::Vec3
    }

    fn reify_type() -> UniformType {
        UniformType::Vec3
    }
}

impl Uniformable for ShaderVec4 {
    open spec fn reify_type_spec() -> UniformType {
        UniformType::Vec4
    }

    fn reify_type() -> UniformType {
        UniformType::Vec4
    }
}

impl Uniformable for ShaderMat44 {
    open spec fn reify_type_spec() -> UniformType {
        UniformType::Mat44
    }

    fn reify_type() -> UniformType {
        UniformType::Mat44
    }
}

/// The capability of addressing uniform slots.
///
/// `U` is the backend's untyped handle for one slot; it records which
/// program the slot belongs to and which slot of that program it is.
pub trait HasUniform: HasContext {
    type U;

    /// The identity of the program the handle was resolved against.
    spec fn u_program(u: &Self::U) -> u64;

    /// The slot index the handle denotes in that program's interface.
    spec fn u_slot(u: &Self::U) -> usize;
}

/// A typed handle to one uniform slot of one linked program.
///
/// The handle carries no backend resource: it is freely copyable metadata,
/// valid for the program that produced it and semantically stale once that
/// program is released.
pub struct Uniform<C: HasUniform, T: Uniformable> {
    pub repr: C::U,
    pub _t: PhantomData<T>,
}

impl<C, T> Uniform<C, T> where C: HasUniform, T: Uniformable {
    /// The identity of the program this handle belongs to.
    pub open spec fn program(&self) -> u64 {
        C::u_program(&self.repr)
    }

    /// The slot this handle denotes.
    pub open spec fn slot(&self) -> usize {
        C::u_slot(&self.repr)
    }

    /// Tag an untyped backend handle with the value type `T`.
    pub fn new(repr: C::U) -> (u: Uniform<C, T>)
        ensures
            u.repr == repr,
    {
        Uniform { repr, _t: PhantomData }
    }
}

impl<C, T> Uniform<C, T> where C: HasUniform, T: Uniformable, C::U: Copy {
    /// A handle is pure metadata and may be copied freely: the copy denotes
    /// the same slot of the same program.
    pub fn duplicate(&self) -> (u: Uniform<C, T>)
        ensures
            u.repr == self.repr,
    {
        Uniform { repr: self.repr, _t: PhantomData }
    }
}

} // verus!

//! A concrete backend that implements every capability trait against an
//! in-memory device: handles are plain values, and every bind and draw is
//! recorded as a [`RenderCmd`]. It stands in for a driver-backed
//! implementation wherever one is not wanted: the command record makes the
//! effect of a frame observable and provable.
//!
//! The backend compiler is modelled by a registry: a source text can be
//! registered as accepted with a uniform interface, or as rejected with a
//! diagnostic; an unregistered source compiles cleanly and declares no
//! uniforms.

use vstd::prelude::*;
use crate::context::ClearColor;
use crate::context::HasContext;
use crate::context::RenderCmd;
use crate::framebuffer::FramebufferError;
use crate::framebuffer::HasFramebuffer;
use crate::render_state::HasRenderState;
use crate::render_state::RenderState;
use crate::shader::program::HasProgram;
use crate::shader::program::ProgramError;
use crate::shader::program::linked_interface;
use crate::shader::stage::HasStage;
use crate::shader::stage::StageError;
use crate::shader::stage::StageType;
use crate::shader::uniform::HasUniform;
use crate::shader::uniform::UniformDecl;
use crate::shader::uniform::UniformName;
use crate::shader::uniform::UniformType;
use crate::shader::uniform::iface_coherent;
use crate::shader::uniform::iface_has;
use crate::tess::HasTess;
use crate::tess::Mode;
use crate::tess::TessBuildError;

verus! {

/// The uniform interfaces a sequence of declarations describes, slot by
/// slot.
pub open spec fn decls_view(decls: Seq<UniformDecl>) -> Seq<(Seq<char>, UniformType)> {
    Seq::new(decls.len(), |i: int| decls[i]@)
}

/// The registered response of the backend compiler to one source text:
/// accepted with the uniforms it declares, or rejected with a diagnostic.
pub struct SimShaderEntry {
    pub source: String,
    pub outcome: Result<Vec<UniformDecl>, String>,
}

/// `k` is the first registry entry whose source is `src`: the one the
/// compiler answers with.
pub open spec fn first_source_match(entries: Seq<SimShaderEntry>, src: Seq<char>, k: int) -> bool {
    &&& 0 <= k < entries.len()
    &&& entries[k].source@ == src
    &&& forall|j: int| 0 <= j < k ==> entries[j].source@ != src
}

/// A compiled stage: its role and the declarations its source carries.
pub struct SimStage {
    pub stage_type: StageType,
    pub uniforms: Vec<UniformDecl>,
}

/// A linked program: its identity and its combined uniform interface.
pub struct SimProgram {
    pub id: u64,
    pub uniforms: Vec<UniformDecl>,
}

/// An untyped uniform slot handle: the owning program and the slot index.
#[derive(Clone, Copy, Debug, PartialEq, Eq, Structural)]
pub struct SimUniform {
    pub program: u64,
    pub slot: usize,
}

/// Uploaded geometry: its primitive mode and vertex count.
pub struct SimTess {
    pub mode: Mode,
    pub vert_nb: usize,
}

/// A render target: its identity, dimensions and attachment set.
pub struct SimFramebuffer {
    pub id: u64,
    pub width: u32,
    pub height: u32,
    pub color_slots: u32,
    pub depth_slot: bool,
    pub back: bool,
}

/// The in-memory backend: the commands issued so far, the compiler
/// registry, and counters for fresh handle identities.
pub struct SimBackend {
    pub log: Vec<RenderCmd>,
    pub shaders: Vec<SimShaderEntry>,
    pub next_program: u64,
    pub next_framebuffer: u64,
}

impl SimBackend {
    /// A fresh backend: no commands issued, nothing registered.
    pub fn new() -> (r: SimBackend)
        ensures
            r.cmds() == Seq::<RenderCmd>::empty(),
            r.shaders@ == Seq::<SimShaderEntry>::empty(),
    {
        SimBackend { log: Vec::new(), shaders: Vec::new(), next_program: 0, next_framebuffer: 0 }
    }

    /// Register `source` as accepted by the compiler, declaring `uniforms`.
    pub fn accept_source(&mut self, source: String, uniforms: Vec<UniformDecl>)
        ensures
            final(self).cmds() == old(self).cmds(),
            final(self).shaders@ == old(self).shaders@.push(SimShaderEntry {
                source,
                outcome: Ok(uniforms),
            }),
    {
        self.shaders.push(SimShaderEntry { source, outcome: Ok(uniforms) });
    }

    /// Register `source` as rejected by the compiler with `diagnostic`.
    pub fn reject_source(&mut self, source: String, diagnostic: String)
        ensures
            final(self).cmds() == old(self).cmds(),
            final(self).shaders@ == old(self).shaders@.push(SimShaderEntry {
                source,
                outcome: Err(diagnostic),
            }),
    {
        self.shaders.push(SimShaderEntry { source, outcome: Err(diagnostic) });
    }

    /// The commands issued so far, oldest first.
    pub fn commands(&self) -> (r: &Vec<RenderCmd>)
        ensures
            r@ == self.cmds(),
    {
        &self.log
    }
}

/// Copy `src`'s declarations onto the end of `dst`.
fn append_decls(dst: &mut Vec<UniformDecl>, src: &Vec<UniformDecl>)
    ensures
        decls_view(final(dst)@) =~~= decls_view(old(dst)@) + decls_view(src@),
{
    let ghost base = dst@;
    let n = src.len();
    let mut i: usize = 0;
    while i < n
        invariant
            i <= n,
            n == src.len(),
            decls_view(dst@) =~~= decls_view(base) + decls_view(src@.subrange(0, i as int)),
        decreases n - i,
    {
        let ghost pre = dst@;
        let d = src[i].duplicate();
        proof {
            assert(d@ == src@[i as int]@);
        }
        dst.push(d);
        proof {
            let lhs = decls_view(dst@);
            let rhs = decls_view(base) + decls_view(src@.subrange(0, i as int + 1));
            assert(dst@ == pre.push(d));
            assert(decls_view(pre).len() == pre.len());
            assert(decls_view(base).len() == base.len());
            assert(decls_view(src@.subrange(0, i as int)).len() == i);
            assert(decls_view(src@.subrange(0, i as int + 1)).len() == i + 1);
            assert(pre.len() == base.len() + i);
            assert forall|k: int| 0 <= k < lhs.len() implies lhs[k] == rhs[k] by {
                assert(lhs[k] == dst@[k]@);
                if k < pre.len() {
                    assert(dst@[k] == pre[k]);
                    assert(decls_view(pre)[k] == pre[k]@);
                    if k >= base.len() {
                        assert(decls_view(src@.subrange(0, i as int))[k - base.len()]
                            == src@.subrange(0, i as int)[k - base.len()]@);
                        assert(decls_view(src@.subrange(0, i as int + 1))[k - base.len()]
                            == src@.subrange(0, i as int + 1)[k - base.len()]@);
                    }
                } else {
                    assert(dst@[k] == d);
                    assert(decls_view(src@.subrange(0, i as int + 1))[k - base.len()]
                        == src@.subrange(0, i as int + 1)[k - base.len()]@);
                }
            }
            assert(decls_view(dst@) =~~= rhs);
        }
        i += 1;
    }
    proof {
        assert(src@.subrange(0, n as int) =~= src@);
        assert(decls_view(src@.subrange(0, n as int)) =~~= decls_view(src@));
    }
}

impl HasContext for SimBackend {
    open spec fn cmds(&self) -> Seq<RenderCmd> {
        self.log@
    }
}

impl HasStage for SimBackend {
    type AStage = SimStage;

    open spec fn astage_type(stage: &SimStage) -> StageType {
        stage.stage_type
    }

    open spec fn astage_interface(stage: &SimStage) -> Seq<(Seq<char>, UniformType)> {
        decls_view(stage.uniforms@)
    }

    fn new_stage(&mut self, ty: StageType, src: &str) -> (r: Result<SimStage, StageError>)
        ensures
            (forall|k: int| 0 <= k < old(self).shaders@.len() ==> old(
                self,
            ).shaders@[k].source@ != src@) ==> (r matches Ok(s) && Self::astage_interface(&s)
                == Seq::<(Seq<char>, UniformType)>::empty()),
            forall|k: int|
                first_source_match(old(self).shaders@, src@, k) ==> (match old(
                    self,
                ).shaders@[k].outcome {
                    Ok(decls) => r matches Ok(s) && Self::astage_interface(&s) == decls_view(
                        decls@,
                    ),
                    Err(d) => r matches Err(e) && (e matches StageError::CompilationFailed(m)
                        && m@ == d@),
                }),
    {
        let looked: String = src.to_owned();
        let n = self.shaders.len();
        let mut i: usize = 0;
        while i < n
            invariant
                i <= n,
                n == self.shaders.len(),
                looked@ == src@,
                forall|j: int| 0 <= j < i ==> self.shaders@[j].source@ != src@,
            decreases n - i,
        {
            if self.shaders[i].source == looked {
                proof {
                    assert(first_source_match(self.shaders@, src@, i as int));
                    assert forall|k: int|
                        first_source_match(self.shaders@, src@, k) implies k == i as int by {
                        if k > i as int {
                            assert(self.shaders@[i as int].source@ != src@);
                        }
                    }
                }
                match &self.shaders[i].outcome {
                    Ok(decls) => {
                        let mut uniforms: Vec<UniformDecl> = Vec::new();
                        append_decls(&mut uniforms, decls);
                        proof {
                            assert(decls_view(uniforms@) =~~= decls_view(decls@));
                        }
                        return Ok(SimStage { stage_type: ty, uniforms });
                    },
                    Err(d) => {
                        return Err(StageError::CompilationFailed(d.clone()));
                    },
                }
            }
            i += 1;
        }
        proof {
            assert forall|k: int| !first_source_match(self.shaders@, src@, k) by {
                if 0 <= k < self.shaders@.len() {
                    assert(self.shaders@[k].source@ != src@);
                }
            }
        }
        Ok(SimStage { stage_type: ty, uniforms: Vec::new() })
    }

    fn free_stage(&mut self, stage: SimStage) {
        let _ = stage;
    }
}

impl HasUniform for SimBackend {
    type U = SimUniform;

    open spec fn u_program(u: &SimUniform) -> u64 {
        u.program
    }

    open spec fn u_slot(u: &SimUniform) -> usize {
        u.slot
    }
}

impl HasProgram for SimBackend {
    type Program = SimProgram;

    open spec fn program_id(program: &SimProgram) -> u64 {
        program.id
    }

    open spec fn program_interface(program: &SimProgram) -> Seq<(Seq<char>, UniformType)> {
        decls_view(program.uniforms@)
    }

    fn new_program(
        &mut self,
        tess: Option<(&SimStage, &SimStage)>,
        vertex: &SimStage,
        geometry: Option<&SimStage>,
        fragment: &SimStage,
    ) -> (r: Result<SimProgram, ProgramError>)
        ensures
            iface_coherent(linked_interface::<SimBackend>(tess, vertex, geometry, fragment))
                ==> r is Ok,
    {
        let mut combined: Vec<UniformDecl> = Vec::new();
        match tess {
            Some((tcs, tes)) => {
                append_decls(&mut combined, &tcs.uniforms);
                append_decls(&mut combined, &tes.uniforms);
            },
            None => {},
        }
        append_decls(&mut combined, &vertex.uniforms);
        match geometry {
            Some(g) => {
                append_decls(&mut combined, &g.uniforms);
            },
            None => {},
        }
        append_decls(&mut combined, &fragment.uniforms);
        proof {
            assert(decls_view(combined@) =~~= linked_interface::<SimBackend>(
                tess,
                vertex,
                geometry,
                fragment,
            ));
        }
        let len = combined.len();
        let mut i: usize = 0;
        while i < len
            invariant
                i <= len,
                len == combined.len(),
                decls_view(combined@) == linked_interface::<SimBackend>(
                    tess,
                    vertex,
                    geometry,
                    fragment,
                ),
                forall|x: int, y: int|
                    0 <= y < x < i && combined@[x].name@ == combined@[y].name@
                        ==> combined@[x].ty == combined@[y].ty,
            decreases len - i,
        {
            let mut j: usize = 0;
            while j < i
                invariant
                    j <= i,
                    i < len,
                    len == combined.len(),
                    decls_view(combined@) == linked_interface::<SimBackend>(
                        tess,
                        vertex,
                        geometry,
                        fragment,
                    ),
                    forall|x: int, y: int|
                        0 <= y < x < i && combined@[x].name@ == combined@[y].name@
                            ==> combined@[x].ty == combined@[y].ty,
                    forall|y: int|
                        0 <= y < j && combined@[i as int].name@ == combined@[y].name@
                            ==> combined@[i as int].ty == combined@[y].ty,
                decreases i - j,
            {
                if combined[j].name == combined[i].name {
                    if combined[j].ty != combined[i].ty {
                        proof {
                            assert(decls_view(combined@)[i as int].0 == decls_view(combined@)[
                                j as int].0);
                            assert(decls_view(combined@)[i as int].1 != decls_view(combined@)[
                                j as int].1);
                            assert(!iface_coherent(decls_view(combined@)));
                        }
                        return Err(
                            ProgramError::LinkFailed(
                                "one uniform name declared with two types".to_owned(),
                            ),
                        );
                    }
                }
                j += 1;
            }
            i += 1;
        }
        proof {
            let iface = decls_view(combined@);
            assert forall|x: int, y: int|
                0 <= x < iface.len() && 0 <= y < iface.len() && iface[x].0 == iface[y].0 implies
                iface[x].1 == iface[y].1 by {
                assert(iface[x] == combined@[x]@);
                assert(iface[y] == combined@[y]@);
            }
        }
        let id = self.next_program;
        if self.next_program < u64::MAX {
            self.next_program = self.next_program + 1;
        }
        Ok(SimProgram { id, uniforms: combined })
    }

    fn free_program(&mut self, program: SimProgram) {
        let _ = program;
    }

    fn bind_program(&mut self, program: &SimProgram) {
        let c = RenderCmd::BindProgram { program: program.id };
        self.log.push(c);
        proof {
            assert(self.log@ =~= old(self).log@ + seq![c]);
        }
    }

    fn map_uniform(program: &SimProgram, name: UniformName) -> (r: Result<
        (SimUniform, UniformType),
        ProgramError,
    >) {
        match name {
            UniformName::StringName(n) => {
                let len = program.uniforms.len();
                let mut i: usize = 0;
                while i < len
                    invariant
                        i <= len,
                        len == program.uniforms.len(),
                        name == UniformName::StringName(n),
                        forall|k: int| 0 <= k < i ==> program.uniforms@[k].name@ != n@,
                    decreases len - i,
                {
                    if program.uniforms[i].name == n {
                        let ty = program.uniforms[i].ty;
                        proof {
                            assert(<SimBackend as HasProgram>::program_interface(program)
                                == decls_view(program.uniforms@));
                            assert(decls_view(program.uniforms@)[i as int] == (n@, ty));
                            assert(iface_has(decls_view(program.uniforms@), n@));
                        }
                        return Ok((SimUniform { program: program.id, slot: i }, ty));
                    }
                    i += 1;
                }
                proof {
                    assert forall|k: int| 0 <= k < decls_view(program.uniforms@).len() implies
                        decls_view(program.uniforms@)[k].0 != n@ by {
                        assert(decls_view(program.uniforms@)[k] == program.uniforms@[k]@);
                    }
                    assert(!iface_has(decls_view(program.uniforms@), n@));
                }
                Err(ProgramError::InactiveUniform(n.clone()))
            },
            UniformName::IndexName(ix) => {
                let slot = ix as usize;
                if slot < program.uniforms.len() {
                    let ty = program.uniforms[slot].ty;
                    proof {
                        assert(decls_view(program.uniforms@)[slot as int].1 == ty);
                    }
                    Ok((SimUniform { program: program.id, slot }, ty))
                } else {
                    Err(ProgramError::InactiveUniform(String::new()))
                }
            },
        }
    }

    fn update_uniforms<F: Fn()>(program: &SimProgram, f: F) {
        let _ = program;
        f();
    }
}

impl HasTess for SimBackend {
    type ATess = SimTess;

    open spec fn atess_mode(tess: &SimTess) -> Mode {
        tess.mode
    }

    open spec fn atess_vert_nb(tess: &SimTess) -> usize {
        tess.vert_nb
    }

    fn mk_tess(
        &mut self,
        mode: Mode,
        vert_nb: usize,
        vertices: Option<&Vec<u8>>,
        indices: Option<&Vec<u32>>,
    ) -> (r: Result<SimTess, TessBuildError>)
        ensures
            r is Ok,
    {
        let _ = vertices;
        let _ = indices;
        Ok(SimTess { mode, vert_nb })
    }

    fn free_tess(&mut self, tess: SimTess) {
        let _ = tess;
    }

    fn draw(&mut self, tess: &SimTess) {
        let c = RenderCmd::Draw { mode: tess.mode, vertices: tess.vert_nb };
        self.log.push(c);
        proof {
            assert(self.log@ =~= old(self).log@ + seq![c]);
        }
    }
}

impl HasFramebuffer for SimBackend {
    type Framebuffer = SimFramebuffer;

    open spec fn framebuffer_id(fb: &SimFramebuffer) -> u64 {
        fb.id
    }

    open spec fn framebuffer_size(fb: &SimFramebuffer) -> (u32, u32) {
        (fb.width, fb.height)
    }

    fn back_buffer(&mut self, size: [u32; 2]) -> (fb: SimFramebuffer) {
        let id = self.next_framebuffer;
        if self.next_framebuffer < u64::MAX {
            self.next_framebuffer = self.next_framebuffer + 1;
        }
        SimFramebuffer {
            id,
            width: size[0],
            height: size[1],
            color_slots: 1,
            depth_slot: true,
            back: true,
        }
    }

    fn new_framebuffer(&mut self, size: [u32; 2], color_slots: u32, depth_slot: bool) -> (r: Result<
        SimFramebuffer,
        FramebufferError,
    >)
        ensures
            r is Ok <==> size[0] > 0 && size[1] > 0 && (color_slots > 0 || depth_slot),
    {
        if size[0] == 0 || size[1] == 0 || (color_slots == 0 && !depth_slot) {
            return Err(
                FramebufferError::Incomplete("empty dimensions or no attachments".to_owned()),
            );
        }
        let id = self.next_framebuffer;
        if self.next_framebuffer < u64::MAX {
            self.next_framebuffer = self.next_framebuffer + 1;
        }
        Ok(SimFramebuffer { id, width: size[0], height: size[1], color_slots, depth_slot, back: false })
    }

    fn bind_framebuffer(&mut self, fb: &SimFramebuffer, color: ClearColor) {
        let c1 = RenderCmd::BindFramebuffer { fb: fb.id, width: fb.width, height: fb.height };
        let c2 = RenderCmd::Clear { color };
        self.log.push(c1);
        self.log.push(c2);
        proof {
            assert(self.log@ =~= old(self).log@ + seq![c1, c2]);
        }
    }

    fn free_framebuffer(&mut self, fb: SimFramebuffer) {
        let _ = fb;
    }
}

impl HasRenderState for SimBackend {
    fn apply_render_state(&mut self, state: RenderState) {
        let c = RenderCmd::ApplyRenderState { state };
        self.log.push(c);
        proof {
            assert(self.log@ =~= old(self).log@ + seq![c]);
        }
    }
}

} // verus!

//! Tessellations: GPU-resident geometry, either vertex/index data uploaded
//! to backend buffers or a vertex-count-only descriptor for attributeless
//! rendering.

use vstd::prelude::*;
use crate::context::HasContext;
use crate::context::RenderCmd;

verus! {

/// The primitive mode a tessellation is drawn with.
#[derive(Clone, Copy, Debug, PartialEq, Eq, Structural)]
pub enum Mode {
    Point,
    Line,
    LineStrip,
    Triangle,
    TriangleStrip,
    TriangleFan,
    Patch,
}

/// Why building a tessellation failed.
#[derive(Clone, Debug, PartialEq, Eq)]
pub enum TessBuildError {
    /// Neither vertex data, index data nor an explicit vertex count was
    /// given, so there is nothing to draw.
    NoVerticesSpecified,
    /// The backend rejected the upload (for instance, out of device
    /// memory); the payload is its diagnostic text.
    BackendUploadFailed(String),
}

/// The capability of uploading and drawing geometry.
pub trait HasTess: HasContext {
    type ATess;

    /// The primitive mode the geometry was built with.
    spec fn atess_mode(tess: &Self::ATess) -> Mode;

    /// How many vertex invocations a draw of the geometry issues.
    spec fn atess_vert_nb(tess: &Self::ATess) -> usize;

    /// Upload geometry: optional raw vertex data, optional index data, and
    /// the number of vertex invocations a draw will issue. Uploading issues
    /// no driver command; a failed upload is the backend's decision and
    /// carries its diagnostic.
    fn mk_tess(
        &mut self,
        mode: Mode,
        vert_nb: usize,
        vertices: Option<&Vec<u8>>,
        indices: Option<&Vec<u32>>,
    ) -> (r: Result<Self::ATess, TessBuildError>)
        requires
            vert_nb > 0,
        ensures
            final(self).cmds() == old(self).cmds(),
            (r matches Ok(t) ==> Self::atess_mode(&t) == mode && Self::atess_vert_nb(&t)
                == vert_nb),
            (r matches Err(e) ==> e matches TessBuildError::BackendUploadFailed(_)),
    ;

    /// Release uploaded geometry. Releasing issues no driver command.
    fn free_tess(&mut self, tess: Self::ATess)
        ensures
            final(self).cmds() == old(self).cmds(),
    ;

    /// Draw the geometry: one `Draw` command with its mode and vertex count.
    fn draw(&mut self, tess: &Self::ATess)
        ensures
            final(self).cmds() =~= old(self).cmds() + seq![
                (RenderCmd::Draw {
                    mode: Self::atess_mode(tess),
                    vertices: Self::atess_vert_nb(tess),
                }),
            ],
    ;
}

/// Built geometry, immutable once uploaded, owning its backend buffers.
pub struct Tess<C> where C: HasTess {
    pub repr: C::ATess,
}

impl<C> Tess<C> where C: HasTess {
    /// The primitive mode this geometry is drawn with.
    pub open spec fn mode(&self) -> Mode {
        C::atess_mode(&self.repr)
    }

    /// How many vertex invocations a draw of this geometry issues.
    pub open spec fn vert_nb(&self) -> usize {
        C::atess_vert_nb(&self.repr)
    }

    /// Release the geometry's backend buffers; consuming the tessellation
    /// makes the release happen exactly once.
    pub fn release(self, ctx: &mut C)
        ensures
            final(ctx).cmds() == old(ctx).cmds(),
    {
        let Tess { repr } = self;
        ctx.free_tess(repr);
    }
}

/// Accumulates geometry for one [`Tess`]: optional raw vertex attribute
/// data with its per-vertex stride, optional indices, a primitive mode, and
/// an optional explicit vertex count for attributeless rendering.
pub struct TessBuilder {
    pub mode: Mode,
    pub vert_nb: usize,
    pub vertex_data: Option<Vec<u8>>,
    pub vertex_stride: usize,
    pub index_data: Option<Vec<u32>>,
}

impl TessBuilder {
    /// The primitive mode the built geometry will be drawn with.
    pub open spec fn spec_mode(&self) -> Mode {
        self.mode
    }

    /// The explicitly requested vertex count; zero when none was set.
    pub open spec fn spec_vert_nb(&self) -> usize {
        self.vert_nb
    }

    /// Vertex data, when set, comes with a positive stride that divides its
    /// length.
    pub open spec fn wf(&self) -> bool {
        self.vertex_data matches Some(d) ==> self.vertex_stride > 0 && d.len()
            % self.vertex_stride == 0
    }

    /// How many vertex invocations a draw of the built geometry will issue:
    /// the explicit count when one was set; else one per index; else one per
    /// vertex of the supplied data; else zero, and the build fails.
    pub open spec fn effective_vert_nb(&self) -> usize {
        if self.vert_nb > 0 {
            self.vert_nb
        } else {
            match self.index_data {
                Some(ix) => ix.len(),
                None => match self.vertex_data {
                    Some(d) => d.len() / self.vertex_stride,
                    None => 0,
                },
            }
        }
    }

    /// An empty builder: mode `Point`, no data, no explicit count.
    pub fn new() -> (r: TessBuilder)
        ensures
            r.wf(),
            r.spec_mode() == Mode::Point,
            r.spec_vert_nb() == 0,
            r.effective_vert_nb() == 0,
    {
        TessBuilder {
            mode: Mode::Point,
            vert_nb: 0,
            vertex_data: None,
            vertex_stride: 0,
            index_data: None,
        }
    }

    /// Choose the primitive mode.
    pub fn set_mode(self, mode: Mode) -> (r: TessBuilder)
        ensures
            r == (TessBuilder { mode, ..self }),
    {
        TessBuilder { mode, ..self }
    }

    /// Ask for an explicit number of vertex invocations, the basis of
    /// attributeless rendering: no data is uploaded and the vertex stage
    /// synthesizes everything from the built-in per-invocation index.
    pub fn set_vertex_nb(self, nb: usize) -> (r: TessBuilder)
        ensures
            r == (TessBuilder { vert_nb: nb, ..self }),
    {
        TessBuilder { vert_nb: nb, ..self }
    }

    /// Supply raw vertex attribute data; `stride` is the byte size of one
    /// vertex and must divide the data's length.
    pub fn set_vertices(self, data: Vec<u8>, stride: usize) -> (r: TessBuilder)
        requires
            stride > 0,
            data.len() % stride == 0,
        ensures
            r == (TessBuilder { vertex_data: Some(data), vertex_stride: stride, ..self }),
            r.wf(),
    {
        TessBuilder { vertex_data: Some(data), vertex_stride: stride, ..self }
    }

    /// Supply index data; a draw then issues one vertex invocation per
    /// index.
    pub fn set_indices(self, indices: Vec<u32>) -> (r: TessBuilder)
        ensures
            r == (TessBuilder { index_data: Some(indices), ..self }),
    {
        TessBuilder { index_data: Some(indices), ..self }
    }

    /// Upload the accumulated geometry to `ctx`.
    ///
    /// Fails with `NoVerticesSpecified`, before anything reaches the
    /// backend, exactly when neither data nor an explicit count was given;
    /// otherwise the backend uploads, and a success draws with the builder's
    /// mode and effective vertex count.
    pub fn build<C: HasTess>(self, ctx: &mut C) -> (r: Result<Tess<C>, TessBuildError>)
        requires
            self.wf(),
        ensures
            final(ctx).cmds() == old(ctx).cmds(),
            match r {
                Ok(t) => self.effective_vert_nb() > 0 && t.mode() == self.spec_mode()
                    && t.vert_nb() == self.effective_vert_nb(),
                Err(TessBuildError::NoVerticesSpecified) => self.effective_vert_nb() == 0,
                Err(TessBuildError::BackendUploadFailed(_)) => self.effective_vert_nb() > 0,
            },
    {
        let TessBuilder { mode, vert_nb, vertex_data, vertex_stride, index_data } = self;
        let nb: usize = if vert_nb > 0 {
            vert_nb
        } else if let Some(ix) = &index_data {
            ix.len()
        } else if let Some(d) = &vertex_data {
            d.len() / vertex_stride
        } else {
            0
        };
        if nb == 0 {
            return Err(TessBuildError::NoVerticesSpecified);
        }
        match ctx.mk_tess(mode, nb, vertex_data.as_ref(), index_data.as_ref()) {
            Ok(repr) => Ok(Tess { repr }),
            Err(e) => Err(e),
        }
    }
}

} // verus!

use luminance::context::ClearColor;
use luminance::render_state::Blending;
use luminance::render_state::DepthComparison;
use luminance::render_state::DepthTest;
use luminance::render_state::FaceCulling;
use luminance::context::RenderCmd;
use luminance::framebuffer::Framebuffer;
use luminance::pipeline::Pipeline;
use luminance::pipeline::single_pass;
use luminance::render_state::RenderState;
use luminance::shader::program::Program;
use luminance::shader::stage::FragmentShader;
use luminance::shader::stage::Stage;
use luminance::shader::stage::VertexShader;
use luminance::sim::SimBackend;
use luminance::tess::Mode;
use luminance::tess::TessBuilder;

type Vs = Stage<SimBackend, VertexShader>;
type Fs = Stage<SimBackend, FragmentShader>;

fn black() -> ClearColor {
    ClearColor { r: 0, g: 0, b: 0, a: 0 }
}

#[test]
fn attributeless_triangle_end_to_end() {
    let mut sim = SimBackend::new();
    // A vertex stage that synthesizes positions from the per-invocation
    // index, and a fragment stage emitting a constant color; neither
    // declares a uniform.
    let vs = Vs::new(&mut sim, "vertex: position from invocation index").unwrap();
    let fs = Fs::new(&mut sim, "fragment: constant color").unwrap();
    let program = Program::new(&mut sim, None, &vs, None, &fs).unwrap();
    let tess = TessBuilder::new()
        .set_vertex_nb(3)
        .set_mode(Mode::Triangle)
        .build(&mut sim)
        .unwrap();
    let back_buffer = Framebuffer::back_buffer(&mut sim, [960, 540]);

    let mut pipeline = Pipeline::new(&mut sim, &back_buffer, black());
    let mut shd_gate = pipeline.shade(&mut sim, &program);
    let mut rdr_gate = shd_gate.render(&mut sim, RenderState::default());
    let mut tess_gate = rdr_gate.tess(&sim);
    tess_gate.render(&mut sim, &tess);

    assert_eq!(
        *sim.commands(),
        vec![
            RenderCmd::BindFramebuffer { fb: 0, width: 960, height: 540 },
            RenderCmd::Clear { color: black() },
            RenderCmd::BindProgram { program: 0 },
            RenderCmd::ApplyRenderState { state: RenderState::default() },
            RenderCmd::Draw { mode: Mode::Triangle, vertices: 3 },
        ]
    );
}

#[test]
fn rebuilding_back_buffer_targets_new_size() {
    let mut sim = SimBackend::new();
    let vs = Vs::new(&mut sim, "vs").unwrap();
    let fs = Fs::new(&mut sim, "fs").unwrap();
    let program = Program::new(&mut sim, None, &vs, None, &fs).unwrap();
    let tess = TessBuilder::new().set_vertex_nb(3).set_mode(Mode::Triangle).build(&mut sim).unwrap();

    let back_buffer = Framebuffer::back_buffer(&mut sim, [960, 540]);
    {
        let mut pipeline = Pipeline::new(&mut sim, &back_buffer, black());
        let mut shd_gate = pipeline.shade(&mut sim, &program);
        let mut rdr_gate = shd_gate.render(&mut sim, RenderState::default());
        let mut tess_gate = rdr_gate.tess(&sim);
        tess_gate.render(&mut sim, &tess);
    }
    // The platform surface was resized: rebuild the back buffer.
    back_buffer.release(&mut sim);
    let back_buffer = Framebuffer::back_buffer(&mut sim, [800, 600]);
    let _pipeline = Pipeline::new(&mut sim, &back_buffer, black());

    let cmds = sim.commands();
    assert_eq!(cmds[0], RenderCmd::BindFramebuffer { fb: 0, width: 960, height: 540 });
    assert_eq!(cmds[5], RenderCmd::BindFramebuffer { fb: 1, width: 800, height: 600 });
}

#[test]
fn multi_pass_shading_in_one_pipeline_scope() {
    let mut sim = SimBackend::new();
    let vs = Vs::new(&mut sim, "vs").unwrap();
    let fs = Fs::new(&mut sim, "fs").unwrap();
    let first = Program::new(&mut sim, None, &vs, None, &fs).unwrap();
    let second = Program::new(&mut sim, None, &vs, None, &fs).unwrap();
    let tess = TessBuilder::new().set_vertex_nb(4).set_mode(Mode::TriangleFan).build(&mut sim).unwrap();
    let back_buffer = Framebuffer::back_buffer(&mut sim, [320, 200]);

    let mut pipeline = Pipeline::new(&mut sim, &back_buffer, black());
    {
        let mut shd_gate = pipeline.shade(&mut sim, &first);
        let mut rdr_gate = shd_gate.render(&mut sim, RenderState::default());
        let mut tess_gate = rdr_gate.tess(&sim);
        tess_gate.render(&mut sim, &tess);
    }
    {
        let mut shd_gate = pipeline.shade(&mut sim, &second);
        let mut rdr_gate = shd_gate.render(&mut sim, RenderState::default());
        let mut tess_gate = rdr_gate.tess(&sim);
        tess_gate.render(&mut sim, &tess);
        // Nested render scopes may repeat inside one shading scope too.
        let mut rdr_gate = shd_gate.render(&mut sim, RenderState::default());
        let mut tess_gate = rdr_gate.tess(&sim);
        tess_gate.render(&mut sim, &tess);
    }

    let draws = sim
        .commands()
        .iter()
        .filter(|c| matches!(c, RenderCmd::Draw { .. }))
        .count();
    assert_eq!(draws, 3);
    assert_eq!(sim.commands()[2], RenderCmd::BindProgram { program: 0 });
    assert_eq!(sim.commands()[5], RenderCmd::BindProgram { program: 1 });
}

#[test]
fn single_pass_issues_the_gate_sequence() {
    let mut sim = SimBackend::new();
    let vs = Vs::new(&mut sim, "vs").unwrap();
    let fs = Fs::new(&mut sim, "fs").unwrap();
    let program = Program::new(&mut sim, None, &vs, None, &fs).unwrap();
    let tess = TessBuilder::new().set_vertex_nb(6).set_mode(Mode::Line).build(&mut sim).unwrap();
    let back_buffer = Framebuffer::back_buffer(&mut sim, [64, 64]);
    single_pass(
        &mut sim,
        &back_buffer,
        black(),
        &program,
        RenderState::default(),
        &tess,
    );
    assert_eq!(
        *sim.commands(),
        vec![
            RenderCmd::BindFramebuffer { fb: 0, width: 64, height: 64 },
            RenderCmd::Clear { color: black() },
            RenderCmd::BindProgram { program: 0 },
            RenderCmd::ApplyRenderState { state: RenderState::default() },
            RenderCmd::Draw { mode: Mode::Line, vertices: 6 },
        ]
    );
}

#[test]
fn default_render_state_values() {
    let st = RenderState::default();
    assert_eq!(st.blending, Blending::Disabled);
    assert_eq!(st.depth_test, DepthTest::Enabled(DepthComparison::Less));
    assert_eq!(st.face_culling, FaceCulling::Disabled);
}

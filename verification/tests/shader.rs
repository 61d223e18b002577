use luminance::shader::program::Program;
use luminance::shader::program::ProgramError;
use luminance::shader::stage::FragmentShader;
use luminance::shader::stage::GeometryShader;
use luminance::shader::stage::Stage;
use luminance::shader::stage::StageError;
use luminance::shader::stage::TessellationControlShader;
use luminance::shader::stage::TessellationEvaluationShader;
use luminance::shader::stage::VertexShader;
use luminance::shader::program::HasProgram;
use luminance::shader::uniform::ShaderFloat;
use luminance::shader::uniform::ShaderVec2;
use luminance::shader::uniform::UniformDecl;
use luminance::shader::uniform::UniformName;
use luminance::shader::uniform::UniformType;
use luminance::sim::SimBackend;

type Vs = Stage<SimBackend, VertexShader>;
type Gs = Stage<SimBackend, GeometryShader>;
type Fs = Stage<SimBackend, FragmentShader>;
type Tcs = Stage<SimBackend, TessellationControlShader>;
type Tes = Stage<SimBackend, TessellationEvaluationShader>;

fn decl(name: &str, ty: UniformType) -> UniformDecl {
    UniformDecl { name: String::from(name), ty }
}

#[test]
fn link_vertex_fragment() {
    let mut sim = SimBackend::new();
    let vs = Vs::new(&mut sim, "vs").unwrap();
    let fs = Fs::new(&mut sim, "fs").unwrap();
    assert!(Program::new(&mut sim, None, &vs, None, &fs).is_ok());
}

#[test]
fn link_with_geometry() {
    let mut sim = SimBackend::new();
    let vs = Vs::new(&mut sim, "vs").unwrap();
    let gs = Gs::new(&mut sim, "gs").unwrap();
    let fs = Fs::new(&mut sim, "fs").unwrap();
    assert!(Program::new(&mut sim, None, &vs, Some(&gs), &fs).is_ok());
}

#[test]
fn link_with_tessellation() {
    let mut sim = SimBackend::new();
    let tcs = Tcs::new(&mut sim, "tcs").unwrap();
    let tes = Tes::new(&mut sim, "tes").unwrap();
    let vs = Vs::new(&mut sim, "vs").unwrap();
    let fs = Fs::new(&mut sim, "fs").unwrap();
    assert!(Program::new(&mut sim, Some((&tcs, &tes)), &vs, None, &fs).is_ok());
}

#[test]
fn link_all_five_stages() {
    let mut sim = SimBackend::new();
    let tcs = Tcs::new(&mut sim, "tcs").unwrap();
    let tes = Tes::new(&mut sim, "tes").unwrap();
    let vs = Vs::new(&mut sim, "vs").unwrap();
    let gs = Gs::new(&mut sim, "gs").unwrap();
    let fs = Fs::new(&mut sim, "fs").unwrap();
    assert!(Program::new(&mut sim, Some((&tcs, &tes)), &vs, Some(&gs), &fs).is_ok());
}

#[test]
fn link_fails_on_conflicting_uniform_types() {
    let mut sim = SimBackend::new();
    sim.accept_source(String::from("vs"), vec![decl("time", UniformType::Vec2)]);
    sim.accept_source(String::from("fs"), vec![decl("time", UniformType::Float)]);
    let vs = Vs::new(&mut sim, "vs").unwrap();
    let fs = Fs::new(&mut sim, "fs").unwrap();
    match Program::new(&mut sim, None, &vs, None, &fs) {
        Err(ProgramError::LinkFailed(_)) => {}
        other => panic!("expected LinkFailed, got {:?}", other.map(|_| ())),
    }
}

#[test]
fn compile_fails_with_registered_diagnostic() {
    let mut sim = SimBackend::new();
    sim.reject_source(String::from("bad"), String::from("unexpected token"));
    match Vs::new(&mut sim, "bad") {
        Err(StageError::CompilationFailed(d)) => assert_eq!(d, "unexpected token"),
        Ok(_) => panic!("expected CompilationFailed"),
    }
}

#[test]
fn inactive_uniform_is_reported_by_name() {
    let mut sim = SimBackend::new();
    let vs = Vs::new(&mut sim, "vs").unwrap();
    let fs = Fs::new(&mut sim, "fs").unwrap();
    let program = Program::new(&mut sim, None, &vs, None, &fs).unwrap();
    match program.uniform::<i32>("nope") {
        Err(ProgramError::InactiveUniform(n)) => assert_eq!(n, "nope"),
        _ => panic!("expected InactiveUniform"),
    }
    // Repeating the lookup gives the same outcome: it is a pure query.
    assert!(matches!(
        program.uniform::<i32>("nope"),
        Err(ProgramError::InactiveUniform(_))
    ));
}

#[test]
fn uniform_type_mismatch_against_declared_type() {
    let mut sim = SimBackend::new();
    sim.accept_source(String::from("vs"), vec![decl("time", UniformType::Vec2)]);
    let vs = Vs::new(&mut sim, "vs").unwrap();
    let fs = Fs::new(&mut sim, "fs").unwrap();
    let program = Program::new(&mut sim, None, &vs, None, &fs).unwrap();
    match program.uniform::<ShaderFloat>("time") {
        Err(ProgramError::UniformTypeMismatch(n)) => assert_eq!(n, "time"),
        _ => panic!("expected UniformTypeMismatch"),
    }
    // The declared type succeeds.
    assert!(program.uniform::<ShaderVec2>("time").is_ok());
}

#[test]
fn uniform_handle_names_program_and_slot() {
    let mut sim = SimBackend::new();
    sim.accept_source(
        String::from("vs"),
        vec![decl("scale", UniformType::Float), decl("bias", UniformType::Int)],
    );
    let vs = Vs::new(&mut sim, "vs").unwrap();
    let fs = Fs::new(&mut sim, "fs").unwrap();
    let program = Program::new(&mut sim, None, &vs, None, &fs).unwrap();
    let bias = program.uniform::<i32>("bias").unwrap();
    assert_eq!(bias.repr.program, program.repr.id);
    assert_eq!(bias.repr.slot, 1);
}

#[test]
fn uniform_handle_resolves_first_matching_slot() {
    let mut sim = SimBackend::new();
    // The same name declared (compatibly) in both stages: the handle
    // denotes the first slot of that name.
    sim.accept_source(String::from("vs"), vec![decl("time", UniformType::Float)]);
    sim.accept_source(String::from("fs"), vec![decl("time", UniformType::Float)]);
    let vs = Vs::new(&mut sim, "vs").unwrap();
    let fs = Fs::new(&mut sim, "fs").unwrap();
    let program = Program::new(&mut sim, None, &vs, None, &fs).unwrap();
    let first = program.uniform::<ShaderFloat>("time").unwrap();
    let again = program.uniform::<ShaderFloat>("time").unwrap();
    assert_eq!(first.repr.slot, 0);
    assert_eq!(first.repr, again.repr);
}

#[test]
fn uniform_handle_copies_freely() {
    let mut sim = SimBackend::new();
    sim.accept_source(String::from("vs"), vec![decl("scale", UniformType::Float)]);
    let vs = Vs::new(&mut sim, "vs").unwrap();
    let fs = Fs::new(&mut sim, "fs").unwrap();
    let program = Program::new(&mut sim, None, &vs, None, &fs).unwrap();
    let scale = program.uniform::<ShaderFloat>("scale").unwrap();
    let copy = scale.duplicate();
    assert_eq!(copy.repr, scale.repr);
}

#[test]
fn uniform_lookup_by_index() {
    let mut sim = SimBackend::new();
    sim.accept_source(String::from("vs"), vec![decl("scale", UniformType::Float)]);
    let vs = Vs::new(&mut sim, "vs").unwrap();
    let fs = Fs::new(&mut sim, "fs").unwrap();
    let program = Program::new(&mut sim, None, &vs, None, &fs).unwrap();
    match <SimBackend as HasProgram>::map_uniform(&program.repr, UniformName::IndexName(0)) {
        Ok((u, ty)) => {
            assert_eq!(u.slot, 0);
            assert_eq!(ty, UniformType::Float);
        }
        Err(_) => panic!("slot 0 is active"),
    }
    assert!(matches!(
        <SimBackend as HasProgram>::map_uniform(&program.repr, UniformName::IndexName(7)),
        Err(ProgramError::InactiveUniform(_))
    ));
}

#[test]
fn scalar_marker_types_match_declared_types() {
    let mut sim = SimBackend::new();
    sim.accept_source(
        String::from("vs"),
        vec![
            decl("level", UniformType::Int),
            decl("mask", UniformType::UInt),
            decl("lit", UniformType::Bool),
        ],
    );
    let vs = Vs::new(&mut sim, "vs").unwrap();
    let fs = Fs::new(&mut sim, "fs").unwrap();
    let program = Program::new(&mut sim, None, &vs, None, &fs).unwrap();
    assert!(program.uniform::<i32>("level").is_ok());
    assert!(program.uniform::<u32>("mask").is_ok());
    assert!(program.uniform::<bool>("lit").is_ok());
    assert!(matches!(
        program.uniform::<u32>("level"),
        Err(ProgramError::UniformTypeMismatch(_))
    ));
}

#[test]
fn update_runs_the_uniform_body() {
    let mut sim = SimBackend::new();
    let vs = Vs::new(&mut sim, "vs").unwrap();
    let fs = Fs::new(&mut sim, "fs").unwrap();
    let program = Program::new(&mut sim, None, &vs, None, &fs).unwrap();
    let ran = std::cell::Cell::new(false);
    program.update(|| ran.set(true));
    assert!(ran.get());
}

#[test]
fn release_frees_exactly_once_by_consuming() {
    let mut sim = SimBackend::new();
    let vs = Vs::new(&mut sim, "vs").unwrap();
    let fs = Fs::new(&mut sim, "fs").unwrap();
    let program = Program::new(&mut sim, None, &vs, None, &fs).unwrap();
    program.release(&mut sim);
    vs.release(&mut sim);
    fs.release(&mut sim);
    // Releasing issues no driver command.
    assert!(sim.commands().is_empty());
}

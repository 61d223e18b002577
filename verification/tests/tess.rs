use luminance::framebuffer::Framebuffer;
use luminance::framebuffer::FramebufferError;
use luminance::sim::SimBackend;
use luminance::tess::Mode;
use luminance::tess::TessBuildError;
use luminance::tess::TessBuilder;

#[test]
fn attributeless_tess_with_explicit_count() {
    let mut sim = SimBackend::new();
    let tess = TessBuilder::new()
        .set_vertex_nb(3)
        .set_mode(Mode::Triangle)
        .build(&mut sim)
        .unwrap();
    assert_eq!(tess.repr.vert_nb, 3);
    assert_eq!(tess.repr.mode, Mode::Triangle);
}

#[test]
fn empty_builder_fails_with_no_vertices() {
    let mut sim = SimBackend::new();
    match TessBuilder::new().build(&mut sim) {
        Err(TessBuildError::NoVerticesSpecified) => {}
        _ => panic!("expected NoVerticesSpecified"),
    }
}

#[test]
fn zero_explicit_count_without_data_fails() {
    let mut sim = SimBackend::new();
    match TessBuilder::new().set_vertex_nb(0).set_mode(Mode::Triangle).build(&mut sim) {
        Err(TessBuildError::NoVerticesSpecified) => {}
        _ => panic!("expected NoVerticesSpecified"),
    }
}

#[test]
fn vertex_count_inferred_from_vertex_data() {
    let mut sim = SimBackend::new();
    let data: Vec<u8> = vec![0; 12];
    let tess = TessBuilder::new()
        .set_vertices(data, 4)
        .set_mode(Mode::TriangleStrip)
        .build(&mut sim)
        .unwrap();
    assert_eq!(tess.repr.vert_nb, 3);
}

#[test]
fn vertex_count_inferred_from_indices() {
    let mut sim = SimBackend::new();
    let data: Vec<u8> = vec![0; 8];
    let tess = TessBuilder::new()
        .set_vertices(data, 4)
        .set_indices(vec![0, 1, 0, 1])
        .set_mode(Mode::Line)
        .build(&mut sim)
        .unwrap();
    // One vertex invocation per index outweighs the two supplied vertices.
    assert_eq!(tess.repr.vert_nb, 4);
}

#[test]
fn back_buffer_records_dimensions() {
    let mut sim = SimBackend::new();
    let fb = Framebuffer::back_buffer(&mut sim, [960, 540]);
    assert_eq!(fb.repr.width, 960);
    assert_eq!(fb.repr.height, 540);
}

#[test]
fn offscreen_framebuffer_with_attachments() {
    let mut sim = SimBackend::new();
    let fb = Framebuffer::new(&mut sim, [256, 256], 2, true).unwrap();
    assert_eq!(fb.repr.color_slots, 2);
    assert!(fb.repr.depth_slot);
}

#[test]
fn incomplete_framebuffer_is_rejected() {
    let mut sim = SimBackend::new();
    match Framebuffer::new(&mut sim, [0, 256], 1, true) {
        Err(FramebufferError::Incomplete(_)) => {}
        Ok(_) => panic!("zero width must be incomplete"),
    }
    match Framebuffer::new(&mut sim, [256, 256], 0, false) {
        Err(FramebufferError::Incomplete(_)) => {}
        Ok(_) => panic!("no attachments must be incomplete"),
    }
}

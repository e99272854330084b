use render_gl::frame::{FrameLoop, InputEvent, Key, LoopState};
use render_gl::geometry::{position_color_layout, Attribute, AttributeBinding, GeometryBuffer};
use render_gl::native::{NativeCall, Reply};
use render_gl::program::{LinkError, LinkJob, LinkStep, Program};
use render_gl::shader::{CompileJob, CompileStep, Shader};

const PASS_THROUGH_VERT: &str = "#version 330 core\nlayout (location = 0) in vec3 Position;\nlayout (location = 1) in vec3 Color;\nout vec3 vColor;\nvoid main() { gl_Position = vec4(Position, 1.0); vColor = Color; }\n";
const YELLOW_FRAG: &str = "#version 330 core\nout vec4 Color;\nvoid main() { Color = vec4(1.0, 1.0, 0.0, 1.0); }\n";

fn vertices_1() -> Vec<u32> {
    let v: Vec<f32> = vec![
        -0.5, -0.5, 0.0, 1.0, 0.0, 0.0, //
        0.5, -0.5, 0.0, 0.0, 1.0, 0.0, //
        0.0, 0.5, 0.0, 0.0, 0.0, 1.0,
    ];
    v.iter().map(|f| f.to_bits()).collect()
}

fn vertices_2() -> Vec<u32> {
    let v: Vec<f32> = vec![
        -1.0, -1.0, 0.1, 1.0, 0.0, 0.0, //
        -0.3, -0.5, 0.1, 0.0, 1.0, 0.0, //
        0.0, 1.0, 0.1, 0.0, 0.0, 1.0,
    ];
    v.iter().map(|f| f.to_bits()).collect()
}

/// Runs a compilation against a driver that creates `handle` and accepts the source.
fn compiled(start: (CompileJob, Vec<NativeCall>), handle: u32) -> Shader {
    let (job, _) = start;
    let job = match job.advance(Reply::Handle(handle)) {
        CompileStep::Perform(_, job) => job,
        CompileStep::Finish(..) => panic!("no object"),
    };
    match job.advance(Reply::Int(1)) {
        CompileStep::Finish(_, Ok(stage)) => stage,
        _ => panic!("not compiled"),
    }
}

fn perform(step: LinkStep) -> (Vec<NativeCall>, LinkJob) {
    match step {
        LinkStep::Perform(calls, job) => (calls, job),
        LinkStep::Finish(..) => panic!("link ended early"),
    }
}

fn finish(step: LinkStep) -> (Vec<NativeCall>, Result<Program, LinkError>) {
    match step {
        LinkStep::Finish(calls, result) => (calls, result),
        LinkStep::Perform(..) => panic!("link did not end"),
    }
}

/// Runs a link against a driver that creates `handle` and links the stages.
fn linked(stages: &[Shader], handle: u32) -> Program {
    let (job, _) = Program::from_shaders(stages);
    let (_, job) = perform(job.advance(Reply::Handle(handle)));
    finish(job.advance(Reply::Int(1))).1.unwrap()
}

fn count_draws(calls: &[NativeCall]) -> usize {
    calls.iter().filter(|c| matches!(c, NativeCall::DrawTriangles { .. })).count()
}

fn count_presents(calls: &[NativeCall]) -> usize {
    calls.iter().filter(|c| matches!(c, NativeCall::Present)).count()
}

#[test]
fn link_vertex_and_fragment_succeeds() {
    let vert = compiled(Shader::from_vert_source(PASS_THROUGH_VERT), 7);
    let frag = compiled(Shader::from_frag_source(YELLOW_FRAG), 8);
    let stages = vec![vert, frag];
    let (job, calls) = Program::from_shaders(&stages);
    assert_eq!(calls, vec![NativeCall::CreateProgram]);
    let (calls, job) = perform(job.advance(Reply::Handle(3)));
    assert_eq!(
        calls,
        vec![
            NativeCall::AttachShader { program: 3, shader: 7 },
            NativeCall::AttachShader { program: 3, shader: 8 },
            NativeCall::LinkProgram { program: 3 },
            NativeCall::LinkStatus { program: 3 },
        ]
    );
    let (calls, result) = finish(job.advance(Reply::Int(1)));
    assert_eq!(
        calls,
        vec![
            NativeCall::DetachShader { program: 3, shader: 7 },
            NativeCall::DetachShader { program: 3, shader: 8 },
        ]
    );
    let program = result.unwrap();
    assert_eq!(program.id(), 3);
    assert_eq!(program.set_used(), NativeCall::UseProgram { program: 3 });
    assert_eq!(program.release(), NativeCall::DeleteProgram { program: 3 });
}

#[test]
fn link_vertex_only_fails_with_log() {
    let vert = compiled(Shader::from_vert_source(PASS_THROUGH_VERT), 7);
    let stages = vec![vert];
    let (job, _) = Program::from_shaders(&stages);
    let (_, job) = perform(job.advance(Reply::Handle(5)));
    let (calls, job) = perform(job.advance(Reply::Int(0)));
    assert_eq!(calls, vec![NativeCall::ProgramLogLength { program: 5 }]);
    let (calls, job) = perform(job.advance(Reply::Int(4)));
    assert_eq!(calls, vec![NativeCall::ProgramLog { program: 5, log: vec![b' '; 4] }]);
    assert!(!job.accepts(&Reply::Int(0)));
    let (calls, result) = finish(job.advance(Reply::Log(b"no\n\0".to_vec())));
    assert_eq!(calls, vec![NativeCall::DeleteProgram { program: 5 }]);
    assert_eq!(result.err().unwrap().message, "no\n\0");
}

#[test]
fn link_without_object_fails_at_once() {
    let stages = vec![compiled(Shader::from_compute_source("c"), 2)];
    let (job, _) = Program::from_shaders(&stages);
    let (calls, result) = finish(job.advance(Reply::Handle(0)));
    assert!(calls.is_empty());
    assert_eq!(result.err().unwrap().message, "the driver created no program object");
}

#[test]
fn same_stages_link_into_two_pipelines() {
    let vert = compiled(Shader::from_vert_source(PASS_THROUGH_VERT), 7);
    let frag = compiled(Shader::from_frag_source(YELLOW_FRAG), 8);
    let stages = vec![vert, frag];
    let first = linked(&stages, 3);
    let second = linked(&stages, 4);
    assert_eq!(first.id(), 3);
    assert_eq!(second.id(), 4);
    assert_eq!(stages[0].id(), 7);
    assert_eq!(stages[1].id(), 8);
}

#[test]
fn upload_describes_interleaved_layout() {
    let words = vertices_1();
    let (geometry, calls) = GeometryBuffer::upload(11, 12, words.clone(), &position_color_layout());
    assert_eq!(geometry.vertex_count(), 3);
    assert_eq!(geometry.buffer_id(), 11);
    assert_eq!(geometry.array_id(), 12);
    assert_eq!(
        geometry.bindings(),
        &vec![
            AttributeBinding { slot: 0, components: 3, stride: 24, offset: 0 },
            AttributeBinding { slot: 1, components: 3, stride: 24, offset: 12 },
        ]
    );
    assert_eq!(
        calls,
        vec![
            NativeCall::BindVertexArray { array: 12 },
            NativeCall::BindArrayBuffer { buffer: 11 },
            NativeCall::UploadStatic { words },
            NativeCall::EnableSlot { slot: 0 },
            NativeCall::DescribeSlot { slot: 0, components: 3, stride: 24, offset: 0 },
            NativeCall::EnableSlot { slot: 1 },
            NativeCall::DescribeSlot { slot: 1, components: 3, stride: 24, offset: 12 },
            NativeCall::BindArrayBuffer { buffer: 0 },
            NativeCall::BindVertexArray { array: 0 },
        ]
    );
    assert_eq!(
        geometry.release(),
        vec![NativeCall::DeleteVertexArray { array: 12 }, NativeCall::DeleteBuffer { buffer: 11 }]
    );
}

#[test]
fn layout_reads_back_whatever_the_vertex_count() {
    let layout = vec![
        Attribute { slot: 2, components: 4 },
        Attribute { slot: 0, components: 2 },
        Attribute { slot: 5, components: 1 },
    ];
    let (small, _) = GeometryBuffer::upload(1, 2, vec![0; 7], &layout);
    let (large, _) = GeometryBuffer::upload(3, 4, vec![0; 700], &layout);
    assert_eq!(small.vertex_count(), 1);
    assert_eq!(large.vertex_count(), 100);
    assert_eq!(small.bindings(), large.bindings());
    let read_back: Vec<Attribute> =
        small.bindings().iter().map(|b| Attribute { slot: b.slot, components: b.components }).collect();
    assert_eq!(read_back, layout);
    let offsets: Vec<u32> = small.bindings().iter().map(|b| b.offset).collect();
    assert_eq!(offsets, vec![0, 16, 24]);
    assert!(small.bindings().iter().all(|b| b.stride == 28));
}

#[test]
fn trailing_floats_are_uploaded_but_not_counted() {
    let (geometry, calls) = GeometryBuffer::upload(1, 2, vec![0; 20], &position_color_layout());
    assert_eq!(geometry.vertex_count(), 3);
    assert_eq!(calls[2], NativeCall::UploadStatic { words: vec![0; 20] });
}

#[test]
fn empty_layout_counts_no_vertices() {
    let (geometry, calls) = GeometryBuffer::upload(1, 2, vec![0; 6], &Vec::new());
    assert_eq!(geometry.vertex_count(), 0);
    assert!(geometry.bindings().is_empty());
    assert_eq!(calls.len(), 5);
}

#[test]
fn two_geometry_buffers_draw_independently() {
    let layout = position_color_layout();
    let (first, _) = GeometryBuffer::upload(1, 2, vertices_1(), &layout);
    let before = first.bindings().clone();
    let (second, _) = GeometryBuffer::upload(3, 4, vertices_2(), &layout);
    assert_eq!(first.draw(), vec![NativeCall::BindVertexArray { array: 2 }, NativeCall::DrawTriangles { count: 3 }]);
    assert_eq!(second.draw(), vec![NativeCall::BindVertexArray { array: 4 }, NativeCall::DrawTriangles { count: 3 }]);
    assert_eq!(first.draw(), vec![NativeCall::BindVertexArray { array: 2 }, NativeCall::DrawTriangles { count: 3 }]);
    assert_eq!(first.bindings(), &before);
    assert_eq!(second.bindings(), &before);
}

#[test]
fn quit_first_ends_loop_without_drawing() {
    let vert = compiled(Shader::from_vert_source(PASS_THROUGH_VERT), 7);
    let frag = compiled(Shader::from_frag_source(YELLOW_FRAG), 8);
    let program = linked(&[vert, frag], 3);
    let (triangle, _) = GeometryBuffer::upload(1, 2, vertices_1(), &position_color_layout());
    let mut frames = FrameLoop::new();
    assert_eq!(frames.state(), LoopState::Running);
    let calls = frames.iterate(&vec![InputEvent::Quit, InputEvent::Other], &vec![(&program, &triangle)]);
    assert_eq!(count_draws(&calls), 0);
    assert!(calls.is_empty());
    assert_eq!(frames.state(), LoopState::Terminated);
    assert!(!frames.is_running());
    let again = frames.iterate(&Vec::new(), &vec![(&program, &triangle)]);
    assert!(again.is_empty());
    assert_eq!(frames.state(), LoopState::Terminated);
}

#[test]
fn escape_key_ends_loop() {
    let mut frames = FrameLoop::new();
    let calls = frames.iterate(
        &vec![InputEvent::KeyDown { key: Key::Other }, InputEvent::KeyDown { key: Key::Escape }],
        &Vec::new(),
    );
    assert!(calls.is_empty());
    assert_eq!(frames.state(), LoopState::Terminated);
}

#[test]
fn quiet_iteration_draws_each_pair_once() {
    let vert = compiled(Shader::from_vert_source(PASS_THROUGH_VERT), 7);
    let frag = compiled(Shader::from_frag_source("normal"), 8);
    let yellow = compiled(Shader::from_frag_source(YELLOW_FRAG), 9);
    let normal = linked(&[vert, frag], 3);
    let vert = compiled(Shader::from_vert_source(PASS_THROUGH_VERT), 10);
    let highlighted = linked(&[vert, yellow], 4);
    let layout = position_color_layout();
    let (first, _) = GeometryBuffer::upload(1, 2, vertices_1(), &layout);
    let (second, _) = GeometryBuffer::upload(5, 6, vertices_2(), &layout);
    let mut frames = FrameLoop::new();
    let calls = frames.iterate(&Vec::new(), &vec![(&normal, &first), (&highlighted, &second)]);
    assert_eq!(
        calls,
        vec![
            NativeCall::ClearColor,
            NativeCall::UseProgram { program: 3 },
            NativeCall::BindVertexArray { array: 2 },
            NativeCall::DrawTriangles { count: 3 },
            NativeCall::UseProgram { program: 4 },
            NativeCall::BindVertexArray { array: 6 },
            NativeCall::DrawTriangles { count: 3 },
            NativeCall::Present,
        ]
    );
    assert_eq!(count_draws(&calls), 2);
    assert_eq!(count_presents(&calls), 1);
    assert!(frames.is_running());
}

#[test]
fn single_pair_frame_with_other_events() {
    let vert = compiled(Shader::from_vert_source(PASS_THROUGH_VERT), 7);
    let frag = compiled(Shader::from_frag_source(YELLOW_FRAG), 8);
    let program = linked(&[vert, frag], 3);
    let (triangle, _) = GeometryBuffer::upload(1, 2, vertices_1(), &position_color_layout());
    let mut frames = FrameLoop::new();
    let calls = frames.iterate(&vec![InputEvent::Other, InputEvent::KeyDown { key: Key::Other }], &vec![(&program, &triangle)]);
    assert_eq!(calls[0], NativeCall::ClearColor);
    assert_eq!(count_draws(&calls), 1);
    assert_eq!(count_presents(&calls), 1);
    assert_eq!(calls.last(), Some(&NativeCall::Present));
    assert_eq!(frames.state(), LoopState::Running);
}

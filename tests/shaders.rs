use render_gl::diagnostic::{create_whitespace_cstring_with_len, diagnostic_text, log_buffer};
use render_gl::native::{NativeCall, Reply, StageKind};
use render_gl::shader::{CompileError, CompileJob, CompileStep, Shader};

fn expect_perform(step: CompileStep) -> (Vec<NativeCall>, CompileJob) {
    match step {
        CompileStep::Perform(calls, job) => (calls, job),
        CompileStep::Finish(..) => panic!("compilation ended early"),
    }
}

fn expect_finish(step: CompileStep) -> (Vec<NativeCall>, Result<Shader, CompileError>) {
    match step {
        CompileStep::Finish(calls, result) => (calls, result),
        CompileStep::Perform(..) => panic!("compilation did not end"),
    }
}

#[test]
fn whitespace_buffer_has_exact_length() {
    assert_eq!(create_whitespace_cstring_with_len(5), vec![b' '; 5]);
    assert_eq!(create_whitespace_cstring_with_len(0), Vec::<u8>::new());
}

#[test]
fn log_buffer_follows_reported_length() {
    assert_eq!(log_buffer(4), vec![b' '; 4]);
    assert_eq!(log_buffer(0), Vec::<u8>::new());
    assert_eq!(log_buffer(-3), Vec::<u8>::new());
}

#[test]
fn diagnostic_text_decodes_lossily() {
    assert_eq!(diagnostic_text(&b"0:1: error".to_vec()), "0:1: error");
    assert_eq!(diagnostic_text(&Vec::new()), "");
    assert_eq!(diagnostic_text(&vec![b'a', 0xff, b'b']), "a\u{FFFD}b");
}

#[test]
fn compile_success_yields_owned_stage() {
    let source = "#version 330 core\nvoid main() {}\n";
    let (job, calls) = Shader::from_vert_source(source);
    assert_eq!(calls, vec![NativeCall::CreateShader { kind: StageKind::Vertex }]);
    let (calls, job) = expect_perform(job.advance(Reply::Handle(7)));
    assert_eq!(
        calls,
        vec![
            NativeCall::ShaderSource { shader: 7, source: source.to_string() },
            NativeCall::CompileShader { shader: 7 },
            NativeCall::CompileStatus { shader: 7 },
        ]
    );
    assert!(job.accepts(&Reply::Int(1)));
    assert!(!job.accepts(&Reply::Handle(1)));
    let (calls, result) = expect_finish(job.advance(Reply::Int(1)));
    assert!(calls.is_empty());
    let stage = result.unwrap();
    assert_eq!(stage.id(), 7);
    assert_eq!(stage.kind(), StageKind::Vertex);
    assert_eq!(stage.release(), NativeCall::DeleteShader { shader: 7 });
}

#[test]
fn each_convenience_entry_fixes_its_kind() {
    let kinds = [
        (Shader::from_vert_source("v").1, StageKind::Vertex),
        (Shader::from_frag_source("f").1, StageKind::Fragment),
        (Shader::from_geometry_source("g").1, StageKind::Geometry),
        (Shader::from_compute_source("c").1, StageKind::Compute),
        (Shader::from_tess_control_source("tc").1, StageKind::TessControl),
        (Shader::from_tess_evaluation_source("te").1, StageKind::TessEvaluation),
    ];
    for (calls, kind) in kinds {
        assert_eq!(calls, vec![NativeCall::CreateShader { kind }]);
    }
    let (_, calls) = Shader::from_source("x", StageKind::Compute);
    assert_eq!(calls, vec![NativeCall::CreateShader { kind: StageKind::Compute }]);
}

#[test]
fn compile_failure_reads_log_and_releases_object() {
    let (job, _) = Shader::from_frag_source("not a shader");
    let (_, job) = expect_perform(job.advance(Reply::Handle(9)));
    let (calls, job) = expect_perform(job.advance(Reply::Int(0)));
    assert_eq!(calls, vec![NativeCall::ShaderLogLength { shader: 9 }]);
    let (calls, job) = expect_perform(job.advance(Reply::Int(6)));
    assert_eq!(calls, vec![NativeCall::ShaderLog { shader: 9, log: vec![b' '; 6] }]);
    assert!(!job.accepts(&Reply::Log(vec![b'x'; 5])));
    assert!(job.accepts(&Reply::Log(b"oops!\0".to_vec())));
    let (calls, result) = expect_finish(job.advance(Reply::Log(b"oops!\0".to_vec())));
    assert_eq!(calls, vec![NativeCall::DeleteShader { shader: 9 }]);
    let err = result.err().unwrap();
    assert_eq!(err.message, "oops!\0");
    assert!(!err.message.is_empty());
}

#[test]
fn compile_failure_with_empty_log_gives_empty_text() {
    let (job, _) = Shader::from_frag_source("bad");
    let (_, job) = expect_perform(job.advance(Reply::Handle(4)));
    let (_, job) = expect_perform(job.advance(Reply::Int(0)));
    let (calls, job) = expect_perform(job.advance(Reply::Int(0)));
    assert_eq!(calls, vec![NativeCall::ShaderLog { shader: 4, log: Vec::new() }]);
    let (calls, result) = expect_finish(job.advance(Reply::Log(Vec::new())));
    assert_eq!(calls, vec![NativeCall::DeleteShader { shader: 4 }]);
    assert_eq!(result.err().unwrap().message, "");
}

#[test]
fn compile_without_object_fails_at_once() {
    let (job, _) = Shader::from_vert_source("void main() {}");
    let (calls, result) = expect_finish(job.advance(Reply::Handle(0)));
    assert!(calls.is_empty());
    assert_eq!(result.err().unwrap().message, "the driver created no shader object");
}

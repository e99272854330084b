//! Shader stages: compiling one source text into one owned native shader object.
use vstd::prelude::*;
use crate::native::{StageKind, NativeCall, Reply, Call, Answer, calls_model};
use crate::diagnostic::{log_buffer, diagnostic_text, lossy_text, filler, log_capacity};

verus! {

/// An owned, successfully compiled shader object.
///
/// It is deliberately not `Clone`: `release` consumes it, so the delete call for
/// its handle is issued at most once, whether or not the stage was ever linked.
pub struct Shader {
    pub(crate) id: u32,
    pub(crate) kind: StageKind,
}

/// Compilation failed; `message` is the driver's diagnostic log.
#[derive(Debug)]
pub struct CompileError {
    pub message: String,
}

/// The model of a compiled stage.
pub ghost struct StageModel {
    pub handle: u32,
    pub kind: StageKind,
}

/// Where a compilation stands: which answer the job waits for.
#[derive(Clone, Copy, Debug, PartialEq, Eq, Structural)]
pub enum CompilePhase {
    /// Waits for the handle of the new shader object.
    Create,
    /// Waits for the compile status flag.
    Check { shader: u32 },
    /// Waits for the length of the diagnostic log.
    Size { shader: u32 },
    /// Waits for the log buffer, of `capacity` bytes, filled by the driver.
    Read { shader: u32, capacity: usize },
}

impl CompilePhase {
    /// The shader object the phase works on, once one exists.
    pub open spec fn object(self) -> u32 {
        match self {
            CompilePhase::Create => 0,
            CompilePhase::Check { shader } => shader,
            CompilePhase::Size { shader } => shader,
            CompilePhase::Read { shader, .. } => shader,
        }
    }
}

/// A compilation in progress.
pub struct CompileJob {
    pub(crate) kind: StageKind,
    pub(crate) source: String,
    pub(crate) phase: CompilePhase,
}

/// The model of a compilation in progress.
pub ghost struct CompileState {
    pub kind: StageKind,
    pub source: Seq<char>,
    pub phase: CompilePhase,
}

/// What one step of a compilation hands back.
pub enum CompileStep {
    /// Perform these calls in order, then hand the answer to the last one to `job`.
    Perform(Vec<NativeCall>, CompileJob),
    /// Perform these calls in order; the compilation is over with this result.
    Finish(Vec<NativeCall>, Result<Shader, CompileError>),
}

/// The model of a compilation step.
pub ghost enum CompileStepModel {
    Perform(Seq<Call>, CompileState),
    Finish(Seq<Call>, Result<StageModel, Seq<char>>),
}

/// The diagnostic reported when the driver hands back no shader object.
pub open spec fn no_shader_text() -> Seq<char> {
    "the driver created no shader object"@
}

/// The answer that a compilation in state `s` waits for has the shape of `a`.
pub open spec fn compile_accepts(s: CompileState, a: Answer) -> bool {
    match s.phase {
        CompilePhase::Create => a is Handle,
        CompilePhase::Check { .. } => a is Int,
        CompilePhase::Size { .. } => a is Int,
        CompilePhase::Read { capacity, .. } => a is Log && a->Log_0.len() == capacity,
    }
}

/// The compilation protocol, one step at a time.
///
/// A zero handle fails at once. Otherwise the source is handed over, compiled and
/// the status queried. A non-zero status yields the stage. A zero status asks for
/// the log length, hands the driver a buffer of that many filler bytes, decodes
/// what it wrote into the error, and releases the transient shader object.
pub open spec fn compile_next(s: CompileState, a: Answer) -> CompileStepModel {
    match s.phase {
        CompilePhase::Create => {
            let h = a->Handle_0;
            if h == 0 {
                CompileStepModel::Finish(seq![], Err(no_shader_text()))
            } else {
                CompileStepModel::Perform(
                    seq![
                        Call::ShaderSource { shader: h, source: s.source },
                        Call::CompileShader { shader: h },
                        Call::CompileStatus { shader: h },
                    ],
                    CompileState { phase: CompilePhase::Check { shader: h }, ..s },
                )
            }
        },
        CompilePhase::Check { shader } => {
            if a->Int_0 != 0 {
                CompileStepModel::Finish(seq![], Ok(StageModel { handle: shader, kind: s.kind }))
            } else {
                CompileStepModel::Perform(
                    seq![Call::ShaderLogLength { shader }],
                    CompileState { phase: CompilePhase::Size { shader }, ..s },
                )
            }
        },
        CompilePhase::Size { shader } => {
            let cap = log_capacity(a->Int_0);
            CompileStepModel::Perform(
                seq![Call::ShaderLog { shader, log: filler(cap) }],
                CompileState { phase: CompilePhase::Read { shader, capacity: cap as usize }, ..s },
            )
        },
        CompilePhase::Read { shader, .. } => {
            CompileStepModel::Finish(seq![Call::DeleteShader { shader }], Err(lossy_text(a->Log_0)))
        },
    }
}

impl Shader {
    #[verifier::type_invariant]
    spec fn has_object(&self) -> bool {
        self.id != 0
    }

    pub open(crate) spec fn handle(&self) -> u32 {
        self.id
    }

    pub open(crate) spec fn stage_kind(&self) -> StageKind {
        self.kind
    }

    pub open(crate) spec fn model(&self) -> StageModel {
        StageModel { handle: self.id, kind: self.kind }
    }

    /// The native handle, never zero.
    pub fn id(&self) -> (r: u32)
        ensures
            r == self.handle(),
            r != 0,
    {
        proof {
            use_type_invariant(self);
        }
        self.id
    }

    pub fn kind(&self) -> (r: StageKind)
        ensures
            r == self.stage_kind(),
    {
        self.kind
    }

    /// Ends the stage's lifetime: the call that deletes its native object.
    pub fn release(self) -> (r: NativeCall)
        ensures
            r@ == (Call::DeleteShader { shader: self.handle() }),
    {
        NativeCall::DeleteShader { shader: self.id }
    }

    /// Starts compiling `source` as a stage of the given kind: the job, and the
    /// call that creates the shader object.
    pub fn from_source(source: &str, kind: StageKind) -> (r: (CompileJob, Vec<NativeCall>))
        ensures
            r.0.model() == (CompileState { kind, source: source@, phase: CompilePhase::Create }),
            calls_model(r.1@) == seq![Call::CreateShader { kind }],
    {
        let job = CompileJob { kind, source: source.to_owned(), phase: CompilePhase::Create };
        let calls = vec![NativeCall::CreateShader { kind }];
        assert(calls_model(calls@) =~= seq![Call::CreateShader { kind }]);
        (job, calls)
    }

    pub fn from_vert_source(source: &str) -> (r: (CompileJob, Vec<NativeCall>))
        ensures
            r.0.model() == (CompileState { kind: StageKind::Vertex, source: source@, phase: CompilePhase::Create }),
            calls_model(r.1@) == seq![Call::CreateShader { kind: StageKind::Vertex }],
    {
        Shader::from_source(source, StageKind::Vertex)
    }

    pub fn from_frag_source(source: &str) -> (r: (CompileJob, Vec<NativeCall>))
        ensures
            r.0.model() == (CompileState { kind: StageKind::Fragment, source: source@, phase: CompilePhase::Create }),
            calls_model(r.1@) == seq![Call::CreateShader { kind: StageKind::Fragment }],
    {
        Shader::from_source(source, StageKind::Fragment)
    }

    pub fn from_compute_source(source: &str) -> (r: (CompileJob, Vec<NativeCall>))
        ensures
            r.0.model() == (CompileState { kind: StageKind::Compute, source: source@, phase: CompilePhase::Create }),
            calls_model(r.1@) == seq![Call::CreateShader { kind: StageKind::Compute }],
    {
        Shader::from_source(source, StageKind::Compute)
    }

    pub fn from_tess_control_source(source: &str) -> (r: (CompileJob, Vec<NativeCall>))
        ensures
            r.0.model() == (CompileState {
                kind: StageKind::TessControl,
                source: source@,
                phase: CompilePhase::Create,
            }),
            calls_model(r.1@) == seq![Call::CreateShader { kind: StageKind::TessControl }],
    {
        Shader::from_source(source, StageKind::TessControl)
    }

    pub fn from_tess_evaluation_source(source: &str) -> (r: (CompileJob, Vec<NativeCall>))
        ensures
            r.0.model() == (CompileState {
                kind: StageKind::TessEvaluation,
                source: source@,
                phase: CompilePhase::Create,
            }),
            calls_model(r.1@) == seq![Call::CreateShader { kind: StageKind::TessEvaluation }],
    {
        Shader::from_source(source, StageKind::TessEvaluation)
    }

    pub fn from_geometry_source(source: &str) -> (r: (CompileJob, Vec<NativeCall>))
        ensures
            r.0.model() == (CompileState { kind: StageKind::Geometry, source: source@, phase: CompilePhase::Create }),
            calls_model(r.1@) == seq![Call::CreateShader { kind: StageKind::Geometry }],
    {
        Shader::from_source(source, StageKind::Geometry)
    }
}

impl CompileJob {
    #[verifier::type_invariant]
    spec fn object_exists(&self) -> bool {
        !(self.phase is Create) ==> self.phase.object() != 0
    }

    pub open(crate) spec fn model(&self) -> CompileState {
        CompileState { kind: self.kind, source: self.source@, phase: self.phase }
    }

    /// Whether `reply` has the shape of the answer this job waits for.
    pub fn accepts(&self, reply: &Reply) -> (r: bool)
        ensures
            r == compile_accepts(self.model(), reply@),
    {
        match self.phase {
            CompilePhase::Create => matches!(reply, Reply::Handle(_)),
            CompilePhase::Check { .. } => matches!(reply, Reply::Int(_)),
            CompilePhase::Size { .. } => matches!(reply, Reply::Int(_)),
            CompilePhase::Read { capacity, .. } => match reply {
                Reply::Log(bytes) => bytes.len() == capacity,
                _ => false,
            },
        }
    }

    /// Hands the job the driver's answer to the last call it asked for.
    pub fn advance(self, reply: Reply) -> (r: CompileStep)
        requires
            compile_accepts(self.model(), reply@),
        ensures
            r.model() == compile_next(self.model(), reply@),
            self.model().phase is Read ==> (r matches CompileStep::Finish(_, Err(e)) && (e.message@.len() == 0
                <==> self.model().phase->capacity == 0)),
    {
        proof {
            use_type_invariant(&self);
        }
        let kind = self.kind;
        let phase = self.phase;
        let source = self.source;
        match phase {
            CompilePhase::Create => {
                let h = match reply {
                    Reply::Handle(h) => h,
                    _ => 0,
                };
                if h == 0 {
                    let err = CompileError { message: "the driver created no shader object".to_owned() };
                    let calls: Vec<NativeCall> = Vec::new();
                    assert(calls_model(calls@) =~= seq![]);
                    CompileStep::Finish(calls, Err(err))
                } else {
                    let calls = vec![
                        NativeCall::ShaderSource { shader: h, source: source.clone() },
                        NativeCall::CompileShader { shader: h },
                        NativeCall::CompileStatus { shader: h },
                    ];
                    assert(calls_model(calls@) =~= seq![
                        Call::ShaderSource { shader: h, source: source@ },
                        Call::CompileShader { shader: h },
                        Call::CompileStatus { shader: h },
                    ]);
                    CompileStep::Perform(calls, CompileJob { kind, source, phase: CompilePhase::Check { shader: h } })
                }
            },
            CompilePhase::Check { shader } => {
                let status = match reply {
                    Reply::Int(v) => v,
                    _ => 0,
                };
                let calls: Vec<NativeCall>;
                if status != 0 {
                    calls = Vec::new();
                    assert(calls_model(calls@) =~= seq![]);
                    CompileStep::Finish(calls, Ok(Shader { id: shader, kind }))
                } else {
                    calls = vec![NativeCall::ShaderLogLength { shader }];
                    assert(calls_model(calls@) =~= seq![Call::ShaderLogLength { shader }]);
                    CompileStep::Perform(calls, CompileJob { kind, source, phase: CompilePhase::Size { shader } })
                }
            },
            CompilePhase::Size { shader } => {
                let reported = match reply {
                    Reply::Int(v) => v,
                    _ => 0,
                };
                let buffer = log_buffer(reported);
                let capacity = buffer.len();
                let ghost b = buffer@;
                let calls = vec![NativeCall::ShaderLog { shader, log: buffer }];
                assert(calls_model(calls@) =~= seq![Call::ShaderLog { shader, log: b }]);
                CompileStep::Perform(calls, CompileJob { kind, source, phase: CompilePhase::Read { shader, capacity } })
            },
            CompilePhase::Read { shader, .. } => {
                let message = match reply {
                    Reply::Log(bytes) => diagnostic_text(&bytes),
                    _ => String::new(),
                };
                let calls = vec![NativeCall::DeleteShader { shader }];
                assert(calls_model(calls@) =~= seq![Call::DeleteShader { shader }]);
                CompileStep::Finish(calls, Err(CompileError { message }))
            },
        }
    }
}

/// No call of `calls` deletes a shader object.
pub open spec fn deletes_no_shader(calls: Seq<Call>) -> bool {
    forall|i: int| 0 <= i < calls.len() ==> !(#[trigger] calls[i] is DeleteShader)
}

/// A compilation that the driver accepts takes three batches of calls and yields a
/// stage that owns the created object, whose handle is not zero. No call of the
/// compilation deletes a shader object: releasing the stage is left to its owner.
pub proof fn lemma_compile_success(kind: StageKind, source: Seq<char>, h: u32, status: i32)
    requires
        h != 0,
        status != 0,
    ensures
        ({
            let s0 = CompileState { kind, source, phase: CompilePhase::Create };
            &&& compile_next(s0, Answer::Handle(h)) matches CompileStepModel::Perform(calls1, s1)
            &&& calls1 == seq![
                Call::ShaderSource { shader: h, source },
                Call::CompileShader { shader: h },
                Call::CompileStatus { shader: h },
            ]
            &&& compile_next(s1, Answer::Int(status)) matches CompileStepModel::Finish(calls2, result)
            &&& result == Ok::<StageModel, Seq<char>>(StageModel { handle: h, kind })
            &&& result->Ok_0.handle != 0
            &&& deletes_no_shader(calls1 + calls2)
        }),
{
    let s0 = CompileState { kind, source, phase: CompilePhase::Create };
    let s1 = CompileState { kind, source, phase: CompilePhase::Check { shader: h } };
    let calls1 = seq![
        Call::ShaderSource { shader: h, source },
        Call::CompileShader { shader: h },
        Call::CompileStatus { shader: h },
    ];
    assert(compile_next(s0, Answer::Handle(h)) == CompileStepModel::Perform(calls1, s1));
    assert(compile_next(s1, Answer::Int(status)) == CompileStepModel::Finish(
        seq![],
        Ok::<StageModel, Seq<char>>(StageModel { handle: h, kind }),
    ));
    assert(calls1 + seq![] =~= calls1);
}

/// A compilation that the driver rejects asks for the log length, hands the driver
/// a buffer of exactly that many filler bytes (none for a length that is not
/// positive), and fails with the decoded contents of the filled buffer. Its last
/// batch is the one call that deletes the transient object; no earlier call
/// deletes a shader object. (`CompileJob::advance` adds that the message is empty
/// exactly when the buffer is.)
pub proof fn lemma_compile_failure(kind: StageKind, source: Seq<char>, h: u32, reported: i32, log: Seq<u8>)
    requires
        h != 0,
        log.len() == log_capacity(reported),
    ensures
        ({
            let s0 = CompileState { kind, source, phase: CompilePhase::Create };
            &&& compile_next(s0, Answer::Handle(h)) matches CompileStepModel::Perform(calls1, s1)
            &&& compile_next(s1, Answer::Int(0)) matches CompileStepModel::Perform(calls2, s2)
            &&& calls2 == seq![Call::ShaderLogLength { shader: h }]
            &&& compile_next(s2, Answer::Int(reported)) matches CompileStepModel::Perform(calls3, s3)
            &&& calls3 == seq![Call::ShaderLog { shader: h, log: filler(log_capacity(reported)) }]
            &&& s3.phase == (CompilePhase::Read { shader: h, capacity: log_capacity(reported) as usize })
            &&& compile_accepts(s3, Answer::Log(log))
            &&& compile_next(s3, Answer::Log(log)) matches CompileStepModel::Finish(calls4, result)
            &&& result == Err::<StageModel, Seq<char>>(lossy_text(log))
            &&& calls4 == seq![Call::DeleteShader { shader: h }]
            &&& deletes_no_shader(calls1 + calls2 + calls3)
        }),
{
    let s0 = CompileState { kind, source, phase: CompilePhase::Create };
    let s1 = CompileState { kind, source, phase: CompilePhase::Check { shader: h } };
    let s2 = CompileState { kind, source, phase: CompilePhase::Size { shader: h } };
    let cap = log_capacity(reported);
    let s3 = CompileState { kind, source, phase: CompilePhase::Read { shader: h, capacity: cap as usize } };
    let calls1 = seq![
        Call::ShaderSource { shader: h, source },
        Call::CompileShader { shader: h },
        Call::CompileStatus { shader: h },
    ];
    let calls2 = seq![Call::ShaderLogLength { shader: h }];
    let calls3 = seq![Call::ShaderLog { shader: h, log: filler(cap) }];
    assert(compile_next(s0, Answer::Handle(h)) == CompileStepModel::Perform(calls1, s1));
    assert(compile_next(s1, Answer::Int(0)) == CompileStepModel::Perform(calls2, s2));
    assert(compile_next(s2, Answer::Int(reported)) == CompileStepModel::Perform(calls3, s3));
    assert(cap <= i32::MAX);
    let all = calls1 + calls2 + calls3;
    assert(all =~= seq![
        Call::ShaderSource { shader: h, source },
        Call::CompileShader { shader: h },
        Call::CompileStatus { shader: h },
        Call::ShaderLogLength { shader: h },
        Call::ShaderLog { shader: h, log: filler(cap) },
    ]);
}

impl CompileStep {
    pub open(crate) spec fn model(&self) -> CompileStepModel {
        match self {
            CompileStep::Perform(calls, job) => CompileStepModel::Perform(calls_model(calls@), job.model()),
            CompileStep::Finish(calls, result) => CompileStepModel::Finish(
                calls_model(calls@),
                match result {
                    Ok(stage) => Ok(stage.model()),
                    Err(e) => Err(e.message@),
                },
            ),
        }
    }
}

} // verus!

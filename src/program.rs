//! Pipelines: linking compiled shader stages into one native program object.
use vstd::prelude::*;
use crate::native::{NativeCall, Reply, Call, Answer, calls_model, lemma_calls_model_push};
use crate::diagnostic::{log_buffer, diagnostic_text, lossy_text, filler, log_capacity};
use crate::shader::Shader;

verus! {

/// An owned, successfully linked program object.
///
/// Not `Clone`: `release` consumes it, so its delete call is issued at most once.
pub struct Program {
    pub(crate) id: u32,
}

/// Linking failed; `message` is the driver's diagnostic log.
#[derive(Debug)]
pub struct LinkError {
    pub message: String,
}

/// Where a link stands: which answer the job waits for.
#[derive(Clone, Copy, Debug, PartialEq, Eq, Structural)]
pub enum LinkPhase {
    /// Waits for the handle of the new program object.
    Create,
    /// Waits for the link status flag.
    Check { program: u32 },
    /// Waits for the length of the diagnostic log.
    Size { program: u32 },
    /// Waits for the log buffer, of `capacity` bytes, filled by the driver.
    Read { program: u32, capacity: usize },
}

impl LinkPhase {
    /// The program object the phase works on, once one exists.
    pub open spec fn object(self) -> u32 {
        match self {
            LinkPhase::Create => 0,
            LinkPhase::Check { program } => program,
            LinkPhase::Size { program } => program,
            LinkPhase::Read { program, .. } => program,
        }
    }
}

/// A link in progress. It keeps the handles of the stages, in the given order;
/// the stages themselves stay with their owner.
pub struct LinkJob {
    pub(crate) stages: Vec<u32>,
    pub(crate) phase: LinkPhase,
}

/// The model of a link in progress.
pub ghost struct LinkState {
    pub stages: Seq<u32>,
    pub phase: LinkPhase,
}

/// What one step of a link hands back.
pub enum LinkStep {
    /// Perform these calls in order, then hand the answer to the last one to `job`.
    Perform(Vec<NativeCall>, LinkJob),
    /// Perform these calls in order; the link is over with this result.
    Finish(Vec<NativeCall>, Result<Program, LinkError>),
}

/// The model of a link step; a linked program is modelled by its handle.
pub ghost enum LinkStepModel {
    Perform(Seq<Call>, LinkState),
    Finish(Seq<Call>, Result<u32, Seq<char>>),
}

/// The diagnostic reported when the driver hands back no program object.
pub open spec fn no_program_text() -> Seq<char> {
    "the driver created no program object"@
}

/// Attach each stage to `program`, in order.
pub open spec fn attach_calls(program: u32, stages: Seq<u32>) -> Seq<Call> {
    Seq::new(stages.len(), |i: int| Call::AttachShader { program, shader: stages[i] })
}

/// Detach each stage from `program`, in order.
pub open spec fn detach_calls(program: u32, stages: Seq<u32>) -> Seq<Call> {
    Seq::new(stages.len(), |i: int| Call::DetachShader { program, shader: stages[i] })
}

/// The answer that a link in state `s` waits for has the shape of `a`.
pub open spec fn link_accepts(s: LinkState, a: Answer) -> bool {
    match s.phase {
        LinkPhase::Create => a is Handle,
        LinkPhase::Check { .. } => a is Int,
        LinkPhase::Size { .. } => a is Int,
        LinkPhase::Read { capacity, .. } => a is Log && a->Log_0.len() == capacity,
    }
}

/// The link protocol, one step at a time.
///
/// A zero handle fails at once. Otherwise every stage is attached in order, the
/// program linked and its status queried. A non-zero status detaches every stage
/// again and yields the program. A zero status asks for the log length, hands the
/// driver a buffer of that many filler bytes, decodes what it wrote into the
/// error, and releases the transient program object.
pub open spec fn link_next(s: LinkState, a: Answer) -> LinkStepModel {
    match s.phase {
        LinkPhase::Create => {
            let p = a->Handle_0;
            if p == 0 {
                LinkStepModel::Finish(seq![], Err(no_program_text()))
            } else {
                LinkStepModel::Perform(
                    attach_calls(p, s.stages) + seq![Call::LinkProgram { program: p }, Call::LinkStatus { program: p }],
                    LinkState { phase: LinkPhase::Check { program: p }, ..s },
                )
            }
        },
        LinkPhase::Check { program } => {
            if a->Int_0 != 0 {
                LinkStepModel::Finish(detach_calls(program, s.stages), Ok(program))
            } else {
                LinkStepModel::Perform(
                    seq![Call::ProgramLogLength { program }],
                    LinkState { phase: LinkPhase::Size { program }, ..s },
                )
            }
        },
        LinkPhase::Size { program } => {
            let cap = log_capacity(a->Int_0);
            LinkStepModel::Perform(
                seq![Call::ProgramLog { program, log: filler(cap) }],
                LinkState { phase: LinkPhase::Read { program, capacity: cap as usize }, ..s },
            )
        },
        LinkPhase::Read { program, .. } => {
            LinkStepModel::Finish(seq![Call::DeleteProgram { program }], Err(lossy_text(a->Log_0)))
        },
    }
}

/// The handles of a sequence of stages.
pub open spec fn stage_handles(shaders: Seq<Shader>) -> Seq<u32> {
    shaders.map_values(|s: Shader| s.handle())
}

impl Program {
    #[verifier::type_invariant]
    spec fn has_object(&self) -> bool {
        self.id != 0
    }

    pub open(crate) spec fn handle(&self) -> u32 {
        self.id
    }

    /// The native handle, never zero.
    pub fn id(&self) -> (r: u32)
        ensures
            r == self.handle(),
            r != 0,
    {
        proof {
            use_type_invariant(self);
        }
        self.id
    }

    /// The call that makes this program the one used by subsequent draw calls.
    pub fn set_used(&self) -> (r: NativeCall)
        ensures
            r@ == (Call::UseProgram { program: self.handle() }),
    {
        NativeCall::UseProgram { program: self.id }
    }

    /// Ends the program's lifetime: the call that deletes its native object.
    pub fn release(self) -> (r: NativeCall)
        ensures
            r@ == (Call::DeleteProgram { program: self.handle() }),
    {
        NativeCall::DeleteProgram { program: self.id }
    }

    /// Starts linking the given stages, which stay with the caller: the job, and
    /// the call that creates the program object.
    pub fn from_shaders(shaders: &[Shader]) -> (r: (LinkJob, Vec<NativeCall>))
        requires
            shaders@.len() > 0,
        ensures
            r.0.model() == (LinkState { stages: stage_handles(shaders@), phase: LinkPhase::Create }),
            calls_model(r.1@) == seq![Call::CreateProgram],
    {
        let mut stages: Vec<u32> = Vec::new();
        let mut i: usize = 0;
        while i < shaders.len()
            invariant
                i <= shaders@.len(),
                stages@ == stage_handles(shaders@).take(i as int),
            decreases shaders@.len() - i,
        {
            stages.push(shaders[i].id());
            i = i + 1;
            assert(stages@ =~= stage_handles(shaders@).take(i as int));
        }
        assert(stages@ =~= stage_handles(shaders@));
        let calls = vec![NativeCall::CreateProgram];
        assert(calls_model(calls@) =~= seq![Call::CreateProgram]);
        (LinkJob { stages, phase: LinkPhase::Create }, calls)
    }
}

impl LinkJob {
    #[verifier::type_invariant]
    spec fn object_exists(&self) -> bool {
        !(self.phase is Create) ==> self.phase.object() != 0
    }

    pub open(crate) spec fn model(&self) -> LinkState {
        LinkState { stages: self.stages@, phase: self.phase }
    }

    /// Whether `reply` has the shape of the answer this job waits for.
    pub fn accepts(&self, reply: &Reply) -> (r: bool)
        ensures
            r == link_accepts(self.model(), reply@),
    {
        match self.phase {
            LinkPhase::Create => matches!(reply, Reply::Handle(_)),
            LinkPhase::Check { .. } => matches!(reply, Reply::Int(_)),
            LinkPhase::Size { .. } => matches!(reply, Reply::Int(_)),
            LinkPhase::Read { capacity, .. } => match reply {
                Reply::Log(bytes) => bytes.len() == capacity,
                _ => false,
            },
        }
    }

    /// Hands the job the driver's answer to the last call it asked for.
    pub fn advance(self, reply: Reply) -> (r: LinkStep)
        requires
            link_accepts(self.model(), reply@),
        ensures
            r.model() == link_next(self.model(), reply@),
            self.model().phase is Read ==> (r matches LinkStep::Finish(_, Err(e)) && (e.message@.len() == 0
                <==> self.model().phase->capacity == 0)),
    {
        proof {
            use_type_invariant(&self);
        }
        let stages = self.stages;
        let phase = self.phase;
        match phase {
            LinkPhase::Create => {
                let p = match reply {
                    Reply::Handle(h) => h,
                    _ => 0,
                };
                if p == 0 {
                    let err = LinkError { message: "the driver created no program object".to_owned() };
                    let calls: Vec<NativeCall> = Vec::new();
                    assert(calls_model(calls@) =~= seq![]);
                    LinkStep::Finish(calls, Err(err))
                } else {
                    let mut calls: Vec<NativeCall> = Vec::new();
                    let mut i: usize = 0;
                    while i < stages.len()
                        invariant
                            i <= stages@.len(),
                            calls_model(calls@) == attach_calls(p, stages@).take(i as int),
                        decreases stages@.len() - i,
                    {
                        let c = NativeCall::AttachShader { program: p, shader: stages[i] };
                        proof {
                            lemma_calls_model_push(calls@, c);
                        }
                        calls.push(c);
                        i = i + 1;
                        assert(calls_model(calls@) =~= attach_calls(p, stages@).take(i as int));
                    }
                    assert(attach_calls(p, stages@).take(i as int) =~= attach_calls(p, stages@));
                    let c = NativeCall::LinkProgram { program: p };
                    proof {
                        lemma_calls_model_push(calls@, c);
                    }
                    calls.push(c);
                    let c = NativeCall::LinkStatus { program: p };
                    proof {
                        lemma_calls_model_push(calls@, c);
                    }
                    calls.push(c);
                    assert(calls_model(calls@) =~= attach_calls(p, stages@) + seq![
                        Call::LinkProgram { program: p },
                        Call::LinkStatus { program: p },
                    ]);
                    LinkStep::Perform(calls, LinkJob { stages, phase: LinkPhase::Check { program: p } })
                }
            },
            LinkPhase::Check { program } => {
                let status = match reply {
                    Reply::Int(v) => v,
                    _ => 0,
                };
                if status != 0 {
                    let mut calls: Vec<NativeCall> = Vec::new();
                    let mut i: usize = 0;
                    while i < stages.len()
                        invariant
                            i <= stages@.len(),
                            calls_model(calls@) == detach_calls(program, stages@).take(i as int),
                        decreases stages@.len() - i,
                    {
                        let c = NativeCall::DetachShader { program, shader: stages[i] };
                        proof {
                            lemma_calls_model_push(calls@, c);
                        }
                        calls.push(c);
                        i = i + 1;
                        assert(calls_model(calls@) =~= detach_calls(program, stages@).take(i as int));
                    }
                    assert(calls_model(calls@) =~= detach_calls(program, stages@));
                    LinkStep::Finish(calls, Ok(Program { id: program }))
                } else {
                    let calls = vec![NativeCall::ProgramLogLength { program }];
                    assert(calls_model(calls@) =~= seq![Call::ProgramLogLength { program }]);
                    LinkStep::Perform(calls, LinkJob { stages, phase: LinkPhase::Size { program } })
                }
            },
            LinkPhase::Size { program } => {
                let reported = match reply {
                    Reply::Int(v) => v,
                    _ => 0,
                };
                let buffer = log_buffer(reported);
                let capacity = buffer.len();
                let ghost b = buffer@;
                let calls = vec![NativeCall::ProgramLog { program, log: buffer }];
                assert(calls_model(calls@) =~= seq![Call::ProgramLog { program, log: b }]);
                LinkStep::Perform(calls, LinkJob { stages, phase: LinkPhase::Read { program, capacity } })
            },
            LinkPhase::Read { program, .. } => {
                let message = match reply {
                    Reply::Log(bytes) => diagnostic_text(&bytes),
                    _ => String::new(),
                };
                let calls = vec![NativeCall::DeleteProgram { program }];
                assert(calls_model(calls@) =~= seq![Call::DeleteProgram { program }]);
                LinkStep::Finish(calls, Err(LinkError { message }))
            },
        }
    }
}

/// No call of `calls` changes a shader stage: none hands over source, compiles or
/// deletes a shader object.
pub open spec fn leaves_stages_alone(calls: Seq<Call>) -> bool {
    forall|i: int|
        0 <= i < calls.len() ==> {
            &&& !(#[trigger] calls[i] is ShaderSource)
            &&& !(calls[i] is CompileShader)
            &&& !(calls[i] is DeleteShader)
        }
}

/// The second step of a link of `stages` whose program object is `p` and whose
/// link status is `status`.
pub open spec fn link_verdict(stages: Seq<u32>, p: u32, status: i32) -> LinkStepModel {
    link_next(LinkState { stages, phase: LinkPhase::Check { program: p } }, Answer::Int(status))
}

/// Linking attaches every stage in order, links and queries the status. A non-zero
/// status yields the program, after detaching every stage in order; a zero status
/// goes on to read the diagnostic log. No call of either step changes a stage.
pub proof fn lemma_link_outcome(stages: Seq<u32>, p: u32, status: i32)
    requires
        stages.len() > 0,
        p != 0,
    ensures
        link_next(LinkState { stages, phase: LinkPhase::Create }, Answer::Handle(p)) == LinkStepModel::Perform(
            attach_calls(p, stages) + seq![Call::LinkProgram { program: p }, Call::LinkStatus { program: p }],
            LinkState { stages, phase: LinkPhase::Check { program: p } },
        ),
        leaves_stages_alone(
            attach_calls(p, stages) + seq![Call::LinkProgram { program: p }, Call::LinkStatus { program: p }],
        ),
        status != 0 ==> link_verdict(stages, p, status) == LinkStepModel::Finish(
            detach_calls(p, stages),
            Ok::<u32, Seq<char>>(p),
        ),
        status == 0 ==> link_verdict(stages, p, status) == LinkStepModel::Perform(
            seq![Call::ProgramLogLength { program: p }],
            LinkState { stages, phase: LinkPhase::Size { program: p } },
        ),
        link_verdict(stages, p, status) matches LinkStepModel::Finish(calls, _) ==> leaves_stages_alone(calls),
        link_verdict(stages, p, status) matches LinkStepModel::Perform(calls, _) ==> leaves_stages_alone(calls),
{
    let first = attach_calls(p, stages) + seq![Call::LinkProgram { program: p }, Call::LinkStatus { program: p }];
    assert forall|i: int| 0 <= i < first.len() implies {
        &&& !(#[trigger] first[i] is ShaderSource)
        &&& !(first[i] is CompileShader)
        &&& !(first[i] is DeleteShader)
    } by {
        if i < stages.len() {
            assert(first[i] == attach_calls(p, stages)[i]);
        }
    }
    let second = seq![Call::ProgramLogLength { program: p }];
    assert(leaves_stages_alone(second));
    assert(leaves_stages_alone(detach_calls(p, stages)));
}

/// A failed link hands the driver a buffer of exactly the reported log length
/// (none for a length that is not positive) and fails with the decoded contents of
/// the filled buffer; its last call deletes the transient program object.
pub proof fn lemma_link_failure(stages: Seq<u32>, p: u32, reported: i32, log: Seq<u8>)
    requires
        p != 0,
        log.len() == log_capacity(reported),
    ensures
        ({
            let s2 = LinkState { stages, phase: LinkPhase::Size { program: p } };
            &&& link_next(s2, Answer::Int(reported)) matches LinkStepModel::Perform(calls3, s3)
            &&& calls3 == seq![Call::ProgramLog { program: p, log: filler(log_capacity(reported)) }]
            &&& link_accepts(s3, Answer::Log(log))
            &&& link_next(s3, Answer::Log(log)) == LinkStepModel::Finish(
                seq![Call::DeleteProgram { program: p }],
                Err::<u32, Seq<char>>(lossy_text(log)),
            )
            &&& leaves_stages_alone(calls3)
            &&& leaves_stages_alone(seq![Call::DeleteProgram { program: p }])
        }),
{
    assert(log_capacity(reported) <= i32::MAX);
    assert(leaves_stages_alone(seq![Call::ProgramLog { program: p, log: filler(log_capacity(reported)) }]));
    assert(leaves_stages_alone(seq![Call::DeleteProgram { program: p }]));
}

/// The same stages linked into two program objects under the same link status
/// have the same outcome: linking changes nothing that a later link reads.
pub proof fn lemma_relink_same_outcome(stages: Seq<u32>, first: u32, second: u32, status: i32)
    requires
        stages.len() > 0,
        first != 0,
        second != 0,
    ensures
        (link_verdict(stages, first, status) is Finish) == (link_verdict(stages, second, status) is Finish),
        link_verdict(stages, first, status) matches LinkStepModel::Finish(_, r) ==> r == Ok::<u32, Seq<char>>(first),
        link_verdict(stages, second, status) matches LinkStepModel::Finish(_, r) ==> r == Ok::<u32, Seq<char>>(second),
{
    lemma_link_outcome(stages, first, status);
    lemma_link_outcome(stages, second, status);
}

impl LinkStep {
    pub open(crate) spec fn model(&self) -> LinkStepModel {
        match self {
            LinkStep::Perform(calls, job) => LinkStepModel::Perform(calls_model(calls@), job.model()),
            LinkStep::Finish(calls, result) => LinkStepModel::Finish(
                calls_model(calls@),
                match result {
                    Ok(program) => Ok(program.handle()),
                    Err(e) => Err(e.message@),
                },
            ),
        }
    }
}

} // verus!

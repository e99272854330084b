//! The native graphics calls this library issues, and the answers it expects back.
use vstd::prelude::*;

verus! {

/// The category of a shader stage, which selects the compilation target.
#[derive(Clone, Copy, Debug, PartialEq, Eq, Structural)]
pub enum StageKind {
    Vertex,
    Fragment,
    Geometry,
    Compute,
    TessControl,
    TessEvaluation,
}

/// One synchronous call into the native graphics driver.
///
/// Handles are the driver's opaque object names; `0` stands for "no object" in
/// the bind calls. Vertex data travels as the IEEE-754 bit patterns of its
/// 32-bit floats, so `UploadStatic` uploads exactly `4 * words.len()` bytes.
#[derive(Debug, PartialEq, Eq)]
pub enum NativeCall {
    /// Create a shader object; answered with `Reply::Handle`.
    CreateShader { kind: StageKind },
    /// Hand the source text to the shader object.
    ShaderSource { shader: u32, source: String },
    /// Compile the shader object.
    CompileShader { shader: u32 },
    /// Query the compile status flag; answered with `Reply::Int`.
    CompileStatus { shader: u32 },
    /// Query the length of the shader's diagnostic log; answered with `Reply::Int`.
    ShaderLogLength { shader: u32 },
    /// Write the shader's diagnostic log into `log`, whose length is the
    /// capacity handed to the driver; answered with `Reply::Log`.
    ShaderLog { shader: u32, log: Vec<u8> },
    /// Release a shader object.
    DeleteShader { shader: u32 },
    /// Create a program object; answered with `Reply::Handle`.
    CreateProgram,
    AttachShader { program: u32, shader: u32 },
    LinkProgram { program: u32 },
    /// Query the link status flag; answered with `Reply::Int`.
    LinkStatus { program: u32 },
    /// Query the length of the program's diagnostic log; answered with `Reply::Int`.
    ProgramLogLength { program: u32 },
    /// Write the program's diagnostic log into `log`; answered with `Reply::Log`.
    ProgramLog { program: u32, log: Vec<u8> },
    DetachShader { program: u32, shader: u32 },
    /// Release a program object.
    DeleteProgram { program: u32 },
    /// Make the program the one used by subsequent draw calls.
    UseProgram { program: u32 },
    /// Select the current vertex-array descriptor (`0`: none).
    BindVertexArray { array: u32 },
    /// Select the current array-data buffer (`0`: none).
    BindArrayBuffer { buffer: u32 },
    /// Upload the byte image of `words` into the current array buffer, with a
    /// "will not change after upload" usage hint.
    UploadStatic { words: Vec<u32> },
    /// Enable an input slot of the current vertex-array descriptor.
    EnableSlot { slot: u32 },
    /// Describe an input slot: `components` 32-bit floats, not normalized, the
    /// first at `offset` bytes and consecutive ones `stride` bytes apart.
    DescribeSlot { slot: u32, components: u32, stride: u32, offset: u32 },
    /// Release a buffer object.
    DeleteBuffer { buffer: u32 },
    /// Release a vertex-array descriptor.
    DeleteVertexArray { array: u32 },
    /// Clear the color buffer to the configured background color.
    ClearColor,
    /// Draw `count` vertices, from the first, as independent triangles.
    DrawTriangles { count: u32 },
    /// Present the frame that was just drawn.
    Present,
}

/// What the driver answered to the last call of a batch.
#[derive(Debug, PartialEq, Eq)]
pub enum Reply {
    /// The last call returns nothing.
    Nothing,
    /// An object handle returned by a create call.
    Handle(u32),
    /// An integer written to an out-parameter by a query.
    Int(i32),
    /// The log buffer after the driver wrote into it.
    Log(Vec<u8>),
}

/// The mathematical model of a native call: the same call, with text, bytes and
/// words as sequences.
pub ghost enum Call {
    CreateShader { kind: StageKind },
    ShaderSource { shader: u32, source: Seq<char> },
    CompileShader { shader: u32 },
    CompileStatus { shader: u32 },
    ShaderLogLength { shader: u32 },
    ShaderLog { shader: u32, log: Seq<u8> },
    DeleteShader { shader: u32 },
    CreateProgram,
    AttachShader { program: u32, shader: u32 },
    LinkProgram { program: u32 },
    LinkStatus { program: u32 },
    ProgramLogLength { program: u32 },
    ProgramLog { program: u32, log: Seq<u8> },
    DetachShader { program: u32, shader: u32 },
    DeleteProgram { program: u32 },
    UseProgram { program: u32 },
    BindVertexArray { array: u32 },
    BindArrayBuffer { buffer: u32 },
    UploadStatic { words: Seq<u32> },
    EnableSlot { slot: u32 },
    DescribeSlot { slot: u32, components: u32, stride: u32, offset: u32 },
    DeleteBuffer { buffer: u32 },
    DeleteVertexArray { array: u32 },
    ClearColor,
    DrawTriangles { count: u32 },
    Present,
}

impl View for NativeCall {
    type V = Call;

    open spec fn view(&self) -> Call {
        match self {
            NativeCall::CreateShader { kind } => Call::CreateShader { kind: *kind },
            NativeCall::ShaderSource { shader, source } => Call::ShaderSource { shader: *shader, source: source@ },
            NativeCall::CompileShader { shader } => Call::CompileShader { shader: *shader },
            NativeCall::CompileStatus { shader } => Call::CompileStatus { shader: *shader },
            NativeCall::ShaderLogLength { shader } => Call::ShaderLogLength { shader: *shader },
            NativeCall::ShaderLog { shader, log } => Call::ShaderLog { shader: *shader, log: log@ },
            NativeCall::DeleteShader { shader } => Call::DeleteShader { shader: *shader },
            NativeCall::CreateProgram => Call::CreateProgram,
            NativeCall::AttachShader { program, shader } => Call::AttachShader { program: *program, shader: *shader },
            NativeCall::LinkProgram { program } => Call::LinkProgram { program: *program },
            NativeCall::LinkStatus { program } => Call::LinkStatus { program: *program },
            NativeCall::ProgramLogLength { program } => Call::ProgramLogLength { program: *program },
            NativeCall::ProgramLog { program, log } => Call::ProgramLog { program: *program, log: log@ },
            NativeCall::DetachShader { program, shader } => Call::DetachShader { program: *program, shader: *shader },
            NativeCall::DeleteProgram { program } => Call::DeleteProgram { program: *program },
            NativeCall::UseProgram { program } => Call::UseProgram { program: *program },
            NativeCall::BindVertexArray { array } => Call::BindVertexArray { array: *array },
            NativeCall::BindArrayBuffer { buffer } => Call::BindArrayBuffer { buffer: *buffer },
            NativeCall::UploadStatic { words } => Call::UploadStatic { words: words@ },
            NativeCall::EnableSlot { slot } => Call::EnableSlot { slot: *slot },
            NativeCall::DescribeSlot { slot, components, stride, offset } => Call::DescribeSlot {
                slot: *slot,
                components: *components,
                stride: *stride,
                offset: *offset,
            },
            NativeCall::DeleteBuffer { buffer } => Call::DeleteBuffer { buffer: *buffer },
            NativeCall::DeleteVertexArray { array } => Call::DeleteVertexArray { array: *array },
            NativeCall::ClearColor => Call::ClearColor,
            NativeCall::DrawTriangles { count } => Call::DrawTriangles { count: *count },
            NativeCall::Present => Call::Present,
        }
    }
}

/// The model of a sequence of native calls.
pub open spec fn calls_model(calls: Seq<NativeCall>) -> Seq<Call> {
    calls.map_values(|c: NativeCall| c@)
}

/// Appending a call appends its model.
pub proof fn lemma_calls_model_push(calls: Seq<NativeCall>, c: NativeCall)
    ensures
        calls_model(calls.push(c)) == calls_model(calls).push(c@),
{
    assert(calls_model(calls.push(c)) =~= calls_model(calls).push(c@));
}

/// The model of a driver answer.
pub ghost enum Answer {
    Nothing,
    Handle(u32),
    Int(i32),
    Log(Seq<u8>),
}

impl View for Reply {
    type V = Answer;

    open spec fn view(&self) -> Answer {
        match self {
            Reply::Nothing => Answer::Nothing,
            Reply::Handle(h) => Answer::Handle(*h),
            Reply::Int(v) => Answer::Int(*v),
            Reply::Log(b) => Answer::Log(b@),
        }
    }
}

} // verus!

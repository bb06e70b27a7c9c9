//! The vocabulary between the rendering core and its host: the calls the core
//! asks for, the replies it takes, and what it reports when an operation ends.

use vstd::prelude::*;
use crate::value::FloatBits;

verus! {

/// One of the two stages of the shader program.
#[derive(Clone, Copy, Debug, PartialEq, Eq, Structural)]
pub enum ShaderStage {
    Vertex,
    Fragment,
}

/// A sampling parameter of the texture bound to the active unit.
#[derive(Clone, Copy, Debug, PartialEq, Eq, Structural)]
pub enum TextureParameter {
    MinFilter,
    MagFilter,
    WrapS,
    WrapT,
}

/// A setting for a [`TextureParameter`].
#[derive(Clone, Copy, Debug, PartialEq, Eq, Structural)]
pub enum TextureSetting {
    Linear,
    ClampToEdge,
}

/// Something the host should log. None of these stops the core.
#[derive(Clone, Debug, PartialEq, Eq)]
pub enum Notice {
    /// The GPU context reported an error when it was needed.
    ContextUnavailable,
    /// A stage did not compile; `log` is the driver's diagnostic text.
    CompileFailed { stage: ShaderStage, log: String },
    /// The program did not link; `log` is the driver's diagnostic text.
    LinkFailed { log: String },
    /// The texture source at `index` could not be loaded and is skipped.
    TextureLoadFailed { index: usize },
    /// The program has no sampler for texture unit `unit`.
    SamplerMissing { unit: usize },
    /// The program has no active uniform called `name`.
    UniformUnused { name: String },
    /// A uniform was set while the surface holds no render state.
    NotRendering,
}

/// Ghost image of a [`Notice`].
pub enum NoticeView {
    ContextUnavailable,
    CompileFailed { stage: ShaderStage, log: Seq<char> },
    LinkFailed { log: Seq<char> },
    TextureLoadFailed { index: usize },
    SamplerMissing { unit: usize },
    UniformUnused { name: Seq<char> },
    NotRendering,
}

impl View for Notice {
    type V = NoticeView;

    open spec fn view(&self) -> NoticeView {
        match self {
            Notice::ContextUnavailable => NoticeView::ContextUnavailable,
            Notice::CompileFailed { stage, log } => NoticeView::CompileFailed {
                stage: *stage,
                log: log@,
            },
            Notice::LinkFailed { log } => NoticeView::LinkFailed { log: log@ },
            Notice::TextureLoadFailed { index } => NoticeView::TextureLoadFailed { index: *index },
            Notice::SamplerMissing { unit } => NoticeView::SamplerMissing { unit: *unit },
            Notice::UniformUnused { name } => NoticeView::UniformUnused { name: name@ },
            Notice::NotRendering => NoticeView::NotRendering,
        }
    }
}

/// One call the host makes on behalf of the core. The calls of a batch are
/// made in order; only the last one's reply goes back to the core.
#[derive(Clone, Debug, PartialEq, Eq)]
pub enum Call {
    /// Make the surface's GPU context current.
    MakeCurrent,
    /// Ask whether the context is in error. Reply: [`Reply::Flag`].
    ContextError,
    /// Ask whether the context is of the embedded flavor. Reply: [`Reply::Flag`].
    UsesEs,
    /// Ask the surface for a redraw.
    QueueRender,
    /// Read the file at `path`. Reply: [`Reply::Bytes`].
    ReadFile { path: String },
    /// Log a notice.
    Report(Notice),
    /// Create a shader object. Reply: [`Reply::Handle`].
    CreateShader { stage: ShaderStage },
    /// Give a shader object its source text.
    ShaderSource { shader: u32, source: String },
    /// Compile a shader object.
    CompileShader { shader: u32 },
    /// Ask for a shader's compile status. Reply: [`Reply::Status`].
    CompileStatus { shader: u32 },
    /// Ask for a shader's diagnostic text. Reply: [`Reply::Text`].
    ShaderInfoLog { shader: u32 },
    /// Create a program object. Reply: [`Reply::Handle`].
    CreateProgram,
    /// Attach a shader to a program.
    AttachShader { program: u32, shader: u32 },
    /// Link a program.
    LinkProgram { program: u32 },
    /// Ask for a program's link status. Reply: [`Reply::Status`].
    LinkStatus { program: u32 },
    /// Ask for a program's diagnostic text. Reply: [`Reply::Text`].
    ProgramInfoLog { program: u32 },
    /// Delete a shader object.
    DeleteShader { shader: u32 },
    /// Create a vertex array object. Reply: [`Reply::Handle`].
    GenVertexArray,
    /// Bind a vertex array object.
    BindVertexArray { vertex_array: u32 },
    /// Make a program the current one.
    UseProgram { program: u32 },
    /// Create a texture object. Reply: [`Reply::Handle`].
    GenTexture,
    /// Select texture unit `unit`, counted from zero.
    ActiveTexture { unit: usize },
    /// Bind a 2D texture to the active unit.
    BindTexture { texture: u32 },
    /// Set a sampling parameter of the bound 2D texture.
    TextureParameter { parameter: TextureParameter, setting: TextureSetting },
    /// Upload RGBA8 pixels as mip level 0 of the bound 2D texture.
    TexImage { width: i32, height: i32, pixels: Vec<u8> },
    /// Ask where a uniform lives in a program. Reply: [`Reply::Location`].
    UniformLocation { program: u32, name: String },
    /// Upload one float.
    Uniform1f { location: i32, x: FloatBits },
    /// Upload two floats.
    Uniform2f { location: i32, x: FloatBits, y: FloatBits },
    /// Upload three floats.
    Uniform3f { location: i32, x: FloatBits, y: FloatBits, z: FloatBits },
    /// Upload four floats.
    Uniform4f { location: i32, x: FloatBits, y: FloatBits, z: FloatBits, w: FloatBits },
    /// Upload one integer.
    Uniform1i { location: i32, x: i32 },
    /// Upload two integers.
    Uniform2i { location: i32, x: i32, y: i32 },
    /// Upload three integers.
    Uniform3i { location: i32, x: i32, y: i32, z: i32 },
    /// Upload four integers.
    Uniform4i { location: i32, x: i32, y: i32, z: i32, w: i32 },
    /// Set the clear color.
    ClearColor { red: FloatBits, green: FloatBits, blue: FloatBits, alpha: FloatBits },
    /// Clear the color buffer.
    ClearColorBuffer,
    /// Draw `count` vertices from `first` as a triangle strip.
    DrawTriangleStrip { first: i32, count: i32 },
    /// Flush the command stream.
    Flush,
    /// Delete a program object.
    DeleteProgram { program: u32 },
    /// Delete a vertex array object.
    DeleteVertexArray { vertex_array: u32 },
    /// Delete texture objects.
    DeleteTextures { textures: Vec<u32> },
}

/// Ghost image of a [`Call`].
pub enum CallView {
    MakeCurrent,
    ContextError,
    UsesEs,
    QueueRender,
    ReadFile { path: Seq<char> },
    Report(NoticeView),
    CreateShader { stage: ShaderStage },
    ShaderSource { shader: u32, source: Seq<char> },
    CompileShader { shader: u32 },
    CompileStatus { shader: u32 },
    ShaderInfoLog { shader: u32 },
    CreateProgram,
    AttachShader { program: u32, shader: u32 },
    LinkProgram { program: u32 },
    LinkStatus { program: u32 },
    ProgramInfoLog { program: u32 },
    DeleteShader { shader: u32 },
    GenVertexArray,
    BindVertexArray { vertex_array: u32 },
    UseProgram { program: u32 },
    GenTexture,
    ActiveTexture { unit: usize },
    BindTexture { texture: u32 },
    TextureParameter { parameter: TextureParameter, setting: TextureSetting },
    TexImage { width: i32, height: i32, pixels: Seq<u8> },
    UniformLocation { program: u32, name: Seq<char> },
    Uniform1f { location: i32, x: FloatBits },
    Uniform2f { location: i32, x: FloatBits, y: FloatBits },
    Uniform3f { location: i32, x: FloatBits, y: FloatBits, z: FloatBits },
    Uniform4f { location: i32, x: FloatBits, y: FloatBits, z: FloatBits, w: FloatBits },
    Uniform1i { location: i32, x: i32 },
    Uniform2i { location: i32, x: i32, y: i32 },
    Uniform3i { location: i32, x: i32, y: i32, z: i32 },
    Uniform4i { location: i32, x: i32, y: i32, z: i32, w: i32 },
    ClearColor { red: FloatBits, green: FloatBits, blue: FloatBits, alpha: FloatBits },
    ClearColorBuffer,
    DrawTriangleStrip { first: i32, count: i32 },
    Flush,
    DeleteProgram { program: u32 },
    DeleteVertexArray { vertex_array: u32 },
    DeleteTextures { textures: Seq<u32> },
}

impl View for Call {
    type V = CallView;

    open spec fn view(&self) -> CallView {
        match self {
            Call::MakeCurrent => CallView::MakeCurrent,
            Call::ContextError => CallView::ContextError,
            Call::UsesEs => CallView::UsesEs,
            Call::QueueRender => CallView::QueueRender,
            Call::ReadFile { path } => CallView::ReadFile { path: path@ },
            Call::Report(notice) => CallView::Report(notice@),
            Call::CreateShader { stage } => CallView::CreateShader { stage: *stage },
            Call::ShaderSource { shader, source } => CallView::ShaderSource {
                shader: *shader,
                source: source@,
            },
            Call::CompileShader { shader } => CallView::CompileShader { shader: *shader },
            Call::CompileStatus { shader } => CallView::CompileStatus { shader: *shader },
            Call::ShaderInfoLog { shader } => CallView::ShaderInfoLog { shader: *shader },
            Call::CreateProgram => CallView::CreateProgram,
            Call::AttachShader { program, shader } => CallView::AttachShader {
                program: *program,
                shader: *shader,
            },
            Call::LinkProgram { program } => CallView::LinkProgram { program: *program },
            Call::LinkStatus { program } => CallView::LinkStatus { program: *program },
            Call::ProgramInfoLog { program } => CallView::ProgramInfoLog { program: *program },
            Call::DeleteShader { shader } => CallView::DeleteShader { shader: *shader },
            Call::GenVertexArray => CallView::GenVertexArray,
            Call::BindVertexArray { vertex_array } => CallView::BindVertexArray {
                vertex_array: *vertex_array,
            },
            Call::UseProgram { program } => CallView::UseProgram { program: *program },
            Call::GenTexture => CallView::GenTexture,
            Call::ActiveTexture { unit } => CallView::ActiveTexture { unit: *unit },
            Call::BindTexture { texture } => CallView::BindTexture { texture: *texture },
            Call::TextureParameter { parameter, setting } => CallView::TextureParameter {
                parameter: *parameter,
                setting: *setting,
            },
            Call::TexImage { width, height, pixels } => CallView::TexImage {
                width: *width,
                height: *height,
                pixels: pixels@,
            },
            Call::UniformLocation { program, name } => CallView::UniformLocation {
                program: *program,
                name: name@,
            },
            Call::Uniform1f { location, x } => CallView::Uniform1f { location: *location, x: *x },
            Call::Uniform2f { location, x, y } => CallView::Uniform2f {
                location: *location,
                x: *x,
                y: *y,
            },
            Call::Uniform3f { location, x, y, z } => CallView::Uniform3f {
                location: *location,
                x: *x,
                y: *y,
                z: *z,
            },
            Call::Uniform4f { location, x, y, z, w } => CallView::Uniform4f {
                location: *location,
                x: *x,
                y: *y,
                z: *z,
                w: *w,
            },
            Call::Uniform1i { location, x } => CallView::Uniform1i { location: *location, x: *x },
            Call::Uniform2i { location, x, y } => CallView::Uniform2i {
                location: *location,
                x: *x,
                y: *y,
            },
            Call::Uniform3i { location, x, y, z } => CallView::Uniform3i {
                location: *location,
                x: *x,
                y: *y,
                z: *z,
            },
            Call::Uniform4i { location, x, y, z, w } => CallView::Uniform4i {
                location: *location,
                x: *x,
                y: *y,
                z: *z,
                w: *w,
            },
            Call::ClearColor { red, green, blue, alpha } => CallView::ClearColor {
                red: *red,
                green: *green,
                blue: *blue,
                alpha: *alpha,
            },
            Call::ClearColorBuffer => CallView::ClearColorBuffer,
            Call::DrawTriangleStrip { first, count } => CallView::DrawTriangleStrip {
                first: *first,
                count: *count,
            },
            Call::Flush => CallView::Flush,
            Call::DeleteProgram { program } => CallView::DeleteProgram { program: *program },
            Call::DeleteVertexArray { vertex_array } => CallView::DeleteVertexArray {
                vertex_array: *vertex_array,
            },
            Call::DeleteTextures { textures } => CallView::DeleteTextures { textures: textures@ },
        }
    }
}

/// The ghost images of a batch of calls, in order.
pub open spec fn views(calls: Seq<Call>) -> Seq<CallView> {
    calls.map_values(|call: Call| call@)
}

/// Appends `call` to `calls`.
pub fn emit(calls: &mut Vec<Call>, call: Call)
    ensures
        views(final(calls)@) == views(old(calls)@).push(call@),
{
    calls.push(call);
    assert(views(calls@) =~= views(old(calls)@).push(call@));
}

/// A batch with no calls in it.
pub fn no_calls() -> (calls: Vec<Call>)
    ensures
        views(calls@) == Seq::<CallView>::empty(),
{
    let calls: Vec<Call> = Vec::new();
    assert(views(calls@) =~= Seq::<CallView>::empty());
    calls
}

/// The host's answer to the last call of a batch.
#[derive(Clone, Debug, PartialEq, Eq)]
pub enum Reply {
    /// The call has no answer.
    Nothing,
    /// A yes or no.
    Flag(bool),
    /// The name of a GPU object; zero where the driver made none.
    Handle(u32),
    /// A compile or link status; zero means failure.
    Status(i32),
    /// A uniform location; negative where the program has no such uniform.
    Location(i32),
    /// Diagnostic text.
    Text(String),
    /// The content of a file, or `None` where it could not be read.
    Bytes(Option<Vec<u8>>),
}

/// Ghost image of a [`Reply`].
pub enum ReplyView {
    Nothing,
    Flag(bool),
    Handle(u32),
    Status(i32),
    Location(i32),
    Text(Seq<char>),
    Bytes(Option<Seq<u8>>),
}

impl View for Reply {
    type V = ReplyView;

    open spec fn view(&self) -> ReplyView {
        match self {
            Reply::Nothing => ReplyView::Nothing,
            Reply::Flag(flag) => ReplyView::Flag(*flag),
            Reply::Handle(handle) => ReplyView::Handle(*handle),
            Reply::Status(status) => ReplyView::Status(*status),
            Reply::Location(location) => ReplyView::Location(*location),
            Reply::Text(text) => ReplyView::Text(text@),
            Reply::Bytes(bytes) => ReplyView::Bytes(
                match bytes {
                    Some(bytes) => Some(bytes@),
                    None => None,
                },
            ),
        }
    }
}

/// How an operation on the surface ended.
#[derive(Clone, Copy, Debug, PartialEq, Eq, Structural)]
pub enum Outcome {
    /// The surface holds render state now.
    Activated,
    /// The context was in error; no render state was made.
    ActivationAborted,
    /// A frame was drawn.
    Drawn,
    /// Nothing was drawn this frame.
    NothingDrawn,
    /// The surface holds no render state any more.
    Deactivated,
    /// The context was in error; the render state was left as it is.
    CleanupSkipped,
    /// The uniform's value was stored and a redraw asked for.
    UniformStored,
    /// The uniform was not stored.
    UniformDropped,
}

impl Outcome {
    /// Whether this is how a frame request ended.
    pub open spec fn is_frame(self) -> bool {
        self == Outcome::Drawn || self == Outcome::NothingDrawn
    }

    /// Whether the host should stop handing the event on. A frame request is
    /// always handled here, drawn or not.
    pub fn handled(&self) -> (stop: bool)
        ensures
            stop == self.is_frame(),
    {
        match self {
            Outcome::Drawn => true,
            Outcome::NothingDrawn => true,
            _ => false,
        }
    }

    /// Whether a uniform was found and its value stored.
    pub fn uniform_was_set(&self) -> (set: bool)
        ensures
            set == (*self == Outcome::UniformStored),
    {
        match self {
            Outcome::UniformStored => true,
            _ => false,
        }
    }
}

/// What the core hands back from every operation: the calls to make now, and
/// the outcome once the operation has ended. While `outcome` is `None` the
/// core waits for the reply to the last call.
#[derive(Clone, Debug, PartialEq, Eq)]
pub struct Step {
    pub calls: Vec<Call>,
    pub outcome: Option<Outcome>,
}

/// Ghost image of a [`Step`].
pub struct StepView {
    pub calls: Seq<CallView>,
    pub outcome: Option<Outcome>,
}

impl View for Step {
    type V = StepView;

    open spec fn view(&self) -> StepView {
        StepView { calls: views(self.calls@), outcome: self.outcome }
    }
}

/// The reply did not answer the call the core is waiting on, or the core is
/// not waiting at all.
#[derive(Clone, Copy, Debug, PartialEq, Eq, Structural)]
pub struct UnexpectedReply;

} // verus!

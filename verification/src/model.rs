//! The surface's life as a transition system over ghost values.
//!
//! A surface is `Idle` between operations. An operation begins with one of
//! the `begin_*` functions and goes on with [`resume`], one reply at a time,
//! until a step carries an outcome and the surface is `Idle` again.

use vstd::prelude::*;
use crate::call::{CallView, NoticeView, Outcome, ReplyView, ShaderStage, StepView};
use crate::call::{TextureParameter, TextureSetting};
use crate::registry::{apply_calls, lemma_stored_well_formed, lookup, seeded, stored, well_formed};
use crate::named::names_distinct;
use crate::registry::UniformEntryView;
use crate::shader::{fragment_source, sampler_name_of, vertex_source};
use crate::texture::{decoded_texture, TextureDataView, TextureSourceView};
use crate::value::{FloatBits, UniformValue};

verus! {

/// The reply an activation is waiting on.
#[derive(Clone, Copy, Debug, PartialEq, Eq, Structural)]
pub enum Awaiting {
    /// Whether the context is in error.
    Context,
    /// Whether the context is of the embedded flavor.
    Flavor,
    /// The vertex shader's handle.
    VertexShader,
    /// The vertex shader's compile status.
    VertexStatus,
    /// The vertex shader's diagnostic text.
    VertexLog,
    /// The fragment shader's handle.
    FragmentShader,
    /// The fragment shader's compile status.
    FragmentStatus,
    /// The fragment shader's diagnostic text.
    FragmentLog,
    /// The program's handle.
    Program,
    /// The program's link status.
    LinkStatus,
    /// The program's diagnostic text.
    ProgramLog,
    /// The vertex array's handle.
    VertexArray,
    /// The content of the image file of the source in hand.
    File,
    /// The handle of the texture for the source in hand.
    Texture,
    /// The location of the sampler for the texture just uploaded.
    Sampler,
    /// The location of the initial uniform in hand.
    Uniform,
}

/// Ghost image of the GPU objects and uniforms of an active surface.
pub struct RenderStateView {
    pub program: u32,
    pub vertex_array: u32,
    pub textures: Seq<u32>,
    pub uniforms: Seq<UniformEntryView>,
}

/// Ghost image of an activation under way.
pub struct ActivationView {
    pub awaiting: Awaiting,
    pub es: bool,
    pub vertex: u32,
    pub fragment: u32,
    pub program: u32,
    pub vertex_array: u32,
    pub textures: Seq<u32>,
    pub source: usize,
    pub image: TextureDataView,
    pub registry: Seq<UniformEntryView>,
    pub uniform: usize,
}

/// Ghost image of what a surface is in the middle of.
pub enum TaskView {
    Idle,
    Activating(ActivationView),
    Rendering,
    Deactivating,
    Setting { name: Seq<char>, value: UniformValue, resolving: bool },
}

/// Ghost image of a surface.
pub struct AreaView {
    pub shader: Seq<char>,
    pub textures: Seq<TextureSourceView>,
    pub uniforms: Seq<(Seq<char>, UniformValue)>,
    pub state: Option<RenderStateView>,
    pub task: TaskView,
}

/// An image without pixels.
pub open spec fn no_image() -> TextureDataView {
    TextureDataView { width: 0, height: 0, data: Seq::empty() }
}

/// An activation that has not heard from the host yet.
pub open spec fn fresh_activation() -> ActivationView {
    ActivationView {
        awaiting: Awaiting::Context,
        es: false,
        vertex: 0,
        fragment: 0,
        program: 0,
        vertex_array: 0,
        textures: Seq::empty(),
        source: 0,
        image: no_image(),
        registry: Seq::empty(),
        uniform: 0,
    }
}

/// How many texture sources an activation has dealt with: those before the
/// one in hand, that one too once it has its texture, and all of them when
/// the uniforms are under way. Before the program is linked there are none.
pub open spec fn sources_done(area: AreaView, act: ActivationView) -> int {
    match act.awaiting {
        Awaiting::File | Awaiting::Texture => act.source as int,
        Awaiting::Sampler => act.source + 1,
        Awaiting::Uniform => area.textures.len() as int,
        _ => 0,
    }
}

/// What has to hold of an activation under way for the next step to make
/// sense: its registry and the image in hand are well formed, the source and
/// the uniform in hand exist, and it has no more textures than sources it
/// has dealt with.
pub open spec fn activation_wf(area: AreaView, act: ActivationView) -> bool {
    &&& well_formed(act.registry)
    &&& act.image.well_formed()
    &&& (act.awaiting == Awaiting::File || act.awaiting == Awaiting::Texture || act.awaiting
        == Awaiting::Sampler) ==> act.source < area.textures.len()
    &&& act.awaiting == Awaiting::Sampler ==> act.textures.len() >= 1
    &&& act.awaiting == Awaiting::Uniform ==> act.uniform < area.uniforms.len()
    &&& act.textures.len() <= sources_done(area, act)
}

impl AreaView {
    /// The surface is between operations.
    pub open spec fn idle(self) -> bool {
        self.task is Idle
    }

    /// The surface holds render state.
    pub open spec fn active(self) -> bool {
        self.state is Some
    }

    /// The surface's invariant: registries are well formed, the lists of
    /// sources and initial uniforms can be indexed, no initial uniform is
    /// named twice, and an activation under way is in order.
    pub open spec fn wf(self) -> bool {
        &&& self.textures.len() <= usize::MAX
        &&& self.uniforms.len() <= usize::MAX
        &&& names_distinct(self.uniforms)
        &&& match self.state {
            Some(state) => well_formed(state.uniforms),
            None => true,
        }
        &&& match self.task {
            TaskView::Activating(act) => activation_wf(self, act),
            _ => true,
        }
    }
}

/// A step that goes on: the activation waits for the reply to the last call.
pub open spec fn goes_on(
    area: AreaView,
    act: ActivationView,
    awaiting: Awaiting,
    calls: Seq<CallView>,
) -> (AreaView, StepView) {
    (
        AreaView { task: TaskView::Activating(ActivationView { awaiting, ..act }), ..area },
        StepView { calls, outcome: None },
    )
}

/// A step that ends the operation.
pub open spec fn ends(area: AreaView, calls: Seq<CallView>, outcome: Outcome) -> (
    AreaView,
    StepView,
) {
    (AreaView { task: TaskView::Idle, ..area }, StepView { calls, outcome: Some(outcome) })
}

/// The same step with `calls` in front of its own.
pub open spec fn after(calls: Seq<CallView>, next: (AreaView, StepView)) -> (AreaView, StepView) {
    (next.0, StepView { calls: calls + next.1.calls, outcome: next.1.outcome })
}

/// The calls that compile a stage once its shader object exists.
pub open spec fn compile_calls(shader: u32, source: Seq<char>) -> Seq<CallView> {
    Seq::empty()
        .push(CallView::ShaderSource { shader, source })
        .push(CallView::CompileShader { shader })
        .push(CallView::CompileStatus { shader })
}

/// The calls that link the two stages once the program object exists.
pub open spec fn link_calls(program: u32, vertex: u32, fragment: u32) -> Seq<CallView> {
    Seq::empty()
        .push(CallView::AttachShader { program, shader: vertex })
        .push(CallView::AttachShader { program, shader: fragment })
        .push(CallView::LinkProgram { program })
        .push(CallView::LinkStatus { program })
}

/// The calls after the link, failed or not: both stage objects are deleted
/// and a vertex array is asked for.
pub open spec fn after_link_calls(vertex: u32, fragment: u32) -> Seq<CallView> {
    Seq::empty()
        .push(CallView::DeleteShader { shader: vertex })
        .push(CallView::DeleteShader { shader: fragment })
        .push(CallView::GenVertexArray)
}

/// The call that sets a sampling parameter of the bound texture.
pub open spec fn sets(parameter: TextureParameter, setting: TextureSetting) -> CallView {
    CallView::TextureParameter { parameter, setting }
}

/// The calls that upload `image` as `texture` on unit `unit`, with linear
/// filtering and clamping on both axes, and then ask for the unit's sampler.
pub open spec fn texture_calls(
    unit: usize,
    texture: u32,
    image: TextureDataView,
    program: u32,
) -> Seq<CallView> {
    Seq::empty()
        .push(CallView::ActiveTexture { unit })
        .push(CallView::BindTexture { texture })
        .push(sets(TextureParameter::MinFilter, TextureSetting::Linear))
        .push(sets(TextureParameter::MagFilter, TextureSetting::Linear))
        .push(sets(TextureParameter::WrapS, TextureSetting::ClampToEdge))
        .push(sets(TextureParameter::WrapT, TextureSetting::ClampToEdge))
        .push(CallView::TexImage { width: image.width, height: image.height, pixels: image.data })
        .push(CallView::UniformLocation { program, name: sampler_name_of(unit as nat) })
}

/// The report that a stage did not compile.
pub open spec fn compile_failed(stage: ShaderStage, log: Seq<char>) -> CallView {
    CallView::Report(NoticeView::CompileFailed { stage, log })
}

/// The report that the source at `index` is skipped.
pub open spec fn load_failed(index: int) -> Seq<CallView> {
    seq![CallView::Report(NoticeView::TextureLoadFailed { index: index as usize })]
}

/// The render state that a finished activation leaves.
pub open spec fn built(act: ActivationView) -> RenderStateView {
    RenderStateView {
        program: act.program,
        vertex_array: act.vertex_array,
        textures: act.textures,
        uniforms: act.registry,
    }
}

/// Takes up the initial uniform at `from`: asks for its location, or, when
/// none is left, ends the activation with the render state in place.
pub open spec fn next_uniform(area: AreaView, act: ActivationView, from: int) -> (
    AreaView,
    StepView,
) {
    if 0 <= from < area.uniforms.len() {
        goes_on(
            area,
            ActivationView { uniform: from as usize, ..act },
            Awaiting::Uniform,
            seq![CallView::UniformLocation { program: act.program, name: area.uniforms[from].0 }],
        )
    } else {
        ends(
            AreaView { state: Some(built(act)), ..area },
            Seq::empty(),
            Outcome::Activated,
        )
    }
}

/// Takes up the texture source at `from`: a path is read, well-formed pixels
/// get a texture object, anything else is reported and skipped. When no
/// source is left the initial uniforms follow.
pub open spec fn next_source(area: AreaView, act: ActivationView, from: int) -> (
    AreaView,
    StepView,
)
    decreases area.textures.len() - from,
{
    if 0 <= from < area.textures.len() {
        match area.textures[from] {
            TextureSourceView::Path(path) => goes_on(
                area,
                ActivationView { source: from as usize, ..act },
                Awaiting::File,
                seq![CallView::ReadFile { path }],
            ),
            TextureSourceView::Pixels(pixels) => if pixels.well_formed() {
                goes_on(
                    area,
                    ActivationView { source: from as usize, image: pixels, ..act },
                    Awaiting::Texture,
                    seq![CallView::GenTexture],
                )
            } else {
                after(load_failed(from), next_source(area, act, from + 1))
            },
        }
    } else {
        next_uniform(area, act, 0)
    }
}

/// The texture that the file reply holds for the source in hand.
pub open spec fn loaded(area: AreaView, act: ActivationView, bytes: Option<Seq<u8>>) -> Option<
    TextureDataView,
> {
    match (area.textures[act.source as int], bytes) {
        (TextureSourceView::Path(path), Some(bytes)) => decoded_texture(path, bytes),
        _ => None,
    }
}

/// One step of an activation.
pub open spec fn activation_step(area: AreaView, act: ActivationView, reply: ReplyView) -> Option<
    (AreaView, StepView),
> {
    match (act.awaiting, reply) {
        (Awaiting::Context, ReplyView::Flag(error)) => Some(
            if error {
                ends(
                    area,
                    seq![CallView::Report(NoticeView::ContextUnavailable)],
                    Outcome::ActivationAborted,
                )
            } else {
                goes_on(area, act, Awaiting::Flavor, seq![CallView::UsesEs])
            },
        ),
        (Awaiting::Flavor, ReplyView::Flag(es)) => Some(
            goes_on(
                area,
                ActivationView { es, ..act },
                Awaiting::VertexShader,
                seq![CallView::CreateShader { stage: ShaderStage::Vertex }],
            ),
        ),
        (Awaiting::VertexShader, ReplyView::Handle(vertex)) => Some(
            goes_on(
                area,
                ActivationView { vertex, ..act },
                Awaiting::VertexStatus,
                compile_calls(vertex, vertex_source(act.es)),
            ),
        ),
        (Awaiting::VertexStatus, ReplyView::Status(status)) => Some(
            if status == 0 {
                goes_on(
                    area,
                    act,
                    Awaiting::VertexLog,
                    seq![CallView::ShaderInfoLog { shader: act.vertex }],
                )
            } else {
                goes_on(
                    area,
                    act,
                    Awaiting::FragmentShader,
                    seq![CallView::CreateShader { stage: ShaderStage::Fragment }],
                )
            },
        ),
        (Awaiting::VertexLog, ReplyView::Text(log)) => Some(
            goes_on(
                area,
                act,
                Awaiting::FragmentShader,
                Seq::empty()
                    .push(compile_failed(ShaderStage::Vertex, log))
                    .push(CallView::CreateShader { stage: ShaderStage::Fragment }),
            ),
        ),
        (Awaiting::FragmentShader, ReplyView::Handle(fragment)) => Some(
            goes_on(
                area,
                ActivationView { fragment, ..act },
                Awaiting::FragmentStatus,
                compile_calls(fragment, fragment_source(act.es, area.shader)),
            ),
        ),
        (Awaiting::FragmentStatus, ReplyView::Status(status)) => Some(
            if status == 0 {
                goes_on(
                    area,
                    act,
                    Awaiting::FragmentLog,
                    seq![CallView::ShaderInfoLog { shader: act.fragment }],
                )
            } else {
                goes_on(area, act, Awaiting::Program, seq![CallView::CreateProgram])
            },
        ),
        (Awaiting::FragmentLog, ReplyView::Text(log)) => Some(
            goes_on(
                area,
                act,
                Awaiting::Program,
                Seq::empty()
                    .push(compile_failed(ShaderStage::Fragment, log))
                    .push(CallView::CreateProgram),
            ),
        ),
        (Awaiting::Program, ReplyView::Handle(program)) => Some(
            goes_on(
                area,
                ActivationView { program, ..act },
                Awaiting::LinkStatus,
                link_calls(program, act.vertex, act.fragment),
            ),
        ),
        (Awaiting::LinkStatus, ReplyView::Status(status)) => Some(
            if status == 0 {
                goes_on(
                    area,
                    act,
                    Awaiting::ProgramLog,
                    seq![CallView::ProgramInfoLog { program: act.program }],
                )
            } else {
                goes_on(
                    area,
                    act,
                    Awaiting::VertexArray,
                    after_link_calls(act.vertex, act.fragment),
                )
            },
        ),
        (Awaiting::ProgramLog, ReplyView::Text(log)) => Some(
            goes_on(
                area,
                act,
                Awaiting::VertexArray,
                seq![CallView::Report(NoticeView::LinkFailed { log })] + after_link_calls(
                    act.vertex,
                    act.fragment,
                ),
            ),
        ),
        (Awaiting::VertexArray, ReplyView::Handle(vertex_array)) => Some(
            after(
                Seq::empty()
                    .push(CallView::BindVertexArray { vertex_array })
                    .push(CallView::UseProgram { program: act.program }),
                next_source(area, ActivationView { vertex_array, ..act }, 0),
            ),
        ),
        (Awaiting::File, ReplyView::Bytes(bytes)) => Some(
            match loaded(area, act, bytes) {
                Some(image) => goes_on(
                    area,
                    ActivationView { image, ..act },
                    Awaiting::Texture,
                    seq![CallView::GenTexture],
                ),
                None => after(
                    load_failed(act.source as int),
                    next_source(area, act, act.source + 1),
                ),
            },
        ),
        (Awaiting::Texture, ReplyView::Handle(texture)) => Some(
            goes_on(
                area,
                ActivationView { textures: act.textures.push(texture), image: no_image(), ..act },
                Awaiting::Sampler,
                texture_calls(act.textures.len() as usize, texture, act.image, act.program),
            ),
        ),
        (Awaiting::Sampler, ReplyView::Location(location)) => {
            let unit = (act.textures.len() - 1) as usize;
            Some(
                after(
                    if location >= 0 {
                        seq![CallView::Uniform1i { location, x: unit as i32 }]
                    } else {
                        seq![CallView::Report(NoticeView::SamplerMissing { unit })]
                    },
                    next_source(area, act, act.source + 1),
                ),
            )
        },
        (Awaiting::Uniform, ReplyView::Location(location)) => {
            let (name, value) = area.uniforms[act.uniform as int];
            Some(
                after(
                    if location >= 0 {
                        Seq::empty()
                    } else {
                        seq![CallView::Report(NoticeView::UniformUnused { name })]
                    },
                    next_uniform(
                        area,
                        ActivationView {
                            registry: seeded(act.registry, name, value, location),
                            ..act
                        },
                        act.uniform + 1,
                    ),
                ),
            )
        },
        _ => None,
    }
}

/// One texture bound to each unit, in order: unit `i` gets `textures[i]`.
pub open spec fn bind_calls(textures: Seq<u32>) -> Seq<CallView> {
    Seq::new(
        2 * textures.len(),
        |k: int|
            if k % 2 == 0 {
                CallView::ActiveTexture { unit: (k / 2) as usize }
            } else {
                CallView::BindTexture { texture: textures[k / 2] }
            },
    )
}

/// The number zero as a float.
pub open spec fn zero() -> FloatBits {
    FloatBits(0)
}

/// The calls that clear the color buffer to transparent black.
pub open spec fn clear_calls() -> Seq<CallView> {
    Seq::empty()
        .push(CallView::ClearColor { red: zero(), green: zero(), blue: zero(), alpha: zero() })
        .push(CallView::ClearColorBuffer)
}

/// The calls that draw the quad, four vertices as a triangle strip, and
/// flush the stream.
pub open spec fn quad_calls() -> Seq<CallView> {
    Seq::empty()
        .push(CallView::DrawTriangleStrip { first: 0, count: 4 })
        .push(CallView::Flush)
}

/// The calls that draw one frame: the color buffer is cleared, the uniforms
/// are pushed, the vertex array and each texture are bound, and the quad is
/// drawn.
pub open spec fn render_calls(state: RenderStateView) -> Seq<CallView> {
    clear_calls() + apply_calls(state.program, state.uniforms) + seq![
        CallView::BindVertexArray { vertex_array: state.vertex_array },
    ] + bind_calls(state.textures) + quad_calls()
}

/// The calls that delete the textures, if there are any.
pub open spec fn delete_texture_calls(textures: Seq<u32>) -> Seq<CallView> {
    if textures.len() > 0 {
        seq![CallView::DeleteTextures { textures }]
    } else {
        Seq::empty()
    }
}

/// The calls that give back every GPU object of the state.
pub open spec fn delete_calls(state: RenderStateView) -> Seq<CallView> {
    Seq::empty()
        .push(CallView::DeleteProgram { program: state.program })
        .push(CallView::DeleteVertexArray { vertex_array: state.vertex_array })
        + delete_texture_calls(state.textures)
}

/// The context did not come up: the operation ends with nothing done.
pub open spec fn context_lost(area: AreaView, outcome: Outcome) -> (AreaView, StepView) {
    ends(area, seq![CallView::Report(NoticeView::ContextUnavailable)], outcome)
}

/// The surface was realized: the context is made current and asked for
/// errors.
pub open spec fn begin_realize(area: AreaView) -> (AreaView, StepView) {
    goes_on(
        area,
        fresh_activation(),
        Awaiting::Context,
        Seq::empty()
            .push(CallView::MakeCurrent)
            .push(CallView::ContextError),
    )
}

/// A frame was requested: the context is asked for errors.
pub open spec fn begin_render(area: AreaView) -> (AreaView, StepView) {
    (
        AreaView { task: TaskView::Rendering, ..area },
        StepView { calls: seq![CallView::ContextError], outcome: None },
    )
}

/// The frame request goes on with the context's answer.
pub open spec fn render_step(area: AreaView, error: bool) -> (AreaView, StepView) {
    if error {
        context_lost(area, Outcome::NothingDrawn)
    } else {
        match area.state {
            Some(state) => ends(area, render_calls(state), Outcome::Drawn),
            None => ends(area, Seq::empty(), Outcome::NothingDrawn),
        }
    }
}

/// The surface was unrealized: the context is made current and asked for
/// errors.
pub open spec fn begin_unrealize(area: AreaView) -> (AreaView, StepView) {
    (
        AreaView { task: TaskView::Deactivating, ..area },
        StepView { calls: Seq::empty()
            .push(CallView::MakeCurrent)
            .push(CallView::ContextError), outcome: None },
    )
}

/// The deactivation goes on with the context's answer. With the context in
/// error the render state stays as it is.
pub open spec fn unrealize_step(area: AreaView, error: bool) -> (AreaView, StepView) {
    if error {
        context_lost(area, Outcome::CleanupSkipped)
    } else {
        match area.state {
            Some(state) => ends(
                AreaView { state: None, ..area },
                delete_calls(state),
                Outcome::Deactivated,
            ),
            None => ends(area, Seq::empty(), Outcome::Deactivated),
        }
    }
}

/// A uniform is to be set. Without render state that is reported and
/// nothing else happens.
pub open spec fn begin_set_uniform(area: AreaView, name: Seq<char>, value: UniformValue) -> (
    AreaView,
    StepView,
) {
    if area.state is Some {
        (
            AreaView { task: TaskView::Setting { name, value, resolving: false }, ..area },
            StepView { calls: Seq::empty()
                .push(CallView::MakeCurrent)
                .push(CallView::ContextError), outcome: None },
        )
    } else {
        ends(area, seq![CallView::Report(NoticeView::NotRendering)], Outcome::UniformDropped)
    }
}

/// The value is stored under a location that is not negative, and a redraw
/// is asked for; with a negative location the write is dropped.
pub open spec fn set_at(area: AreaView, name: Seq<char>, value: UniformValue, location: i32) -> (
    AreaView,
    StepView,
) {
    match area.state {
        Some(state) => if location >= 0 {
            ends(
                AreaView {
                    state: Some(
                        RenderStateView {
                            uniforms: stored(state.uniforms, name, location, value),
                            ..state
                        },
                    ),
                    ..area
                },
                seq![CallView::QueueRender],
                Outcome::UniformStored,
            )
        } else {
            ends(
                area,
                seq![CallView::Report(NoticeView::UniformUnused { name })],
                Outcome::UniformDropped,
            )
        },
        None => ends(
            area,
            seq![CallView::Report(NoticeView::NotRendering)],
            Outcome::UniformDropped,
        ),
    }
}

/// Setting a uniform goes on with the context's answer: a known name keeps
/// its location, an unknown one is asked for.
pub open spec fn set_context_step(
    area: AreaView,
    name: Seq<char>,
    value: UniformValue,
    error: bool,
) -> (AreaView, StepView) {
    if error {
        context_lost(area, Outcome::UniformDropped)
    } else {
        match area.state {
            Some(state) => match lookup(state.uniforms, name) {
                Some(entry) => set_at(area, name, value, entry.location),
                None => (
                    AreaView { task: TaskView::Setting { name, value, resolving: true }, ..area },
                    StepView {
                        calls: seq![CallView::UniformLocation { program: state.program, name }],
                        outcome: None,
                    },
                ),
            },
            None => set_at(area, name, value, 0),
        }
    }
}

/// The next step of the operation under way, or `None` where the reply does
/// not answer what the surface waits on.
pub open spec fn resume(area: AreaView, reply: ReplyView) -> Option<(AreaView, StepView)> {
    match area.task {
        TaskView::Idle => None,
        TaskView::Activating(act) => activation_step(area, act, reply),
        TaskView::Rendering => match reply {
            ReplyView::Flag(error) => Some(render_step(area, error)),
            _ => None,
        },
        TaskView::Deactivating => match reply {
            ReplyView::Flag(error) => Some(unrealize_step(area, error)),
            _ => None,
        },
        TaskView::Setting { name, value, resolving } => match reply {
            ReplyView::Flag(error) => if resolving {
                None
            } else {
                Some(set_context_step(area, name, value, error))
            },
            ReplyView::Location(location) => if resolving {
                Some(set_at(area, name, value, location))
            } else {
                None
            },
            _ => None,
        },
    }
}

/// Whether two surfaces differ in nothing but what they are in the middle of.
pub open spec fn same_but_task(a: AreaView, b: AreaView) -> bool {
    b == (AreaView { task: b.task, ..a })
}

/// Taking up a source does not look at what the surface was in the middle of.
pub proof fn lemma_next_source_ignores_task(
    a: AreaView,
    b: AreaView,
    act: ActivationView,
    from: int,
)
    requires
        same_but_task(a, b),
    ensures
        next_source(a, act, from) == next_source(b, act, from),
    decreases a.textures.len() - from,
{
    if 0 <= from < a.textures.len() {
        match a.textures[from] {
            TextureSourceView::Path(_) => {},
            TextureSourceView::Pixels(pixels) => {
                if !pixels.well_formed() {
                    lemma_next_source_ignores_task(a, b, act, from + 1);
                }
            },
        }
    }
}

/// A step of an activation does not look at what the surface was in the
/// middle of.
pub proof fn lemma_activation_step_ignores_task(
    a: AreaView,
    b: AreaView,
    act: ActivationView,
    reply: ReplyView,
)
    requires
        same_but_task(a, b),
    ensures
        activation_step(a, act, reply) == activation_step(b, act, reply),
{
    lemma_next_source_ignores_task(a, b, act, act.source + 1);
    match (act.awaiting, reply) {
        (Awaiting::VertexArray, ReplyView::Handle(vertex_array)) => {
            lemma_next_source_ignores_task(a, b, ActivationView { vertex_array, ..act }, 0);
        },
        _ => {},
    }
}

/// The part of the invariant that does not speak of the operation under way.
pub open spec fn settled(area: AreaView) -> bool {
    &&& area.textures.len() <= usize::MAX
    &&& area.uniforms.len() <= usize::MAX
    &&& names_distinct(area.uniforms)
    &&& match area.state {
        Some(state) => well_formed(state.uniforms),
        None => true,
    }
}

/// Taking up an initial uniform keeps the invariant.
pub proof fn lemma_next_uniform_wf(area: AreaView, act: ActivationView, from: int)
    requires
        settled(area),
        well_formed(act.registry),
        act.image.well_formed(),
        act.textures.len() <= area.textures.len(),
    ensures
        next_uniform(area, act, from).0.wf(),
{
}

/// Taking up a texture source keeps the invariant.
pub proof fn lemma_next_source_wf(area: AreaView, act: ActivationView, from: int)
    requires
        settled(area),
        well_formed(act.registry),
        act.image.well_formed(),
        act.textures.len() <= from <= area.textures.len(),
    ensures
        next_source(area, act, from).0.wf(),
    decreases area.textures.len() - from,
{
    if 0 <= from < area.textures.len() {
        match area.textures[from] {
            TextureSourceView::Path(_) => {},
            TextureSourceView::Pixels(pixels) => {
                if !pixels.well_formed() {
                    lemma_next_source_wf(area, act, from + 1);
                }
            },
        }
    } else {
        lemma_next_uniform_wf(area, act, 0);
    }
}

/// Every step keeps the surface's invariant.
pub proof fn lemma_resume_wf(area: AreaView, reply: ReplyView)
    requires
        area.wf(),
    ensures
        match resume(area, reply) {
            Some(next) => next.0.wf(),
            None => true,
        },
{
    match area.task {
        TaskView::Activating(act) => {
            match (act.awaiting, reply) {
                (Awaiting::VertexArray, ReplyView::Handle(vertex_array)) => {
                    lemma_next_source_wf(area, ActivationView { vertex_array, ..act }, 0);
                },
                (Awaiting::File, ReplyView::Bytes(bytes)) => {
                    lemma_next_source_wf(area, act, act.source + 1);
                },
                (Awaiting::Sampler, ReplyView::Location(_)) => {
                    lemma_next_source_wf(area, act, act.source + 1);
                },
                (Awaiting::Uniform, ReplyView::Location(location)) => {
                    let (name, value) = area.uniforms[act.uniform as int];
                    if location >= 0 {
                        lemma_stored_well_formed(act.registry, name, location, value);
                    }
                    lemma_next_uniform_wf(
                        area,
                        ActivationView {
                            registry: seeded(act.registry, name, value, location),
                            ..act
                        },
                        act.uniform + 1,
                    );
                },
                _ => {},
            }
        },
        TaskView::Setting { name, value, resolving } => {
            match area.state {
                Some(state) => {
                    match reply {
                        ReplyView::Location(location) => {
                            if location >= 0 {
                                lemma_stored_well_formed(state.uniforms, name, location, value);
                            }
                        },
                        ReplyView::Flag(_) => {
                            match lookup(state.uniforms, name) {
                                Some(entry) => {
                                    if entry.location >= 0 {
                                        lemma_stored_well_formed(
                                            state.uniforms,
                                            name,
                                            entry.location,
                                            value,
                                        );
                                    }
                                },
                                None => {},
                            }
                        },
                        _ => {},
                    }
                },
                None => {},
            }
        },
        _ => {},
    }
}

/// Whether two surfaces were made with the same shader, sources and initial
/// uniforms.
pub open spec fn same_inputs(a: AreaView, b: AreaView) -> bool {
    a.shader == b.shader && a.textures == b.textures && a.uniforms == b.uniforms
}

/// Taking up a source leaves what the surface was made with as it is.
pub proof fn lemma_next_source_keeps_inputs(area: AreaView, act: ActivationView, from: int)
    ensures
        same_inputs(area, next_source(area, act, from).0),
    decreases area.textures.len() - from,
{
    if 0 <= from < area.textures.len() {
        match area.textures[from] {
            TextureSourceView::Path(_) => {},
            TextureSourceView::Pixels(pixels) => {
                if !pixels.well_formed() {
                    lemma_next_source_keeps_inputs(area, act, from + 1);
                }
            },
        }
    }
}

/// No step changes what the surface was made with.
pub proof fn lemma_resume_keeps_inputs(area: AreaView, reply: ReplyView)
    ensures
        match resume(area, reply) {
            Some(next) => same_inputs(area, next.0),
            None => true,
        },
{
    match area.task {
        TaskView::Activating(act) => {
            lemma_next_source_keeps_inputs(area, act, act.source + 1);
            match (act.awaiting, reply) {
                (Awaiting::VertexArray, ReplyView::Handle(vertex_array)) => {
                    lemma_next_source_keeps_inputs(area, ActivationView { vertex_array, ..act }, 0);
                },
                _ => {},
            }
        },
        _ => {},
    }
}

/// Taking up texture sources leaves what the activation has got so far as
/// it is: its objects, its textures and its registry. Where the activation
/// ends, they make up the render state.
pub proof fn lemma_next_source_keeps_progress(area: AreaView, act: ActivationView, from: int)
    ensures
        match next_source(area, act, from).0.task {
            TaskView::Activating(later) => {
                &&& later.awaiting == Awaiting::File || later.awaiting == Awaiting::Texture
                    || later.awaiting == Awaiting::Uniform
                &&& later.registry == act.registry
                &&& later.textures == act.textures
                &&& later.program == act.program
                &&& later.vertex_array == act.vertex_array
                &&& next_source(area, act, from).0.state == area.state
            },
            _ => next_source(area, act, from).0.idle() && next_source(area, act, from).0.state
                == Some(built(act)),
        },
    decreases area.textures.len() - from,
{
    if 0 <= from < area.textures.len() {
        match area.textures[from] {
            TextureSourceView::Path(_) => {},
            TextureSourceView::Pixels(pixels) => {
                if !pixels.well_formed() {
                    lemma_next_source_keeps_progress(area, act, from + 1);
                }
            },
        }
    }
}

} // verus!

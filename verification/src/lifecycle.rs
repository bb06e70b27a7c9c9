//! The surface's operations: activation, frame requests, deactivation and
//! uniform writes, each as a run of steps.

use vstd::prelude::*;
use vstd::string::*;
use crate::area::{Activation, RenderState, ShaderArea, Task};
use crate::call::{emit, no_calls, views, Call, CallView, Notice, Outcome, Reply, ShaderStage};
use crate::call::Step;
use crate::call::{TextureParameter, TextureSetting, UnexpectedReply};
use crate::model;
use crate::model::{AreaView, Awaiting, TaskView};
use crate::registry::UniformRegistry;
use crate::shader::{build_fragment_shader, build_vertex_shader, glsl_version, sampler_name};
use crate::texture::{decode_texture, TextureData, TextureSource};
use crate::value::{FloatBits, UniformValue};

verus! {

/// Moves the calls of `more` to the end of `calls`.
fn append(calls: &mut Vec<Call>, more: Vec<Call>)
    ensures
        views(final(calls)@) == views(old(calls)@) + views(more@),
{
    let ghost added = more@;
    let mut more = more;
    calls.append(&mut more);
    assert(views(calls@) =~= views(old(calls)@) + views(added));
}

/// The calls that compile a stage once its shader object exists: the source
/// is handed over, compiled, and the status asked for.
pub fn compile_shader(shader: u32, source: String) -> (calls: Vec<Call>)
    ensures
        views(calls@) == model::compile_calls(shader, source@),
{
    let mut calls = no_calls();
    emit(&mut calls, Call::ShaderSource { shader, source });
    emit(&mut calls, Call::CompileShader { shader });
    emit(&mut calls, Call::CompileStatus { shader });
    calls
}

/// The calls that link the two stages once the program object exists: both
/// are attached, the program is linked, and the status asked for.
pub fn link_program(program: u32, vertex: u32, fragment: u32) -> (calls: Vec<Call>)
    ensures
        views(calls@) == model::link_calls(program, vertex, fragment),
{
    let mut calls = no_calls();
    emit(&mut calls, Call::AttachShader { program, shader: vertex });
    emit(&mut calls, Call::AttachShader { program, shader: fragment });
    emit(&mut calls, Call::LinkProgram { program });
    emit(&mut calls, Call::LinkStatus { program });
    calls
}

/// Adds what follows the link, failed or not: both stage objects are
/// deleted and a vertex array is asked for.
fn finish_link(calls: &mut Vec<Call>, vertex: u32, fragment: u32)
    ensures
        views(final(calls)@) == views(old(calls)@) + model::after_link_calls(vertex, fragment),
{
    emit(calls, Call::DeleteShader { shader: vertex });
    emit(calls, Call::DeleteShader { shader: fragment });
    emit(calls, Call::GenVertexArray);
    assert(views(calls@) =~= views(old(calls)@) + model::after_link_calls(vertex, fragment));
}

/// The calls that upload `image` as `texture` on unit `unit`, with linear
/// filtering and clamping on both axes, and then ask for the sampler of that
/// unit in `program`.
pub fn load_texture(unit: usize, texture: u32, image: TextureData, program: u32) -> (calls: Vec<
    Call,
>)
    ensures
        views(calls@) == model::texture_calls(unit, texture, image@, program),
{
    let mut calls = no_calls();
    emit(&mut calls, Call::ActiveTexture { unit });
    emit(&mut calls, Call::BindTexture { texture });
    emit(
        &mut calls,
        Call::TextureParameter {
            parameter: TextureParameter::MinFilter,
            setting: TextureSetting::Linear,
        },
    );
    emit(
        &mut calls,
        Call::TextureParameter {
            parameter: TextureParameter::MagFilter,
            setting: TextureSetting::Linear,
        },
    );
    emit(
        &mut calls,
        Call::TextureParameter {
            parameter: TextureParameter::WrapS,
            setting: TextureSetting::ClampToEdge,
        },
    );
    emit(
        &mut calls,
        Call::TextureParameter {
            parameter: TextureParameter::WrapT,
            setting: TextureSetting::ClampToEdge,
        },
    );
    emit(
        &mut calls,
        Call::TexImage { width: image.width, height: image.height, pixels: image.data },
    );
    emit(&mut calls, Call::UniformLocation { program, name: sampler_name(unit) });
    calls
}

/// The calls that push the state's uniforms to the GPU.
pub fn apply_uniforms(state: &RenderState) -> (calls: Vec<Call>)
    ensures
        views(calls@) == crate::registry::apply_calls(state@.program, state@.uniforms),
{
    state.uniforms.apply_all(state.program)
}

/// The calls that bind texture `i` to unit `i`, for each texture in order.
pub fn bind_textures(textures: &Vec<u32>) -> (calls: Vec<Call>)
    ensures
        views(calls@) == model::bind_calls(textures@),
{
    let mut calls = no_calls();
    let mut i: usize = 0;
    while i < textures.len()
        invariant
            i <= textures.len(),
            views(calls@) == model::bind_calls(textures@.subrange(0, i as int)),
        decreases textures.len() - i,
    {
        emit(&mut calls, Call::ActiveTexture { unit: i });
        emit(&mut calls, Call::BindTexture { texture: textures[i] });
        assert(views(calls@) =~= model::bind_calls(textures@.subrange(0, i + 1)));
        i += 1;
    }
    assert(textures@.subrange(0, i as int) =~= textures@);
    calls
}

/// The calls that draw one frame from the state.
pub fn draw_frame(state: &RenderState) -> (calls: Vec<Call>)
    ensures
        views(calls@) == model::render_calls(state@),
{
    let zero = FloatBits(0);
    let mut calls = no_calls();
    emit(&mut calls, Call::ClearColor { red: zero, green: zero, blue: zero, alpha: zero });
    emit(&mut calls, Call::ClearColorBuffer);
    append(&mut calls, apply_uniforms(state));
    emit(&mut calls, Call::BindVertexArray { vertex_array: state.vertex_array });
    append(&mut calls, bind_textures(&state.textures));
    emit(&mut calls, Call::DrawTriangleStrip { first: 0, count: 4 });
    emit(&mut calls, Call::Flush);
    assert(views(calls@) =~= model::render_calls(state@));
    calls
}

/// The calls that give back every GPU object of the state.
pub fn release(state: RenderState) -> (calls: Vec<Call>)
    ensures
        views(calls@) == model::delete_calls(state@),
{
    let mut calls = no_calls();
    emit(&mut calls, Call::DeleteProgram { program: state.program });
    emit(&mut calls, Call::DeleteVertexArray { vertex_array: state.vertex_array });
    if state.textures.len() > 0 {
        emit(&mut calls, Call::DeleteTextures { textures: state.textures });
    }
    assert(views(calls@) =~= model::delete_calls(state@));
    calls
}

/// A batch of one call.
fn one_call(call: Call) -> (calls: Vec<Call>)
    ensures
        views(calls@) == seq![call@],
{
    let mut calls = no_calls();
    emit(&mut calls, call);
    calls
}

/// A batch of two calls.
fn two_calls(first: Call, second: Call) -> (calls: Vec<Call>)
    ensures
        views(calls@) == Seq::empty()
            .push(first@)
            .push(second@),
{
    let mut calls = no_calls();
    emit(&mut calls, first);
    emit(&mut calls, second);
    calls
}

/// The calls that make the context current and ask it for errors.
fn context_check() -> (calls: Vec<Call>)
    ensures
        views(calls@) == Seq::empty()
            .push(CallView::MakeCurrent)
            .push(CallView::ContextError),
{
    two_calls(Call::MakeCurrent, Call::ContextError)
}

/// A copy of an image.
fn copy_image(image: &TextureData) -> (copy: TextureData)
    ensures
        copy@ == image@,
{
    TextureData { width: image.width, height: image.height, data: image.data.clone() }
}

/// An image without pixels.
fn no_image() -> (image: TextureData)
    ensures
        image@ == model::no_image(),
{
    TextureData { width: 0, height: 0, data: Vec::new() }
}

impl ShaderArea {
    /// Puts the activation back and waits for the reply to the last call.
    fn goes_on(&mut self, act: Activation, awaiting: Awaiting, calls: Vec<Call>) -> (step: Step)
        ensures
            (final(self)@, step@) == model::goes_on(old(self)@, act@, awaiting, views(calls@)),
    {
        let mut act = act;
        act.awaiting = awaiting;
        self.task = Task::Activating(act);
        Step { calls, outcome: None }
    }

    /// Ends the operation under way.
    fn ends(&mut self, calls: Vec<Call>, outcome: Outcome) -> (step: Step)
        ensures
            (final(self)@, step@) == model::ends(old(self)@, views(calls@), outcome),
    {
        self.task = Task::Idle;
        Step { calls, outcome: Some(outcome) }
    }

    /// Takes up the initial uniform at index `from`, after `calls`.
    fn next_uniform(&mut self, act: Activation, from: usize, calls: Vec<Call>) -> (step: Step)
        ensures
            (final(self)@, step@) == model::after(
                views(calls@),
                model::next_uniform(old(self)@, act@, from as int),
            ),
    {
        proof {
            self.lemma_lengths();
        }
        let ghost given = views(calls@);
        let mut calls = calls;
        if from < self.uniforms.len() {
            let mut act = act;
            act.uniform = from;
            emit(
                &mut calls,
                Call::UniformLocation { program: act.program, name: self.uniforms[from].0.clone() },
            );
            assert(views(calls@) =~= given + seq![
                CallView::UniformLocation {
                    program: act.program,
                    name: self@.uniforms[from as int].0,
                },
            ]);
            self.goes_on(act, Awaiting::Uniform, calls)
        } else {
            self.state = Some(
                RenderState {
                    program: act.program,
                    vertex_array: act.vertex_array,
                    textures: act.textures,
                    uniforms: act.registry,
                },
            );
            assert(views(calls@) =~= views(calls@) + Seq::<CallView>::empty());
            self.ends(calls, Outcome::Activated)
        }
    }

    /// Takes up the texture sources from index `from` on, after `calls`.
    fn next_source(&mut self, act: Activation, from: usize, calls: Vec<Call>) -> (step: Step)
        ensures
            (final(self)@, step@) == model::after(
                views(calls@),
                model::next_source(old(self)@, act@, from as int),
            ),
    {
        proof {
            self.lemma_lengths();
        }
        let ghost wanted = model::after(
            views(calls@),
            model::next_source(self@, act@, from as int),
        );
        let mut batch = calls;
        let mut current = act;
        let mut index = from;
        while index < self.textures.len()
            invariant
                *self == *old(self),
                self@.textures.len() == self.textures.len(),
                wanted == model::after(
                    views(calls@),
                    model::next_source(old(self)@, act@, from as int),
                ),
                wanted == model::after(
                    views(batch@),
                    model::next_source(self@, current@, index as int),
                ),
            decreases self.textures.len() - index,
        {
            let ghost given = views(batch@);
            let ghost next = model::next_source(self@, current@, index as int);
            match &self.textures[index] {
                TextureSource::Path(path) => {
                    current.source = index;
                    emit(&mut batch, Call::ReadFile { path: path.clone() });
                    assert(views(batch@) =~= given + next.1.calls);
                    return self.goes_on(current, Awaiting::File, batch);
                },
                TextureSource::Pixels(pixels) => {
                    if pixels.is_well_formed() {
                        current.source = index;
                        current.image = copy_image(pixels);
                        emit(&mut batch, Call::GenTexture);
                        assert(views(batch@) =~= given + next.1.calls);
                        return self.goes_on(current, Awaiting::Texture, batch);
                    }
                    emit(&mut batch, Call::Report(Notice::TextureLoadFailed { index }));
                    let ghost rest = model::next_source(self@, current@, index + 1);
                    assert(views(batch@) + rest.1.calls =~= given + (model::load_failed(
                        index as int,
                    ) + rest.1.calls));
                    index += 1;
                },
            }
        }
        self.next_uniform(current, 0, batch)
    }
}

impl ShaderArea {
    /// One step of an activation that was taken out of the surface.
    fn activation_step(&mut self, act: Activation, reply: Reply) -> (result: Result<
        Step,
        UnexpectedReply,
    >)
        requires
            old(self)@.idle(),
            model::settled(old(self)@),
            model::activation_wf(old(self)@, act@),
        ensures
            match model::activation_step(old(self)@, act@, reply@) {
                Some(next) => result is Ok && final(self)@ == next.0 && result->Ok_0@ == next.1,
                None => result is Err && final(self)@ == (AreaView {
                    task: TaskView::Activating(act@),
                    ..old(self)@
                }),
            },
    {
        proof {
            self.lemma_lengths();
        }
        let mut act = act;
        match (act.awaiting, reply) {
            (Awaiting::Context, Reply::Flag(error)) => {
                if error {
                    Ok(self.ends(
                            one_call(Call::Report(Notice::ContextUnavailable)),
                            Outcome::ActivationAborted,
                        ))
                } else {
                    Ok(self.goes_on(act, Awaiting::Flavor, one_call(Call::UsesEs)))
                }
            },
            (Awaiting::Flavor, Reply::Flag(es)) => {
                act.es = es;
                Ok(self.goes_on(
                        act,
                        Awaiting::VertexShader,
                        one_call(Call::CreateShader { stage: ShaderStage::Vertex }),
                    ))
            },
            (Awaiting::VertexShader, Reply::Handle(vertex)) => {
                act.vertex = vertex;
                let source = build_vertex_shader(glsl_version(act.es));
                Ok(self.goes_on(act, Awaiting::VertexStatus, compile_shader(vertex, source)))
            },
            (Awaiting::VertexStatus, Reply::Status(status)) => {
                if status == 0 {
                    let calls = one_call(Call::ShaderInfoLog { shader: act.vertex });
                    Ok(self.goes_on(act, Awaiting::VertexLog, calls))
                } else {
                    Ok(self.goes_on(
                            act,
                            Awaiting::FragmentShader,
                            one_call(Call::CreateShader { stage: ShaderStage::Fragment }),
                        ))
                }
            },
            (Awaiting::VertexLog, Reply::Text(log)) => {
                let calls = two_calls(
                    Call::Report(Notice::CompileFailed { stage: ShaderStage::Vertex, log }),
                    Call::CreateShader { stage: ShaderStage::Fragment },
                );
                Ok(self.goes_on(act, Awaiting::FragmentShader, calls))
            },
            (Awaiting::FragmentShader, Reply::Handle(fragment)) => {
                act.fragment = fragment;
                let source = build_fragment_shader(glsl_version(act.es), self.shader.as_str());
                Ok(self.goes_on(act, Awaiting::FragmentStatus, compile_shader(fragment, source)))
            },
            (Awaiting::FragmentStatus, Reply::Status(status)) => {
                if status == 0 {
                    let calls = one_call(Call::ShaderInfoLog { shader: act.fragment });
                    Ok(self.goes_on(act, Awaiting::FragmentLog, calls))
                } else {
                    Ok(self.goes_on(act, Awaiting::Program, one_call(Call::CreateProgram)))
                }
            },
            (Awaiting::FragmentLog, Reply::Text(log)) => {
                let calls = two_calls(
                    Call::Report(Notice::CompileFailed { stage: ShaderStage::Fragment, log }),
                    Call::CreateProgram,
                );
                Ok(self.goes_on(act, Awaiting::Program, calls))
            },
            (Awaiting::Program, Reply::Handle(program)) => {
                act.program = program;
                let calls = link_program(program, act.vertex, act.fragment);
                Ok(self.goes_on(act, Awaiting::LinkStatus, calls))
            },
            (Awaiting::LinkStatus, Reply::Status(status)) => {
                if status == 0 {
                    let calls = one_call(Call::ProgramInfoLog { program: act.program });
                    Ok(self.goes_on(act, Awaiting::ProgramLog, calls))
                } else {
                    let mut calls = no_calls();
                    finish_link(&mut calls, act.vertex, act.fragment);
                    assert(views(calls@) =~= model::after_link_calls(act.vertex, act.fragment));
                    Ok(self.goes_on(act, Awaiting::VertexArray, calls))
                }
            },
            (Awaiting::ProgramLog, Reply::Text(log)) => {
                let mut calls = one_call(Call::Report(Notice::LinkFailed { log }));
                finish_link(&mut calls, act.vertex, act.fragment);
                Ok(self.goes_on(act, Awaiting::VertexArray, calls))
            },
            (Awaiting::VertexArray, Reply::Handle(vertex_array)) => {
                act.vertex_array = vertex_array;
                let calls = two_calls(
                    Call::BindVertexArray { vertex_array },
                    Call::UseProgram { program: act.program },
                );
                Ok(self.next_source(act, 0, calls))
            },
            (Awaiting::File, Reply::Bytes(bytes)) => {
                let image = match (&self.textures[act.source], &bytes) {
                    (TextureSource::Path(path), Some(bytes)) => decode_texture(
                        path.as_str(),
                        bytes.as_slice(),
                    ),
                    _ => None,
                };
                match image {
                    Some(image) => {
                        act.image = image;
                        Ok(self.goes_on(act, Awaiting::Texture, one_call(Call::GenTexture)))
                    },
                    None => {
                        let failed = Notice::TextureLoadFailed { index: act.source };
                        let from = act.source + 1;
                        Ok(self.next_source(act, from, one_call(Call::Report(failed))))
                    },
                }
            },
            (Awaiting::Texture, Reply::Handle(texture)) => {
                let unit = act.textures.len();
                let mut image = no_image();
                core::mem::swap(&mut image, &mut act.image);
                act.textures.push(texture);
                let calls = load_texture(unit, texture, image, act.program);
                Ok(self.goes_on(act, Awaiting::Sampler, calls))
            },
            (Awaiting::Sampler, Reply::Location(location)) => {
                let unit = act.textures.len() - 1;
                let calls = if location >= 0 {
                    one_call(Call::Uniform1i { location, x: #[verifier::truncate] (unit as i32) })
                } else {
                    one_call(Call::Report(Notice::SamplerMissing { unit }))
                };
                let from = act.source + 1;
                Ok(self.next_source(act, from, calls))
            },
            (Awaiting::Uniform, Reply::Location(location)) => {
                let name = self.uniforms[act.uniform].0.clone();
                let value = self.uniforms[act.uniform].1;
                let calls = if location >= 0 {
                    no_calls()
                } else {
                    one_call(Call::Report(Notice::UniformUnused { name: name.clone() }))
                };
                act.registry.seed(name, value, location);
                let from = act.uniform + 1;
                Ok(self.next_uniform(act, from, calls))
            },
            (_, _) => {
                self.task = Task::Activating(act);
                Err(UnexpectedReply)
            },
        }
    }

    /// A frame request goes on with the context's answer.
    fn render_step(&mut self, error: bool) -> (step: Step)
        ensures
            (final(self)@, step@) == model::render_step(old(self)@, error),
    {
        if error {
            self.ends(one_call(Call::Report(Notice::ContextUnavailable)), Outcome::NothingDrawn)
        } else {
            match &self.state {
                Some(state) => {
                    let calls = draw_frame(state);
                    self.ends(calls, Outcome::Drawn)
                },
                None => self.ends(no_calls(), Outcome::NothingDrawn),
            }
        }
    }

    /// A deactivation goes on with the context's answer.
    fn unrealize_step(&mut self, error: bool) -> (step: Step)
        ensures
            (final(self)@, step@) == model::unrealize_step(old(self)@, error),
    {
        if error {
            self.ends(one_call(Call::Report(Notice::ContextUnavailable)), Outcome::CleanupSkipped)
        } else {
            match self.state.take() {
                Some(state) => self.ends(release(state), Outcome::Deactivated),
                None => self.ends(no_calls(), Outcome::Deactivated),
            }
        }
    }

    /// Stores the value under its location, or drops it where the location
    /// is negative.
    fn set_at(&mut self, name: String, value: UniformValue, location: i32) -> (step: Step)
        ensures
            (final(self)@, step@) == model::set_at(old(self)@, name@, value, location),
    {
        match self.state.take() {
            Some(state) => {
                let mut state = state;
                if location >= 0 {
                    state.uniforms.store(name, location, value);
                    self.state = Some(state);
                    self.ends(one_call(Call::QueueRender), Outcome::UniformStored)
                } else {
                    self.state = Some(state);
                    self.ends(
                        one_call(Call::Report(Notice::UniformUnused { name })),
                        Outcome::UniformDropped,
                    )
                }
            },
            None => self.ends(
                one_call(Call::Report(Notice::NotRendering)),
                Outcome::UniformDropped,
            ),
        }
    }

    /// A uniform write goes on with the context's answer.
    fn set_context_step(&mut self, name: String, value: UniformValue, error: bool) -> (step: Step)
        ensures
            (final(self)@, step@) == model::set_context_step(old(self)@, name@, value, error),
    {
        if error {
            return self.ends(
                one_call(Call::Report(Notice::ContextUnavailable)),
                Outcome::UniformDropped,
            );
        }
        let (program, known) = match &self.state {
            Some(state) => (state.program, state.uniforms.get(&name)),
            None => return self.set_at(name, value, 0),
        };
        match known {
            Some(found) => self.set_at(name, value, found.0),
            None => {
                let calls = one_call(Call::UniformLocation { program, name: name.clone() });
                self.task = Task::Setting { name, value, resolving: true };
                Step { calls, outcome: None }
            },
        }
    }

    /// The surface was realized. Begins an activation: the context is made
    /// current and asked for errors. The surface holds no render state at
    /// this point: activation comes first, or follows a deactivation.
    pub fn realize(&mut self) -> (step: Step)
        requires
            old(self)@.idle(),
            !old(self)@.active(),
            old(self)@.wf(),
        ensures
            (final(self)@, step@) == model::begin_realize(old(self)@),
            final(self)@.wf(),
    {
        let act = Activation {
            awaiting: Awaiting::Context,
            es: false,
            vertex: 0,
            fragment: 0,
            program: 0,
            vertex_array: 0,
            textures: Vec::new(),
            source: 0,
            image: no_image(),
            registry: UniformRegistry::new(),
            uniform: 0,
        };
        self.goes_on(act, Awaiting::Context, context_check())
    }

    /// A frame was requested. Begins with asking the context for errors.
    pub fn render(&mut self) -> (step: Step)
        requires
            old(self)@.idle(),
            old(self)@.wf(),
        ensures
            (final(self)@, step@) == model::begin_render(old(self)@),
            final(self)@.wf(),
    {
        self.task = Task::Rendering;
        Step { calls: one_call(Call::ContextError), outcome: None }
    }

    /// The surface was unrealized. Begins a deactivation: the context is made
    /// current and asked for errors.
    pub fn unrealize(&mut self) -> (step: Step)
        requires
            old(self)@.idle(),
            old(self)@.wf(),
        ensures
            (final(self)@, step@) == model::begin_unrealize(old(self)@),
            final(self)@.wf(),
    {
        self.task = Task::Deactivating;
        Step { calls: context_check(), outcome: None }
    }

    /// Sets a uniform. Without render state this is reported and nothing else
    /// happens: the write is not kept for a later activation.
    pub fn set_uniform(&mut self, name: String, value: UniformValue) -> (step: Step)
        requires
            old(self)@.idle(),
            old(self)@.wf(),
        ensures
            (final(self)@, step@) == model::begin_set_uniform(old(self)@, name@, value),
            final(self)@.wf(),
    {
        if self.state.is_some() {
            self.task = Task::Setting { name, value, resolving: false };
            Step { calls: context_check(), outcome: None }
        } else {
            self.ends(one_call(Call::Report(Notice::NotRendering)), Outcome::UniformDropped)
        }
    }

    /// Goes on with the operation under way: takes the reply to the last
    /// call of the batch before and hands back the next batch. A reply that
    /// does not answer that call is refused and changes nothing.
    pub fn resume(&mut self, reply: Reply) -> (result: Result<Step, UnexpectedReply>)
        requires
            old(self)@.wf(),
        ensures
            final(self)@.wf(),
            match model::resume(old(self)@, reply@) {
                Some(next) => result is Ok && final(self)@ == next.0 && result->Ok_0@ == next.1,
                None => result is Err && final(self)@ == old(self)@,
            },
    {
        proof {
            model::lemma_resume_wf(self@, reply@);
        }
        let mut task = Task::Idle;
        core::mem::swap(&mut task, &mut self.task);
        match task {
            Task::Idle => Err(UnexpectedReply),
            Task::Activating(act) => {
                proof {
                    model::lemma_activation_step_ignores_task(old(self)@, self@, act@, reply@);
                }
                self.activation_step(act, reply)
            },
            Task::Rendering => match reply {
                Reply::Flag(error) => Ok(self.render_step(error)),
                _ => {
                    self.task = Task::Rendering;
                    Err(UnexpectedReply)
                },
            },
            Task::Deactivating => match reply {
                Reply::Flag(error) => Ok(self.unrealize_step(error)),
                _ => {
                    self.task = Task::Deactivating;
                    Err(UnexpectedReply)
                },
            },
            Task::Setting { name, value, resolving } => match (resolving, reply) {
                (false, Reply::Flag(error)) => Ok(self.set_context_step(name, value, error)),
                (true, Reply::Location(location)) => Ok(self.set_at(name, value, location)),
                (_, _) => {
                    self.task = Task::Setting { name, value, resolving };
                    Err(UnexpectedReply)
                },
            },
        }
    }
}

/// Sets a uniform of `area`; see [`ShaderArea::set_uniform`].
pub fn set_uniform(area: &mut ShaderArea, name: &str, value: UniformValue) -> (step: Step)
    requires
        old(area)@.idle(),
        old(area)@.wf(),
    ensures
        (final(area)@, step@) == model::begin_set_uniform(old(area)@, name@, value),
        final(area)@.wf(),
{
    area.set_uniform(String::from_str(name), value)
}

} // verus!

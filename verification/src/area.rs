//! The surface: what it was made with, the render state it holds while it is
//! active, and the operation it is in the middle of.

use vstd::prelude::*;
use crate::model::{ActivationView, AreaView, Awaiting, RenderStateView, TaskView};
use crate::named::{fold_uniforms, folded, names_are_distinct, uniform_views};
use crate::registry::UniformRegistry;
use crate::texture::{source_views, TextureData, TextureSource, TextureSourceView};
use crate::value::UniformValue;

verus! {

/// The GPU objects and uniforms of an active surface.
#[derive(Clone, Debug, PartialEq, Eq)]
pub struct RenderState {
    /// The linked program.
    pub program: u32,
    /// The vertex array that core profiles ask for.
    pub vertex_array: u32,
    /// The textures; the one at index `i` belongs on unit `i`.
    pub textures: Vec<u32>,
    /// Locations and values of the uniforms.
    pub uniforms: UniformRegistry,
}

impl View for RenderState {
    type V = RenderStateView;

    open spec fn view(&self) -> RenderStateView {
        RenderStateView {
            program: self.program,
            vertex_array: self.vertex_array,
            textures: self.textures@,
            uniforms: self.uniforms@,
        }
    }
}

/// An activation under way: what the driver has handed out so far.
#[derive(Clone, Debug, PartialEq, Eq)]
pub struct Activation {
    pub awaiting: Awaiting,
    pub es: bool,
    pub vertex: u32,
    pub fragment: u32,
    pub program: u32,
    pub vertex_array: u32,
    pub textures: Vec<u32>,
    /// Index of the texture source in hand.
    pub source: usize,
    /// The pixels waiting for their texture object.
    pub image: TextureData,
    pub registry: UniformRegistry,
    /// Index of the initial uniform in hand.
    pub uniform: usize,
}

impl View for Activation {
    type V = ActivationView;

    open spec fn view(&self) -> ActivationView {
        ActivationView {
            awaiting: self.awaiting,
            es: self.es,
            vertex: self.vertex,
            fragment: self.fragment,
            program: self.program,
            vertex_array: self.vertex_array,
            textures: self.textures@,
            source: self.source,
            image: self.image@,
            registry: self.registry@,
            uniform: self.uniform,
        }
    }
}

/// What a surface is in the middle of.
#[derive(Clone, Debug, PartialEq, Eq)]
pub enum Task {
    /// Nothing: the surface takes the next operation.
    Idle,
    /// An activation.
    Activating(Activation),
    /// A frame request, waiting to hear of the context.
    Rendering,
    /// A deactivation, waiting to hear of the context.
    Deactivating,
    /// A uniform write, waiting to hear of the context or, when `resolving`,
    /// of the uniform's location.
    Setting { name: String, value: UniformValue, resolving: bool },
}

impl View for Task {
    type V = TaskView;

    open spec fn view(&self) -> TaskView {
        match self {
            Task::Idle => TaskView::Idle,
            Task::Activating(act) => TaskView::Activating(act@),
            Task::Rendering => TaskView::Rendering,
            Task::Deactivating => TaskView::Deactivating,
            Task::Setting { name, value, resolving } => TaskView::Setting {
                name: name@,
                value: *value,
                resolving: *resolving,
            },
        }
    }
}

/// Ghost image of a render state that may be missing.
pub open spec fn state_view(state: Option<RenderState>) -> Option<RenderStateView> {
    match state {
        Some(state) => Some(state@),
        None => None,
    }
}

/// A drawing surface that renders a fragment shader over a fullscreen quad.
#[derive(Clone, Debug, PartialEq, Eq)]
pub struct ShaderArea {
    /// The fragment stage as the caller wrote it, without a header.
    pub shader: String,
    /// The texture sources, in the order of their units.
    pub textures: Vec<TextureSource>,
    /// The initial uniforms, each name once.
    pub uniforms: Vec<(String, UniformValue)>,
    /// The render state; `Some` while the surface is active.
    pub state: Option<RenderState>,
    /// The operation under way.
    pub task: Task,
}

impl View for ShaderArea {
    type V = AreaView;

    open spec fn view(&self) -> AreaView {
        AreaView {
            shader: self.shader@,
            textures: source_views(self.textures@),
            uniforms: uniform_views(self.uniforms@),
            state: state_view(self.state),
            task: self.task@,
        }
    }
}

/// The surface as it is made: inactive and idle.
pub open spec fn created(
    shader: Seq<char>,
    textures: Seq<TextureSourceView>,
    uniforms: Seq<(Seq<char>, UniformValue)>,
) -> AreaView {
    AreaView { shader, textures, uniforms, state: None, task: TaskView::Idle }
}

/// The sources that a list of image paths stands for.
pub open spec fn path_sources(paths: Seq<String>) -> Seq<TextureSourceView> {
    paths.map_values(|path: String| TextureSourceView::Path(path@))
}

/// The sources that a list of decoded images stands for.
pub open spec fn pixel_sources(images: Seq<TextureData>) -> Seq<TextureSourceView> {
    images.map_values(|image: TextureData| TextureSourceView::Pixels(image@))
}

fn sources_of_paths(paths: Vec<String>) -> (sources: Vec<TextureSource>)
    ensures
        source_views(sources@) == path_sources(paths@),
{
    let mut sources: Vec<TextureSource> = Vec::new();
    let mut i: usize = 0;
    while i < paths.len()
        invariant
            i <= paths.len(),
            sources@.len() == i,
            forall|k: int|
                0 <= k < i ==> (#[trigger] sources@[k])@ == TextureSourceView::Path(paths@[k]@),
        decreases paths.len() - i,
    {
        sources.push(TextureSource::Path(paths[i].clone()));
        i += 1;
    }
    assert(source_views(sources@) =~= path_sources(paths@));
    sources
}

fn sources_of_pixels(images: Vec<TextureData>) -> (sources: Vec<TextureSource>)
    ensures
        source_views(sources@) == pixel_sources(images@),
{
    let mut sources: Vec<TextureSource> = Vec::new();
    let mut images = images;
    let ghost all = images@;
    let mut rest: Vec<TextureSource> = Vec::new();
    while images.len() > 0
        invariant
            images@.len() + rest@.len() == all.len(),
            images@ =~= all.subrange(0, images@.len() as int),
            forall|k: int|
                0 <= k < rest@.len() ==> (#[trigger] rest@[k])@ == TextureSourceView::Pixels(
                    all[all.len() - 1 - k]@,
                ),
        decreases images.len(),
    {
        let image = images.pop().unwrap();
        rest.push(TextureSource::Pixels(image));
    }
    while rest.len() > 0
        invariant
            rest@.len() + sources@.len() == all.len(),
            forall|k: int|
                0 <= k < rest@.len() ==> (#[trigger] rest@[k])@ == TextureSourceView::Pixels(
                    all[all.len() - 1 - k]@,
                ),
            forall|k: int|
                0 <= k < sources@.len() ==> (#[trigger] sources@[k])@
                    == TextureSourceView::Pixels(all[k]@),
        decreases rest.len(),
    {
        let source = rest.pop().unwrap();
        sources.push(source);
    }
    assert(source_views(sources@) =~= pixel_sources(all));
    sources
}

impl ShaderArea {
    /// A surface for `shader` whose textures are image files. Texture `i` is
    /// what the shader samples as `tex{i}`, counting the files that load. Of
    /// two initial uniforms with one name the later one counts.
    #[must_use]
    pub fn new(
        shader: String,
        textures: Vec<String>,
        uniforms: Vec<(String, UniformValue)>,
    ) -> (area: ShaderArea)
        ensures
            area@ == created(
                shader@,
                path_sources(textures@),
                folded(uniform_views(uniforms@)),
            ),
            area@.wf(),
    {
        let mut area = ShaderArea {
            shader: String::new(),
            textures: Vec::new(),
            uniforms: Vec::new(),
            state: None,
            task: Task::Idle,
        };
        area.initialize(shader, textures, uniforms);
        area
    }

    /// A surface for `shader` with textures of either kind. Of two initial
    /// uniforms with one name the later one counts.
    #[must_use]
    pub fn with_sources(
        shader: String,
        textures: Vec<TextureSource>,
        uniforms: Vec<(String, UniformValue)>,
    ) -> (area: ShaderArea)
        ensures
            area@ == created(
                shader@,
                source_views(textures@),
                folded(uniform_views(uniforms@)),
            ),
            area@.wf(),
    {
        let uniforms = fold_uniforms(uniforms);
        let area = ShaderArea { shader, textures, uniforms, state: None, task: Task::Idle };
        proof {
            area.lemma_lengths();
        }
        area
    }

    /// Gives the surface its shader, texture files and initial uniforms.
    /// They count from the next activation on; the render state stays.
    pub fn initialize(
        &mut self,
        shader: String,
        textures: Vec<String>,
        uniforms: Vec<(String, UniformValue)>,
    )
        requires
            old(self)@.idle(),
            old(self)@.wf(),
        ensures
            final(self)@ == (AreaView {
                shader: shader@,
                textures: path_sources(textures@),
                uniforms: folded(uniform_views(uniforms@)),
                ..old(self)@
            }),
            final(self)@.wf(),
    {
        self.shader = shader;
        self.textures = sources_of_paths(textures);
        self.uniforms = fold_uniforms(uniforms);
        proof {
            self.lemma_lengths();
        }
    }

    /// The lists of sources and initial uniforms can be indexed.
    pub proof fn lemma_lengths(&self)
        ensures
            self@.textures.len() == self.textures.len() <= usize::MAX,
            self@.uniforms.len() == self.uniforms.len() <= usize::MAX,
    {
    }

    /// Whether the surface is between operations.
    pub fn is_idle(&self) -> (idle: bool)
        ensures
            idle == self@.idle(),
    {
        match &self.task {
            Task::Idle => true,
            _ => false,
        }
    }

    /// Whether the surface's invariant holds. It does for every surface that
    /// was made and changed through the functions of this crate.
    pub fn is_well_formed(&self) -> (ok: bool)
        ensures
            ok == self@.wf(),
    {
        proof {
            self.lemma_lengths();
        }
        let state_ok = match &self.state {
            Some(state) => state.uniforms.is_well_formed(),
            None => true,
        };
        let task_ok = match &self.task {
            Task::Activating(act) => {
                let source_ok = match act.awaiting {
                    Awaiting::File | Awaiting::Texture | Awaiting::Sampler => act.source
                        < self.textures.len(),
                    _ => true,
                };
                let sampler_ok = match act.awaiting {
                    Awaiting::Sampler => act.textures.len() >= 1,
                    _ => true,
                };
                let uniform_ok = match act.awaiting {
                    Awaiting::Uniform => act.uniform < self.uniforms.len(),
                    _ => true,
                };
                let textures_ok = source_ok && match act.awaiting {
                    Awaiting::File | Awaiting::Texture => act.textures.len() <= act.source,
                    Awaiting::Sampler => act.textures.len() <= act.source + 1,
                    Awaiting::Uniform => act.textures.len() <= self.textures.len(),
                    _ => act.textures.len() == 0,
                };
                act.registry.is_well_formed() && act.image.is_well_formed() && source_ok
                    && sampler_ok && uniform_ok && textures_ok
            },
            _ => true,
        };
        state_ok && task_ok && names_are_distinct(&self.uniforms)
    }

    /// Whether the surface holds render state.
    pub fn is_active(&self) -> (active: bool)
        ensures
            active == self@.active(),
    {
        self.state.is_some()
    }
}

/// A surface for `fragment_shader` whose textures are decoded already. Of
/// two initial uniforms with one name the later one counts.
#[must_use]
pub fn new_area_for_shader(
    fragment_shader: String,
    textures: Vec<TextureData>,
    uniforms: Vec<(String, UniformValue)>,
) -> (area: ShaderArea)
    ensures
        area@ == created(
            fragment_shader@,
            pixel_sources(textures@),
            folded(uniform_views(uniforms@)),
        ),
        area@.wf(),
{
    ShaderArea::with_sources(fragment_shader, sources_of_pixels(textures), uniforms)
}

} // verus!

//! What holds of every surface, stated over the transition system and proved.

use vstd::prelude::*;
use crate::call::{CallView, NoticeView, Outcome, ReplyView, StepView};
use crate::model::{
    begin_render, begin_set_uniform, bind_calls, next_source, render_calls, render_step, resume,
    ActivationView, AreaView, Awaiting, RenderStateView, TaskView,
};
use crate::registry::{
    knows, lemma_position_names, lemma_stored_well_formed, lookup, position, stored, upload,
    uploads, UniformEntryView,
};
use crate::shader::sampler_name_of;
use crate::texture::{decoded_texture, TextureDataView, TextureSourceView};
use crate::value::UniformValue;

verus! {

/// The calls of one frame on a context that is in order.
pub open spec fn frame(area: AreaView) -> Seq<CallView> {
    render_step(begin_render(area).0, false).1.calls
}

/// A whole uniform write on a context that is in order, with a driver that
/// answers `location` if it is asked where the uniform lives.
pub open spec fn written(area: AreaView, name: Seq<char>, value: UniformValue, location: i32) -> (
    AreaView,
    StepView,
) {
    let begun = begin_set_uniform(area, name, value);
    if begun.1.outcome is Some {
        begun
    } else {
        let checked = resume(begun.0, ReplyView::Flag(false)).unwrap();
        if checked.1.outcome is Some {
            checked
        } else {
            resume(checked.0, ReplyView::Location(location)).unwrap()
        }
    }
}

/// Every entry of the registry is uploaded with each frame, by the call for
/// its shape and with the value it holds.
pub proof fn lemma_frame_uploads(state: RenderStateView, name: Seq<char>)
    requires
        knows(state.uniforms, name),
    ensures
        ({
            let entry = lookup(state.uniforms, name).unwrap();
            &&& entry.name == name
            &&& render_calls(state)[3 + position(state.uniforms, name)] == upload(
                entry.location,
                entry.value,
            )
            &&& render_calls(state).contains(upload(entry.location, entry.value))
        }),
{
    lemma_position_names(state.uniforms, name, 0);
    let at = position(state.uniforms, name);
    let entry = state.uniforms[at];
    assert(uploads(state.uniforms)[at] == upload(entry.location, entry.value));
    assert(render_calls(state)[3 + at] == upload(entry.location, entry.value));
}

/// Uniform round trip. On an active surface a write ends in one of two
/// ways. Where the program has the uniform, at the location the registry
/// knows or the driver answers, the value is stored under the name and every
/// frame from then on uploads exactly that value to that location. Where
/// the program has no such uniform, the write is dropped and the surface is
/// as it was. Either way the surface keeps its GPU objects.
pub proof fn lemma_uniform_round_trip(
    area: AreaView,
    name: Seq<char>,
    value: UniformValue,
    location: i32,
)
    requires
        area.wf(),
        area.idle(),
        area.active(),
    ensures
        ({
            let uniforms = area.state.unwrap().uniforms;
            let end = written(area, name, value, location);
            let at = if knows(uniforms, name) {
                lookup(uniforms, name).unwrap().location
            } else {
                location
            };
            &&& end.0.idle()
            &&& end.0.wf()
            &&& end.0.active()
            &&& end.0.state.unwrap().program == area.state.unwrap().program
            &&& end.0.state.unwrap().vertex_array == area.state.unwrap().vertex_array
            &&& end.0.state.unwrap().textures == area.state.unwrap().textures
            &&& at >= 0 ==> {
                &&& end.1.outcome == Some(Outcome::UniformStored)
                &&& end.0.active()
                &&& lookup(end.0.state.unwrap().uniforms, name) == Some(
                    UniformEntryView { name, location: at, value },
                )
                &&& frame(end.0).contains(upload(at, value))
            }
            &&& at < 0 ==> {
                &&& end.1.outcome == Some(Outcome::UniformDropped)
                &&& end.0 == area
            }
        }),
{
    let state = area.state.unwrap();
    let at = if knows(state.uniforms, name) {
        lookup(state.uniforms, name).unwrap().location
    } else {
        location
    };
    lemma_position_names(state.uniforms, name, 0);
    if at >= 0 {
        lemma_stored_well_formed(state.uniforms, name, at, value);
        let end = written(area, name, value, location);
        let after = end.0.state.unwrap();
        assert(after.uniforms == stored(state.uniforms, name, at, value));
        lemma_frame_uploads(after, name);
    }
}

/// A write to a surface without render state is dropped: it is reported,
/// asks nothing of the driver, and is not kept for a later activation.
pub proof fn lemma_write_before_activation(area: AreaView, name: Seq<char>, value: UniformValue)
    requires
        area.idle(),
        !area.active(),
    ensures
        begin_set_uniform(area, name, value) == (
            area,
            StepView {
                calls: seq![CallView::Report(NoticeView::NotRendering)],
                outcome: Some(Outcome::UniformDropped),
            },
        ),
{
}

/// An activation goes on past a uniform the driver disowns: the name is
/// reported, the registry stays as it is, and the next uniform is taken up.
pub proof fn lemma_activation_survives_unknown_uniform(
    area: AreaView,
    act: ActivationView,
    location: i32,
)
    requires
        area.task == TaskView::Activating(act),
        act.awaiting == Awaiting::Uniform,
        act.uniform < area.uniforms.len(),
        location < 0,
    ensures
        ({
            let next = resume(area, ReplyView::Location(location)).unwrap();
            &&& resume(area, ReplyView::Location(location)) is Some
            &&& next.1.calls.first() == CallView::Report(
                NoticeView::UniformUnused { name: area.uniforms[act.uniform as int].0 },
            )
            &&& match next.0.task {
                TaskView::Activating(later) => later.registry == act.registry,
                _ => next.0.state == Some(crate::model::built(act)),
            }
        }),
{
}

/// Texture indexing at every frame: unit `i` is selected and texture `i` of
/// the state is bound to it, for each texture in order. The bindings stand
/// together, after the uniforms and the vertex array.
pub proof fn lemma_frame_binds_textures(state: RenderStateView, i: int)
    requires
        0 <= i < state.textures.len(),
    ensures
        bind_calls(state.textures).len() == 2 * state.textures.len(),
        bind_calls(state.textures)[2 * i] == (CallView::ActiveTexture { unit: i as usize }),
        bind_calls(state.textures)[2 * i + 1] == (CallView::BindTexture {
            texture: state.textures[i],
        }),
        render_calls(state).subrange(
            4 + state.uniforms.len() as int,
            4 + state.uniforms.len() + 2 * state.textures.len() as int,
        ) == bind_calls(state.textures),
{
    let from = 4 + state.uniforms.len() as int;
    let to = from + 2 * state.textures.len() as int;
    assert(render_calls(state).subrange(from, to) =~= bind_calls(state.textures));
}

/// Texture indexing at activation: the texture that loads when `k` others
/// have loaded before it becomes texture `k` of the surface, is uploaded on
/// unit `k` with the pixels of the image in hand, and its sampler is asked
/// for under the name `tex` followed by `k` in decimal. Sources that fail
/// leave no gap.
pub proof fn lemma_texture_takes_next_unit(area: AreaView, act: ActivationView, texture: u32)
    requires
        area.wf(),
        area.task == TaskView::Activating(act),
        act.awaiting == Awaiting::Texture,
    ensures
        ({
            let unit = act.textures.len() as usize;
            let next = resume(area, ReplyView::Handle(texture)).unwrap();
            &&& resume(area, ReplyView::Handle(texture)) is Some
            &&& next.1.calls.len() == 8
            &&& next.1.calls[0] == (CallView::ActiveTexture { unit })
            &&& next.1.calls[1] == (CallView::BindTexture { texture })
            &&& next.1.calls[6] == (CallView::TexImage {
                width: act.image.width,
                height: act.image.height,
                pixels: act.image.data,
            })
            &&& next.1.calls[7] == (CallView::UniformLocation {
                program: act.program,
                name: sampler_name_of(unit as nat),
            })
            &&& match next.0.task {
                TaskView::Activating(later) => {
                    &&& later.awaiting == Awaiting::Sampler
                    &&& later.textures == act.textures.push(texture)
                    &&& later.textures[unit as int] == texture
                },
                _ => false,
            }
        }),
{
}

/// The sampler of the texture just uploaded is pointed at that texture's
/// unit where the program has it, and reported where it has not.
pub proof fn lemma_sampler_points_at_unit(area: AreaView, act: ActivationView, location: i32)
    requires
        area.wf(),
        area.task == TaskView::Activating(act),
        act.awaiting == Awaiting::Sampler,
    ensures
        ({
            let unit = (act.textures.len() - 1) as usize;
            let next = resume(area, ReplyView::Location(location)).unwrap();
            &&& resume(area, ReplyView::Location(location)) is Some
            &&& next.1.calls.first() == if location >= 0 {
                CallView::Uniform1i { location, x: unit as i32 }
            } else {
                CallView::Report(NoticeView::SamplerMissing { unit })
            }
        }),
{
    let next = next_source(area, act, act.source + 1);
    let first = if location >= 0 {
        seq![CallView::Uniform1i { location, x: ((act.textures.len() - 1) as usize) as i32 }]
    } else {
        seq![
            CallView::Report(
                NoticeView::SamplerMissing { unit: (act.textures.len() - 1) as usize },
            ),
        ]
    };
    assert((first + next.1.calls)[0] == first[0]);
}

/// Context error short circuit. Where the context reports an error at the
/// start of a frame, the frame ends at once: the error is reported, no
/// uniform is pushed, nothing is bound or drawn, and the surface keeps its
/// state.
pub proof fn lemma_context_error_draws_nothing(area: AreaView)
    requires
        area.idle(),
    ensures
        resume(begin_render(area).0, ReplyView::Flag(true)) == Some(
            (
                area,
                StepView {
                    calls: seq![CallView::Report(NoticeView::ContextUnavailable)],
                    outcome: Some(Outcome::NothingDrawn),
                },
            ),
        ),
{
}

/// A context error at activation leaves no partial state: nothing is
/// created and the surface is as it was.
pub proof fn lemma_context_error_aborts_activation(area: AreaView)
    requires
        area.idle(),
    ensures
        resume(crate::model::begin_realize(area).0, ReplyView::Flag(true)) == Some(
            (
                area,
                StepView {
                    calls: seq![CallView::Report(NoticeView::ContextUnavailable)],
                    outcome: Some(Outcome::ActivationAborted),
                },
            ),
        ),
{
}

/// A context error at deactivation skips the cleanup: nothing is deleted
/// and the render state stays with the surface.
pub proof fn lemma_context_error_skips_cleanup(area: AreaView)
    requires
        area.idle(),
    ensures
        resume(crate::model::begin_unrealize(area).0, ReplyView::Flag(true)) == Some(
            (
                area,
                StepView {
                    calls: seq![CallView::Report(NoticeView::ContextUnavailable)],
                    outcome: Some(Outcome::CleanupSkipped),
                },
            ),
        ),
{
}

/// Frames leave the surface as it is: whatever the context answers, a frame
/// request ends idle with the same render state.
pub proof fn lemma_frame_keeps_state(area: AreaView, error: bool)
    requires
        area.idle(),
    ensures
        resume(begin_render(area).0, ReplyView::Flag(error)) is Some,
        resume(begin_render(area).0, ReplyView::Flag(error)).unwrap().0 == area,
        resume(begin_render(area).0, ReplyView::Flag(error)).unwrap().1.outcome.unwrap().is_frame(),
{
}

/// How many replies an activation may still need once it has its vertex
/// array: three for each texture source not yet taken up, one for each
/// initial uniform, and one to spare.
pub open spec fn replies_for_inputs(area: AreaView, from: int) -> int {
    3 * (area.textures.len() - from) + area.uniforms.len() + 1
}

/// An upper bound on the replies the operation under way still needs.
pub open spec fn steps_left(area: AreaView) -> int {
    match area.task {
        TaskView::Idle => 0,
        TaskView::Rendering => 1,
        TaskView::Deactivating => 1,
        TaskView::Setting { resolving, .. } => if resolving {
            1
        } else {
            2
        },
        TaskView::Activating(act) => match act.awaiting {
            Awaiting::Context => 13 + replies_for_inputs(area, 0),
            Awaiting::Flavor => 12 + replies_for_inputs(area, 0),
            Awaiting::VertexShader => 11 + replies_for_inputs(area, 0),
            Awaiting::VertexStatus => 10 + replies_for_inputs(area, 0),
            Awaiting::VertexLog => 9 + replies_for_inputs(area, 0),
            Awaiting::FragmentShader => 8 + replies_for_inputs(area, 0),
            Awaiting::FragmentStatus => 7 + replies_for_inputs(area, 0),
            Awaiting::FragmentLog => 6 + replies_for_inputs(area, 0),
            Awaiting::Program => 5 + replies_for_inputs(area, 0),
            Awaiting::LinkStatus => 4 + replies_for_inputs(area, 0),
            Awaiting::ProgramLog => 3 + replies_for_inputs(area, 0),
            Awaiting::VertexArray => 2 + replies_for_inputs(area, 0),
            Awaiting::File => replies_for_inputs(area, act.source as int),
            Awaiting::Texture => replies_for_inputs(area, act.source as int) - 1,
            Awaiting::Sampler => replies_for_inputs(area, act.source as int) - 2,
            Awaiting::Uniform => area.uniforms.len() - act.uniform,
        },
    }
}

proof fn lemma_next_source_nears_the_end(area: AreaView, act: ActivationView, from: int)
    requires
        0 <= from <= area.textures.len() <= usize::MAX,
        area.uniforms.len() <= usize::MAX,
    ensures
        0 <= steps_left(next_source(area, act, from).0) <= replies_for_inputs(area, from),
    decreases area.textures.len() - from,
{
    if from < area.textures.len() {
        match area.textures[from] {
            TextureSourceView::Path(_) => {},
            TextureSourceView::Pixels(pixels) => {
                if !pixels.well_formed() {
                    lemma_next_source_nears_the_end(area, act, from + 1);
                }
            },
        }
    }
}

/// Every operation ends. Each reply brings the surface closer to idle, so
/// the host's loop comes to an end after at most `steps_left` replies: two
/// for a frame or a deactivation, three for a uniform write, and for an
/// activation fourteen and three for each texture and one for each initial
/// uniform.
pub proof fn lemma_every_step_nears_the_end(area: AreaView, reply: ReplyView)
    requires
        area.wf(),
        resume(area, reply) is Some,
    ensures
        0 <= steps_left(resume(area, reply).unwrap().0) < steps_left(area),
        steps_left(area) == 0 <==> area.idle(),
{
    match area.task {
        TaskView::Activating(act) => {
            match (act.awaiting, reply) {
                (Awaiting::VertexArray, ReplyView::Handle(vertex_array)) => {
                    lemma_next_source_nears_the_end(
                        area,
                        ActivationView { vertex_array, ..act },
                        0,
                    );
                },
                (Awaiting::File, ReplyView::Bytes(_)) => {
                    lemma_next_source_nears_the_end(area, act, act.source + 1);
                },
                (Awaiting::Sampler, ReplyView::Location(_)) => {
                    lemma_next_source_nears_the_end(area, act, act.source + 1);
                },
                _ => {},
            }
        },
        _ => {},
    }
}

/// Whether `image` is what the source holds: its pixels, or what some
/// content of its file decodes to.
pub open spec fn image_of(source: TextureSourceView, image: TextureDataView) -> bool {
    match source {
        TextureSourceView::Pixels(pixels) => image == pixels,
        TextureSourceView::Path(path) => exists|bytes: Seq<u8>|
            decoded_texture(path, bytes) == Some(image),
    }
}

/// Whether an activation that waits for a texture object holds the image of
/// the very source it has in hand.
pub open spec fn image_in_hand(area: AreaView) -> bool {
    match area.task {
        TaskView::Activating(act) => act.awaiting == Awaiting::Texture ==> {
            &&& act.source < area.textures.len()
            &&& image_of(area.textures[act.source as int], act.image)
        },
        _ => true,
    }
}

proof fn lemma_next_source_takes_its_image(area: AreaView, act: ActivationView, from: int)
    requires
        0 <= from,
        area.textures.len() <= usize::MAX,
    ensures
        image_in_hand(next_source(area, act, from).0),
        match next_source(area, act, from).0.task {
            TaskView::Activating(later) => later.awaiting == Awaiting::Uniform || later.source
                >= from,
            _ => true,
        },
    decreases area.textures.len() - from,
{
    if from < area.textures.len() {
        match area.textures[from] {
            TextureSourceView::Path(_) => {},
            TextureSourceView::Pixels(pixels) => {
                if !pixels.well_formed() {
                    lemma_next_source_takes_its_image(area, act, from + 1);
                }
            },
        }
    }
}

/// Textures come from their sources, in the order of the sources. Whenever
/// an activation asks for a texture object, the image it will upload is that
/// of the source in hand; and the source in hand only moves forward, past
/// the one just uploaded, so a later texture is of a later source.
pub proof fn lemma_step_keeps_image_in_hand(area: AreaView, reply: ReplyView)
    requires
        area.wf(),
        image_in_hand(area),
        resume(area, reply) is Some,
    ensures
        image_in_hand(resume(area, reply).unwrap().0),
        match (area.task, resume(area, reply).unwrap().0.task) {
            (TaskView::Activating(act), TaskView::Activating(later)) => {
                let among_sources = |awaiting: Awaiting|
                    awaiting == Awaiting::File || awaiting == Awaiting::Texture || awaiting
                        == Awaiting::Sampler;
                &&& among_sources(act.awaiting) && among_sources(later.awaiting) ==> later.source
                    >= act.source
                &&& act.awaiting == Awaiting::Sampler && among_sources(later.awaiting)
                    ==> later.source > act.source
            },
            _ => true,
        },
{
    match area.task {
        TaskView::Activating(act) => {
            match (act.awaiting, reply) {
                (Awaiting::VertexArray, ReplyView::Handle(vertex_array)) => {
                    lemma_next_source_takes_its_image(
                        area,
                        ActivationView { vertex_array, ..act },
                        0,
                    );
                },
                (Awaiting::File, ReplyView::Bytes(bytes)) => {
                    lemma_next_source_takes_its_image(area, act, act.source + 1);
                },
                (Awaiting::Sampler, ReplyView::Location(_)) => {
                    lemma_next_source_takes_its_image(area, act, act.source + 1);
                },
                _ => {},
            }
        },
        _ => {},
    }
}

} // verus!

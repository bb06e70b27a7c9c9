//! Bookkeeping of GPU objects: what a run of calls creates and deletes, what
//! a surface holds, and the proof that the two always agree.

use vstd::prelude::*;
use crate::call::{CallView, NoticeView, ReplyView};
use crate::history::{accepts, one_activation, orderly, react, run, Event};
use crate::history::{
    lemma_first_event_accepted, lemma_history_keeps_inputs, lemma_history_keeps_invariant,
};
use crate::model::{
    bind_calls, delete_calls, next_source, next_uniform, render_calls, resume, ActivationView,
    AreaView, Awaiting, RenderStateView, TaskView,
};
use crate::registry::{seeded, uploads};
use crate::tally::{group_tally, lemma_tally_nothing, tally};
use crate::texture::TextureSourceView;

verus! {

/// The kinds of GPU object the surface creates.
#[derive(Clone, Copy, Debug, PartialEq, Eq, Structural)]
pub enum Resource {
    Shader,
    Program,
    VertexArray,
    Texture,
}

/// How many objects of `kind` a call creates.
pub open spec fn creates(call: CallView, kind: Resource) -> int {
    match (call, kind) {
        (CallView::CreateShader { .. }, Resource::Shader) => 1,
        (CallView::CreateProgram, Resource::Program) => 1,
        (CallView::GenVertexArray, Resource::VertexArray) => 1,
        (CallView::GenTexture, Resource::Texture) => 1,
        _ => 0,
    }
}

/// How many objects of `kind` a call deletes.
pub open spec fn deletes(call: CallView, kind: Resource) -> int {
    match (call, kind) {
        (CallView::DeleteShader { .. }, Resource::Shader) => 1,
        (CallView::DeleteProgram { .. }, Resource::Program) => 1,
        (CallView::DeleteVertexArray { .. }, Resource::VertexArray) => 1,
        (CallView::DeleteTextures { textures }, Resource::Texture) => textures.len() as int,
        _ => 0,
    }
}

/// How many objects of `kind` a run of calls creates.
pub open spec fn allocations(calls: Seq<CallView>, kind: Resource) -> int {
    tally(calls, |call: CallView| creates(call, kind))
}

/// How many objects of `kind` a run of calls deletes.
pub open spec fn deallocations(calls: Seq<CallView>, kind: Resource) -> int {
    tally(calls, |call: CallView| deletes(call, kind))
}

/// What a run of calls leaves behind: creations less deletions.
pub open spec fn surplus(calls: Seq<CallView>, kind: Resource) -> int {
    allocations(calls, kind) - deallocations(calls, kind)
}

/// Drawing a frame creates nothing and deletes nothing.
pub proof fn lemma_frame_is_inert(state: RenderStateView, kind: Resource)
    ensures
        allocations(render_calls(state), kind) == 0,
        deallocations(render_calls(state), kind) == 0,
{
    broadcast use group_tally;

    let made = |call: CallView| creates(call, kind);
    let freed = |call: CallView| deletes(call, kind);
    lemma_tally_nothing(uploads(state.uniforms), made);
    lemma_tally_nothing(uploads(state.uniforms), freed);
    lemma_tally_nothing(bind_calls(state.textures), made);
    lemma_tally_nothing(bind_calls(state.textures), freed);
}

/// How many objects of `kind` an activation under way answers for: those it
/// has a handle of, and the one it has asked for and not heard of yet.
pub open spec fn in_hand(act: ActivationView, kind: Resource) -> int {
    match kind {
        Resource::Shader => match act.awaiting {
            Awaiting::VertexShader | Awaiting::VertexStatus | Awaiting::VertexLog => 1,
            Awaiting::FragmentShader
            | Awaiting::FragmentStatus
            | Awaiting::FragmentLog
            | Awaiting::Program
            | Awaiting::LinkStatus
            | Awaiting::ProgramLog => 2,
            _ => 0,
        },
        Resource::Program => match act.awaiting {
            Awaiting::Program
            | Awaiting::LinkStatus
            | Awaiting::ProgramLog
            | Awaiting::VertexArray
            | Awaiting::File
            | Awaiting::Texture
            | Awaiting::Sampler
            | Awaiting::Uniform => 1,
            _ => 0,
        },
        Resource::VertexArray => match act.awaiting {
            Awaiting::VertexArray
            | Awaiting::File
            | Awaiting::Texture
            | Awaiting::Sampler
            | Awaiting::Uniform => 1,
            _ => 0,
        },
        Resource::Texture => act.textures.len() + if act.awaiting == Awaiting::Texture {
            1int
        } else {
            0int
        },
    }
}

/// How many objects of `kind` the surface answers for: those of its render
/// state and those of an activation under way.
pub open spec fn held(area: AreaView, kind: Resource) -> int {
    (match area.state {
        Some(state) => match kind {
            Resource::Shader => 0,
            Resource::Program => 1,
            Resource::VertexArray => 1,
            Resource::Texture => state.textures.len() as int,
        },
        None => 0,
    }) + (match area.task {
        TaskView::Activating(act) => in_hand(act, kind),
        _ => 0,
    })
}

/// Whether an activation waiting on this has got as far as its textures.
pub open spec fn past_linking(awaiting: Awaiting) -> bool {
    awaiting == Awaiting::File || awaiting == Awaiting::Texture || awaiting == Awaiting::Sampler
        || awaiting == Awaiting::Uniform
}

/// An activation under way has no older render state beside it, and no
/// texture before it has got as far as its textures.
pub open spec fn tidy(area: AreaView) -> bool {
    match area.task {
        TaskView::Activating(act) => area.state is None && (past_linking(act.awaiting)
            || act.textures.len() == 0),
        _ => true,
    }
}

proof fn lemma_next_uniform_keeps_books(
    area: AreaView,
    act: ActivationView,
    from: int,
    kind: Resource,
)
    requires
        area.state is None,
        in_hand(act, kind) == in_hand(ActivationView { awaiting: Awaiting::Uniform, ..act }, kind),
    ensures
        ({
            let next = next_uniform(area, act, from);
            held(next.0, kind) == in_hand(act, kind) + surplus(next.1.calls, kind) && tidy(next.0)
        }),
{
    broadcast use group_tally;

}

proof fn lemma_next_source_keeps_books(
    area: AreaView,
    act: ActivationView,
    from: int,
    kind: Resource,
)
    requires
        area.state is None,
        in_hand(act, kind) == in_hand(ActivationView { awaiting: Awaiting::Uniform, ..act }, kind),
    ensures
        ({
            let next = next_source(area, act, from);
            held(next.0, kind) == in_hand(act, kind) + surplus(next.1.calls, kind) && tidy(next.0)
        }),
    decreases area.textures.len() - from,
{
    broadcast use group_tally;

    if 0 <= from < area.textures.len() {
        match area.textures[from] {
            TextureSourceView::Path(_) => {},
            TextureSourceView::Pixels(pixels) => {
                if !pixels.well_formed() {
                    lemma_next_source_keeps_books(area, act, from + 1, kind);
                }
            },
        }
    } else {
        lemma_next_uniform_keeps_books(area, act, 0, kind);
    }
}

/// Every step keeps the books: what the surface holds afterwards is what it
/// held before, plus what the step's calls create, less what they delete.
pub proof fn lemma_step_keeps_books(area: AreaView, reply: ReplyView, kind: Resource)
    requires
        tidy(area),
        resume(area, reply) is Some,
    ensures
        ({
            let next = resume(area, reply).unwrap();
            held(next.0, kind) == held(area, kind) + surplus(next.1.calls, kind) && tidy(next.0)
        }),
{
    broadcast use group_tally;

    match area.task {
        TaskView::Activating(act) => {
            match (act.awaiting, reply) {
                (Awaiting::VertexArray, ReplyView::Handle(vertex_array)) => {
                    lemma_next_source_keeps_books(
                        area,
                        ActivationView { vertex_array, ..act },
                        0,
                        kind,
                    );
                },
                (Awaiting::File, ReplyView::Bytes(_)) => {
                    lemma_next_source_keeps_books(area, act, act.source + 1, kind);
                },
                (Awaiting::Sampler, ReplyView::Location(_)) => {
                    lemma_next_source_keeps_books(area, act, act.source + 1, kind);
                },
                (Awaiting::Uniform, ReplyView::Location(location)) => {
                    let named = area.uniforms[act.uniform as int];
                    lemma_next_uniform_keeps_books(
                        area,
                        ActivationView {
                            registry: seeded(
                                act.registry,
                                named.0,
                                named.1,
                                location,
                            ),
                            ..act
                        },
                        act.uniform + 1,
                        kind,
                    );
                },
                _ => {},
            }
        },
        TaskView::Rendering => {
            if area.state is Some {
                lemma_frame_is_inert(area.state.unwrap(), kind);
            }
        },
        _ => {},
    }
}

/// Every event that comes in order keeps the books.
pub proof fn lemma_event_keeps_books(area: AreaView, event: Event, kind: Resource)
    requires
        tidy(area),
        accepts(area, event),
    ensures
        ({
            let next = react(area, event);
            held(next.0, kind) == held(area, kind) + surplus(next.1.calls, kind) && tidy(next.0)
        }),
{
    broadcast use group_tally;

    match event {
        Event::Reply(reply) => {
            lemma_step_keeps_books(area, reply, kind);
        },
        _ => {},
    }
}

/// Lifecycle symmetry. Over any history in order, the objects of each kind
/// that were created are those that were deleted and those the surface still
/// answers for. A history that starts and ends on an idle surface without
/// render state has therefore deleted exactly what it created: one program,
/// one vertex array and one texture per loaded source for each activation,
/// and both stage objects.
pub proof fn lemma_lifecycle_symmetry(area: AreaView, events: Seq<Event>, kind: Resource)
    requires
        tidy(area),
        orderly(area, events),
    ensures
        ({
            let end = run(area, events);
            &&& tidy(end.0)
            &&& allocations(end.1, kind) + held(area, kind) == deallocations(end.1, kind) + held(
                end.0,
                kind,
            )
            &&& (area.idle() && !area.active() && end.0.idle() && !end.0.active()) ==> allocations(
                end.1,
                kind,
            ) == deallocations(end.1, kind)
        }),
    decreases events.len(),
{
    broadcast use group_tally;

    if events.len() > 0 {
        lemma_lifecycle_symmetry(area, events.drop_last(), kind);
        lemma_event_keeps_books(run(area, events.drop_last()).0, events.last(), kind);
    }
}

/// How many objects of `kind` an activation has deleted by the time the
/// surface is where it is: both stage objects once the program is linked,
/// and nothing else.
pub open spec fn deleted_by_activation(area: AreaView, kind: Resource) -> int {
    let linked = match area.task {
        TaskView::Activating(act) => act.awaiting == Awaiting::VertexArray || past_linking(
            act.awaiting,
        ),
        _ => area.state is Some,
    };
    if kind == Resource::Shader && linked {
        2
    } else {
        0
    }
}

proof fn lemma_next_source_deletes_nothing(
    area: AreaView,
    act: ActivationView,
    from: int,
    kind: Resource,
)
    ensures
        ({
            let next = next_source(area, act, from);
            &&& deallocations(next.1.calls, kind) == 0
            &&& next.0.task is Activating ==> past_linking(next.0.task->Activating_0.awaiting)
            &&& !(next.0.task is Activating) ==> next.0.state is Some
        }),
    decreases area.textures.len() - from,
{
    broadcast use group_tally;

    if 0 <= from < area.textures.len() {
        match area.textures[from] {
            TextureSourceView::Path(_) => {},
            TextureSourceView::Pixels(pixels) => {
                if !pixels.well_formed() {
                    lemma_next_source_deletes_nothing(area, act, from + 1, kind);
                }
            },
        }
    }
}

/// What one activation creates. When it is through, it has created one
/// program and one vertex array and deleted neither, created and deleted the
/// two stage objects, and created one texture for each that the surface
/// holds.
pub proof fn lemma_activation_creates_once(area: AreaView, events: Seq<Event>, kind: Resource)
    requires
        area.wf(),
        orderly(area, events),
        one_activation(events),
    ensures
        ({
            let end = run(area, events);
            &&& deallocations(end.1, kind) == deleted_by_activation(end.0, kind)
            &&& allocations(end.1, kind) == deleted_by_activation(end.0, kind) + held(end.0, kind)
            &&& end.0.idle() && end.0.active() ==> allocations(end.1, kind) == match kind {
                Resource::Shader => 2,
                Resource::Program => 1,
                Resource::VertexArray => 1,
                Resource::Texture => end.0.state.unwrap().textures.len() as int,
            }
        }),
    decreases events.len(),
{
    broadcast use group_tally;

    reveal_with_fuel(run, 2);
    reveal_with_fuel(orderly, 2);
    lemma_first_event_accepted(area, events);
    lemma_lifecycle_symmetry(area, events, kind);
    lemma_activation_counts_textures(area, events);
    if events.len() == 1 {
        assert(events.drop_last().len() == 0);
    } else {
        let before = events.drop_last();
        assert(one_activation(before));
        lemma_activation_creates_once(area, before, kind);
        lemma_activation_counts_textures(area, before);
        let at = run(area, before).0;
        assert(events[events.len() - 1] is Reply);
        let reply = events.last()->Reply_0;
        match at.task {
            TaskView::Activating(act) => {
                match (act.awaiting, reply) {
                    (Awaiting::VertexArray, ReplyView::Handle(vertex_array)) => {
                        lemma_next_source_deletes_nothing(
                            at,
                            ActivationView { vertex_array, ..act },
                            0,
                            kind,
                        );
                    },
                    (Awaiting::File, ReplyView::Bytes(_)) => {
                        lemma_next_source_deletes_nothing(at, act, act.source + 1, kind);
                    },
                    (Awaiting::Sampler, ReplyView::Location(_)) => {
                        lemma_next_source_deletes_nothing(at, act, act.source + 1, kind);
                    },
                    _ => {},
                }
            },
            _ => {},
        }
    }
}

/// What a deactivation deletes: the program, the vertex array and every
/// texture of the state, each once, and it creates nothing.
pub proof fn lemma_deactivation_deletes_all(state: RenderStateView, kind: Resource)
    ensures
        allocations(delete_calls(state), kind) == 0,
        deallocations(delete_calls(state), kind) == match kind {
            Resource::Shader => 0,
            Resource::Program => 1,
            Resource::VertexArray => 1,
            Resource::Texture => state.textures.len() as int,
        },
{
    broadcast use group_tally;

}

/// Whether a call reports a texture source as skipped.
pub open spec fn skipped(call: CallView) -> int {
    match call {
        CallView::Report(NoticeView::TextureLoadFailed { .. }) => 1,
        _ => 0,
    }
}

/// How many texture sources a run of calls reports as skipped.
pub open spec fn skips(calls: Seq<CallView>) -> int {
    tally(calls, |call: CallView| skipped(call))
}

/// How many texture sources the surface has taken up since its activation
/// began: all of them once the activation is through or at its uniforms.
pub open spec fn taken(area: AreaView) -> int {
    match area.task {
        TaskView::Activating(act) => match act.awaiting {
            Awaiting::File => act.source as int,
            Awaiting::Texture | Awaiting::Sampler => act.source + 1,
            Awaiting::Uniform => area.textures.len() as int,
            _ => 0,
        },
        _ => if area.state is Some {
            area.textures.len() as int
        } else {
            0
        },
    }
}

/// How many textures the surface has or has asked for.
pub open spec fn textures_held(area: AreaView) -> int {
    held(area, Resource::Texture)
}

proof fn lemma_next_source_counts(area: AreaView, act: ActivationView, from: int)
    requires
        area.state is None,
        0 <= from <= area.textures.len() <= usize::MAX,
    ensures
        ({
            let next = next_source(area, act, from);
            &&& next.0.task is Activating || next.0.task is Idle
            &&& taken(next.0) == from + skips(next.1.calls) + textures_held(next.0)
                - act.textures.len()
        }),
    decreases area.textures.len() - from,
{
    broadcast use group_tally;

    if from < area.textures.len() {
        match area.textures[from] {
            TextureSourceView::Path(_) => {},
            TextureSourceView::Pixels(pixels) => {
                if !pixels.well_formed() {
                    lemma_next_source_counts(area, act, from + 1);
                }
            },
        }
    }
}

/// Every texture source is accounted for. At each point of an activation,
/// the sources taken up so far are those that were skipped and those that
/// have a texture or wait for one. When the activation is through, the
/// surface therefore holds as many textures as it has sources, less those
/// reported as skipped.
pub proof fn lemma_activation_counts_textures(area: AreaView, events: Seq<Event>)
    requires
        area.wf(),
        orderly(area, events),
        one_activation(events),
    ensures
        ({
            let end = run(area, events);
            &&& tidy(end.0)
            &&& end.0.task is Activating || end.0.task is Idle
            &&& taken(end.0) == skips(end.1) + textures_held(end.0)
            &&& end.0.idle() && end.0.active() ==> end.0.state.unwrap().textures.len() + skips(
                end.1,
            ) == area.textures.len()
        }),
    decreases events.len(),
{
    broadcast use group_tally;

    reveal_with_fuel(run, 2);
    reveal_with_fuel(orderly, 2);
    if events.len() == 1 {
        assert(events.drop_last().len() == 0);
    } else {
        let before = events.drop_last();
        assert(one_activation(before));
        lemma_activation_counts_textures(area, before);
        lemma_history_keeps_invariant(area, before);
        lemma_history_keeps_inputs(area, before);
        lemma_history_keeps_inputs(area, events);
        let at = run(area, before).0;
        assert(events[events.len() - 1] is Reply);
        let reply = events.last()->Reply_0;
        match at.task {
            TaskView::Activating(act) => {
                match (act.awaiting, reply) {
                    (Awaiting::VertexArray, ReplyView::Handle(vertex_array)) => {
                        lemma_next_source_counts(at, ActivationView { vertex_array, ..act }, 0);
                    },
                    (Awaiting::File, ReplyView::Bytes(_)) => {
                        lemma_next_source_counts(at, act, act.source + 1);
                    },
                    (Awaiting::Sampler, ReplyView::Location(_)) => {
                        lemma_next_source_counts(at, act, act.source + 1);
                    },
                    _ => {},
                }
            },
            _ => {},
        }
        lemma_step_keeps_books(at, reply, Resource::Texture);
    }
}

/// Whether a call asks the driver where a uniform lives.
pub open spec fn asks(call: CallView) -> int {
    match call {
        CallView::UniformLocation { .. } => 1,
        _ => 0,
    }
}

/// How often a run of calls asks the driver where a uniform lives.
pub open spec fn questions(calls: Seq<CallView>) -> int {
    tally(calls, |call: CallView| asks(call))
}

/// How many locations the surface has asked for since its activation began:
/// one for each texture uploaded, and one for each initial uniform taken up.
pub open spec fn asked(area: AreaView) -> int {
    match area.task {
        TaskView::Activating(act) => match act.awaiting {
            Awaiting::File | Awaiting::Texture | Awaiting::Sampler => act.textures.len() as int,
            Awaiting::Uniform => act.textures.len() + act.uniform + 1,
            _ => 0,
        },
        _ => match area.state {
            Some(state) => (state.textures.len() + area.uniforms.len()) as int,
            None => 0,
        },
    }
}

proof fn lemma_next_source_asks(area: AreaView, act: ActivationView, from: int)
    requires
        area.uniforms.len() <= usize::MAX,
    ensures
        ({
            let next = next_source(area, act, from);
            asked(next.0) == act.textures.len() + questions(next.1.calls)
        }),
    decreases area.textures.len() - from,
{
    broadcast use group_tally;

    if 0 <= from < area.textures.len() {
        match area.textures[from] {
            TextureSourceView::Path(_) => {},
            TextureSourceView::Pixels(pixels) => {
                if !pixels.well_formed() {
                    lemma_next_source_asks(area, act, from + 1);
                }
            },
        }
    }
}

/// Every location is asked for once. When an activation is through, the
/// driver has been asked as many questions as the surface has textures and
/// initial uniforms: one for the sampler of each texture that loaded, one
/// for each initial uniform, and none twice.
pub proof fn lemma_activation_asks_once(area: AreaView, events: Seq<Event>)
    requires
        area.wf(),
        orderly(area, events),
        one_activation(events),
    ensures
        ({
            let end = run(area, events);
            &&& end.0.task is Activating || end.0.task is Idle
            &&& asked(end.0) == questions(end.1)
            &&& end.0.idle() && end.0.active() ==> questions(end.1)
                == end.0.state.unwrap().textures.len() + area.uniforms.len()
        }),
    decreases events.len(),
{
    broadcast use group_tally;

    reveal_with_fuel(run, 2);
    reveal_with_fuel(orderly, 2);
    if events.len() == 1 {
        assert(events.drop_last().len() == 0);
    } else {
        let before = events.drop_last();
        assert(one_activation(before));
        lemma_activation_asks_once(area, before);
        lemma_activation_counts_textures(area, before);
        lemma_activation_counts_textures(area, events);
        lemma_history_keeps_invariant(area, before);
        lemma_history_keeps_inputs(area, before);
        lemma_history_keeps_inputs(area, events);
        let at = run(area, before).0;
        assert(events[events.len() - 1] is Reply);
        let reply = events.last()->Reply_0;
        match at.task {
            TaskView::Activating(act) => {
                match (act.awaiting, reply) {
                    (Awaiting::VertexArray, ReplyView::Handle(vertex_array)) => {
                        lemma_next_source_asks(at, ActivationView { vertex_array, ..act }, 0);
                    },
                    (Awaiting::File, ReplyView::Bytes(_)) => {
                        lemma_next_source_asks(at, act, act.source + 1);
                    },
                    (Awaiting::Sampler, ReplyView::Location(_)) => {
                        lemma_next_source_asks(at, act, act.source + 1);
                    },
                    _ => {},
                }
            },
            _ => {},
        }
    }
}

} // verus!

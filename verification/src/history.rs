//! Histories: what happens to a surface over time, and what holds of every
//! history that comes in order.

use vstd::prelude::*;
use crate::call::{CallView, NoticeView, ReplyView, StepView};
use crate::laws::{image_in_hand, lemma_step_keeps_image_in_hand};
use crate::model::{
    begin_realize, begin_render, begin_set_uniform, begin_unrealize,
    lemma_next_source_keeps_progress, lemma_resume_keeps_inputs, lemma_resume_wf, resume,
    same_inputs, ActivationView, AreaView, Awaiting, TaskView,
};
use crate::registry::{
    knows, lemma_position_names, lemma_stored_adds_one_name, position, seeded, UniformEntryView,
};
use crate::shader::sampler_name_of;
use crate::value::UniformValue;

verus! {

/// Something that happens to a surface: the host starts an operation, or
/// answers the last call.
pub enum Event {
    Realize,
    Render,
    Unrealize,
    SetUniform { name: Seq<char>, value: UniformValue },
    Reply(ReplyView),
}

/// Whether the event comes in order: an operation starts only on an idle
/// surface, an activation only on an inactive one, and a reply answers the
/// call the surface waits on.
pub open spec fn accepts(area: AreaView, event: Event) -> bool {
    match event {
        Event::Realize => area.idle() && !area.active(),
        Event::Render => area.idle(),
        Event::Unrealize => area.idle(),
        Event::SetUniform { .. } => area.idle(),
        Event::Reply(reply) => resume(area, reply) is Some,
    }
}

/// The surface after the event, and the step it answers with.
pub open spec fn react(area: AreaView, event: Event) -> (AreaView, StepView) {
    match event {
        Event::Realize => begin_realize(area),
        Event::Render => begin_render(area),
        Event::Unrealize => begin_unrealize(area),
        Event::SetUniform { name, value } => begin_set_uniform(area, name, value),
        Event::Reply(reply) => resume(area, reply).unwrap(),
    }
}

/// The surface after a history of events, and every call it asked for.
pub open spec fn run(area: AreaView, events: Seq<Event>) -> (AreaView, Seq<CallView>)
    decreases events.len(),
{
    if events.len() == 0 {
        (area, Seq::empty())
    } else {
        let before = run(area, events.drop_last());
        let last = react(before.0, events.last());
        (last.0, before.1 + last.1.calls)
    }
}

/// Whether every event of a history comes in order.
pub open spec fn orderly(area: AreaView, events: Seq<Event>) -> bool
    decreases events.len(),
{
    events.len() == 0 || (orderly(area, events.drop_last()) && accepts(
        run(area, events.drop_last()).0,
        events.last(),
    ))
}

/// A history in order begins with an event that the surface accepts as it
/// is.
pub proof fn lemma_first_event_accepted(area: AreaView, events: Seq<Event>)
    requires
        orderly(area, events),
        events.len() >= 1,
    ensures
        accepts(area, events[0]),
    decreases events.len(),
{
    if events.len() > 1 {
        lemma_first_event_accepted(area, events.drop_last());
    } else {
        assert(events.drop_last().len() == 0);
    }
}

/// Every history in order keeps the surface's invariant: no uniform name
/// stands twice in a registry, no stored location is negative, and an
/// activation under way is in order.
pub proof fn lemma_history_keeps_invariant(area: AreaView, events: Seq<Event>)
    requires
        area.wf(),
        orderly(area, events),
    ensures
        run(area, events).0.wf(),
    decreases events.len(),
{
    if events.len() > 0 {
        lemma_history_keeps_invariant(area, events.drop_last());
        let before = run(area, events.drop_last()).0;
        match events.last() {
            Event::Reply(reply) => {
                lemma_resume_wf(before, reply);
            },
            _ => {},
        }
    }
}

/// What a surface was made with stays for good: no history changes the
/// shader, the texture sources or the initial uniforms.
pub proof fn lemma_history_keeps_inputs(area: AreaView, events: Seq<Event>)
    requires
        orderly(area, events),
    ensures
        same_inputs(area, run(area, events).0),
    decreases events.len(),
{
    if events.len() > 0 {
        lemma_history_keeps_inputs(area, events.drop_last());
        let before = run(area, events.drop_last()).0;
        match events.last() {
            Event::Reply(reply) => {
                lemma_resume_keeps_inputs(before, reply);
            },
            _ => {},
        }
    }
}

/// Over any history in order, an activation that asks for a texture object
/// holds the image of the very source it has in hand.
pub proof fn lemma_history_keeps_image_in_hand(area: AreaView, events: Seq<Event>)
    requires
        area.wf(),
        image_in_hand(area),
        orderly(area, events),
    ensures
        image_in_hand(run(area, events).0),
    decreases events.len(),
{
    if events.len() > 0 {
        lemma_history_keeps_image_in_hand(area, events.drop_last());
        lemma_history_keeps_invariant(area, events.drop_last());
        let before = run(area, events.drop_last()).0;
        match events.last() {
            Event::Reply(reply) => {
                lemma_step_keeps_image_in_hand(before, reply);
            },
            _ => {},
        }
    }
}

/// The uniform whose location the surface waits to hear, if it waits for
/// one. The sampler of a texture is none: it is never stored.
pub open spec fn asked_name(area: AreaView) -> Option<Seq<char>> {
    match area.task {
        TaskView::Activating(act) => if act.awaiting == Awaiting::Uniform {
            Some(area.uniforms[act.uniform as int].0)
        } else {
            None
        },
        TaskView::Setting { name, resolving, .. } => if resolving {
            Some(name)
        } else {
            None
        },
        _ => None,
    }
}

/// Whether the event tells the surface that the program has a uniform
/// called `name`: a location that is not negative, in answer to the
/// question for that name.
pub open spec fn confirms(area: AreaView, event: Event, name: Seq<char>) -> bool {
    match event {
        Event::Reply(ReplyView::Location(location)) => location >= 0 && asked_name(area) == Some(
            name,
        ),
        _ => false,
    }
}

/// Whether no event of the history confirms `name`.
pub open spec fn never_confirmed(area: AreaView, events: Seq<Event>, name: Seq<char>) -> bool
    decreases events.len(),
{
    events.len() == 0 || (never_confirmed(area, events.drop_last(), name) && !confirms(
        run(area, events.drop_last()).0,
        events.last(),
        name,
    ))
}

/// Whether a registry of the surface, the one of its render state or the one
/// an activation is filling, has an entry called `name`.
pub open spec fn has_entry(area: AreaView, name: Seq<char>) -> bool {
    ||| match area.state {
        Some(state) => knows(state.uniforms, name),
        None => false,
    }
    ||| match area.task {
        TaskView::Activating(act) => knows(act.registry, name),
        _ => false,
    }
}

proof fn lemma_event_adds_no_unconfirmed_name(area: AreaView, event: Event, name: Seq<char>)
    requires
        area.wf(),
        accepts(area, event),
        !has_entry(area, name),
        !confirms(area, event, name),
    ensures
        !has_entry(react(area, event).0, name),
{
    lemma_position_names(Seq::<UniformEntryView>::empty(), name, 0);
    match event {
        Event::Reply(reply) => {
            match area.task {
                TaskView::Activating(act) => {
                    match (act.awaiting, reply) {
                        (Awaiting::VertexArray, ReplyView::Handle(vertex_array)) => {
                            lemma_next_source_keeps_progress(
                                area,
                                ActivationView { vertex_array, ..act },
                                0,
                            );
                        },
                        (Awaiting::File, ReplyView::Bytes(_)) => {
                            lemma_next_source_keeps_progress(
                                area,
                                act,
                                act.source + 1,
                            );
                        },
                        (Awaiting::Sampler, ReplyView::Location(_)) => {
                            lemma_next_source_keeps_progress(
                                area,
                                act,
                                act.source + 1,
                            );
                        },
                        (Awaiting::Uniform, ReplyView::Location(location)) => {
                            let named = area.uniforms[act.uniform as int];
                            if location >= 0 {
                                lemma_stored_adds_one_name(
                                    act.registry,
                                    named.0,
                                    location,
                                    named.1,
                                    name,
                                );
                            }
                            assert(!knows(seeded(act.registry, named.0, named.1, location), name));
                        },
                        _ => {},
                    }
                },
                TaskView::Setting { name: written, value, resolving } => {
                    match area.state {
                        Some(state) => {
                            lemma_position_names(state.uniforms, written, 0);
                            match reply {
                                ReplyView::Location(location) => {
                                    if location >= 0 {
                                        lemma_stored_adds_one_name(
                                            state.uniforms,
                                            written,
                                            location,
                                            value,
                                            name,
                                        );
                                    }
                                },
                                ReplyView::Flag(_) => {
                                    if knows(state.uniforms, written) {
                                        lemma_stored_adds_one_name(
                                            state.uniforms,
                                            written,
                                            state.uniforms[position(
                                                state.uniforms,
                                                written,
                                            )].location,
                                            value,
                                            name,
                                        );
                                    }
                                },
                                _ => {},
                            }
                        },
                        None => {},
                    }
                },
                _ => {},
            }
        },
        _ => {},
    }
}

/// Unknown uniforms stay out. Over any history in order, a name that no
/// registry of the surface holds at the start, and that the driver never
/// confirms, is in no registry of the surface at the end: neither seeding
/// nor writing stores what the program does not have.
pub proof fn lemma_unconfirmed_uniform_stays_out(
    area: AreaView,
    events: Seq<Event>,
    name: Seq<char>,
)
    requires
        area.wf(),
        orderly(area, events),
        never_confirmed(area, events, name),
        !has_entry(area, name),
    ensures
        !has_entry(run(area, events).0, name),
    decreases events.len(),
{
    if events.len() > 0 {
        lemma_unconfirmed_uniform_stays_out(area, events.drop_last(), name);
        lemma_history_keeps_invariant(area, events.drop_last());
        lemma_event_adds_no_unconfirmed_name(
            run(area, events.drop_last()).0,
            events.last(),
            name,
        );
    }
}

/// Whether the history is one activation: the surface is realized, and
/// from then on only hears replies.
pub open spec fn one_activation(events: Seq<Event>) -> bool {
    &&& events.len() >= 1
    &&& events[0] == Event::Realize
    &&& forall|i: int| 1 <= i < events.len() ==> (#[trigger] events[i]) is Reply
}

/// Whether the calls from position `at` on upload `texture` on unit `unit`
/// and then ask `program` for that unit's sampler, `tex` and the unit's
/// number.
pub open spec fn uploads_at(
    calls: Seq<CallView>,
    at: int,
    unit: int,
    texture: u32,
    program: u32,
) -> bool {
    &&& 0 <= at
    &&& at + 8 <= calls.len()
    &&& calls[at] == CallView::ActiveTexture { unit: unit as usize }
    &&& calls[at + 1] == CallView::BindTexture { texture }
    &&& calls[at + 6] is TexImage
    &&& calls[at + 7] == CallView::UniformLocation { program, name: sampler_name_of(unit as nat) }
}

/// Whether the calls upload `texture` on unit `unit` somewhere.
pub open spec fn uploaded(calls: Seq<CallView>, unit: int, texture: u32, program: u32) -> bool {
    exists|at: int| uploads_at(calls, at, unit, texture, program)
}

/// Whether the calls upload each texture on the unit of its index.
pub open spec fn uploaded_in_order(
    calls: Seq<CallView>,
    textures: Seq<u32>,
    program: u32,
) -> bool {
    forall|i: int|
        0 <= i < textures.len() ==> uploaded(calls, i, #[trigger] textures[i], program)
}

proof fn lemma_uploads_stay(
    calls: Seq<CallView>,
    more: Seq<CallView>,
    textures: Seq<u32>,
    program: u32,
)
    requires
        uploaded_in_order(calls, textures, program),
    ensures
        uploaded_in_order(calls + more, textures, program),
{
    assert forall|i: int| 0 <= i < textures.len() implies uploaded(
        calls + more,
        i,
        #[trigger] textures[i],
        program,
    ) by {
        let at = choose|at: int| uploads_at(calls, at, i, textures[i], program);
        assert(uploads_at(calls + more, at, i, textures[i], program));
    }
}

/// The textures and the program that the surface has or is building.
pub open spec fn objects(area: AreaView) -> (Seq<u32>, u32) {
    match area.task {
        TaskView::Activating(act) => (act.textures, act.program),
        _ => match area.state {
            Some(state) => (state.textures, state.program),
            None => (Seq::empty(), 0),
        },
    }
}

/// Whether the sampler question that ends the upload at `at` was answered:
/// the call after it points the sampler at `unit`, or reports that the
/// program has no such sampler.
pub open spec fn answered_at(calls: Seq<CallView>, at: int, unit: int) -> bool {
    &&& 0 <= at
    &&& at + 8 < calls.len()
    &&& match calls[at + 8] {
        CallView::Uniform1i { x, .. } => x == (unit as usize) as i32,
        CallView::Report(NoticeView::SamplerMissing { unit: reported }) => reported
            == unit as usize,
        _ => false,
    }
}

/// Whether the calls upload `texture` on unit `unit` somewhere and go on to
/// point the unit's sampler at it, or to report the sampler as missing.
pub open spec fn sampled(calls: Seq<CallView>, unit: int, texture: u32, program: u32) -> bool {
    exists|at: int|
        uploads_at(calls, at, unit, texture, program) && answered_at(calls, at, unit)
}

/// Whether the calls do so for each of the first `count` textures.
pub open spec fn sampled_in_order(
    calls: Seq<CallView>,
    textures: Seq<u32>,
    program: u32,
    count: int,
) -> bool {
    forall|i: int|
        0 <= i < count && i < textures.len() ==> sampled(calls, i, #[trigger] textures[i], program)
}

/// How many textures of the surface have had their sampler answered: all
/// but the one whose answer an activation waits on.
pub open spec fn answered(area: AreaView) -> int {
    match area.task {
        TaskView::Activating(act) => if act.awaiting == Awaiting::Sampler {
            act.textures.len() - 1
        } else {
            act.textures.len() as int
        },
        _ => objects(area).0.len() as int,
    }
}

proof fn lemma_samples_stay(
    calls: Seq<CallView>,
    more: Seq<CallView>,
    textures: Seq<u32>,
    program: u32,
    count: int,
)
    requires
        sampled_in_order(calls, textures, program, count),
    ensures
        sampled_in_order(calls + more, textures, program, count),
{
    assert forall|i: int| 0 <= i < count && i < textures.len() implies sampled(
        calls + more,
        i,
        #[trigger] textures[i],
        program,
    ) by {
        let at = choose|at: int|
            uploads_at(calls, at, i, textures[i], program) && answered_at(calls, at, i);
        assert(uploads_at(calls + more, at, i, textures[i], program));
        assert(answered_at(calls + more, at, i));
    }
}

/// Texture indexing over a whole activation. Every texture that the surface
/// holds, at index `i`, was uploaded on unit `i`, and its sampler asked for
/// as `tex` followed by `i`; once the driver has answered, the sampler is
/// pointed at unit `i` or reported as missing. The textures that load are
/// numbered as they come, and one that fails leaves no gap.
pub proof fn lemma_activation_uploads_in_order(area: AreaView, events: Seq<Event>)
    requires
        area.wf(),
        orderly(area, events),
        one_activation(events),
    ensures
        ({
            let end = run(area, events);
            let textures = objects(end.0).0;
            let program = objects(end.0).1;
            &&& end.0.task is Activating || end.0.task is Idle
            &&& end.0.task is Activating ==> end.0.state is None
            &&& uploaded_in_order(end.1, textures, program)
            &&& sampled_in_order(end.1, textures, program, answered(end.0))
            &&& 0 <= answered(end.0) < textures.len() ==> uploads_at(
                end.1,
                end.1.len() - 8,
                textures.len() - 1,
                textures[textures.len() - 1],
                program,
            )
            &&& end.0.idle() ==> answered(end.0) == textures.len()
        }),
    decreases events.len(),
{
    reveal_with_fuel(run, 2);
    reveal_with_fuel(orderly, 2);
    if events.len() == 1 {
        assert(events.drop_last().len() == 0);
    } else {
        let before = events.drop_last();
        assert(one_activation(before));
        lemma_activation_uploads_in_order(area, before);
        lemma_history_keeps_invariant(area, before);
        let at = run(area, before);
        assert(events[events.len() - 1] is Reply);
        let reply = events.last()->Reply_0;
        let next = resume(at.0, reply).unwrap();
        let after = at.1 + next.1.calls;
        match at.0.task {
            TaskView::Activating(act) => {
                lemma_samples_stay(
                    at.1,
                    next.1.calls,
                    act.textures,
                    act.program,
                    answered(at.0),
                );
                match (act.awaiting, reply) {
                    (Awaiting::VertexArray, ReplyView::Handle(vertex_array)) => {
                        lemma_next_source_keeps_progress(
                            at.0,
                            ActivationView { vertex_array, ..act },
                            0,
                        );
                    },
                    (Awaiting::File, ReplyView::Bytes(_)) => {
                        lemma_next_source_keeps_progress(at.0, act, act.source + 1);
                    },
                    (Awaiting::Sampler, ReplyView::Location(location)) => {
                        lemma_next_source_keeps_progress(at.0, act, act.source + 1);
                        let last = act.textures.len() - 1;
                        let place = at.1.len() - 8;
                        assert(after[place + 8] == next.1.calls[0]);
                        assert(uploads_at(after, place, last, act.textures[last], act.program));
                        assert(answered_at(after, place, last));
                        assert(sampled(after, last, act.textures[last], act.program));
                        lemma_uploads_stay(at.1, next.1.calls, act.textures, act.program);
                    },
                    (Awaiting::Texture, ReplyView::Handle(texture)) => {
                        let unit = act.textures.len() as int;
                        lemma_uploads_stay(at.1, next.1.calls, act.textures, act.program);
                        assert(uploads_at(after, at.1.len() as int, unit, texture, act.program));
                        let grown = act.textures.push(texture);
                        assert forall|i: int| 0 <= i < grown.len() implies uploaded(
                            after,
                            i,
                            #[trigger] grown[i],
                            act.program,
                        ) by {
                            if i < unit {
                                assert(grown[i] == act.textures[i]);
                                assert(uploaded(after, i, act.textures[i], act.program));
                            }
                        }
                        assert forall|i: int| 0 <= i < unit implies sampled(
                            after,
                            i,
                            #[trigger] grown[i],
                            act.program,
                        ) by {
                            assert(grown[i] == act.textures[i]);
                            assert(sampled(after, i, act.textures[i], act.program));
                        }
                    },
                    _ => {},
                }
                if !(act.awaiting == Awaiting::Texture) {
                    lemma_uploads_stay(at.1, next.1.calls, act.textures, act.program);
                }
            },
            _ => {},
        }
    }
}

} // verus!

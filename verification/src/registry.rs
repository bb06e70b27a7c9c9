//! The uniform registry: for each uniform the program is known to have, the
//! location the driver gave it and the value to upload with every frame.

use vstd::prelude::*;
use crate::call::{emit, no_calls, views, Call, CallView};
use crate::value::UniformValue;

verus! {

/// One uniform of the registry.
#[derive(Clone, Debug, PartialEq, Eq)]
pub struct UniformEntry {
    pub name: String,
    pub location: i32,
    pub value: UniformValue,
}

/// Ghost image of a [`UniformEntry`].
pub struct UniformEntryView {
    pub name: Seq<char>,
    pub location: i32,
    pub value: UniformValue,
}

impl View for UniformEntry {
    type V = UniformEntryView;

    open spec fn view(&self) -> UniformEntryView {
        UniformEntryView { name: self.name@, location: self.location, value: self.value }
    }
}

/// The uniforms of one surface, in the order in which their names were first
/// stored.
#[derive(Clone, Debug, PartialEq, Eq)]
pub struct UniformRegistry {
    pub entries: Vec<UniformEntry>,
}

impl View for UniformRegistry {
    type V = Seq<UniformEntryView>;

    open spec fn view(&self) -> Seq<UniformEntryView> {
        self.entries@.map_values(|entry: UniformEntry| entry@)
    }
}

/// No entry holds a negative location, and no name occurs twice.
pub open spec fn well_formed(registry: Seq<UniformEntryView>) -> bool {
    &&& forall|i: int| 0 <= i < registry.len() ==> (#[trigger] registry[i]).location >= 0
    &&& forall|i: int, j: int|
        0 <= i < j < registry.len() ==> (#[trigger] registry[i]).name != (
        #[trigger] registry[j]).name
}

/// The index of the first entry at or after `from` that is called `name`, or
/// the registry's length if there is none.
pub open spec fn position_from(registry: Seq<UniformEntryView>, name: Seq<char>, from: int) -> int
    decreases registry.len() - from,
{
    if from < 0 || from >= registry.len() {
        registry.len() as int
    } else if registry[from].name == name {
        from
    } else {
        position_from(registry, name, from + 1)
    }
}

/// The index of the entry called `name`, or the registry's length if there is
/// none.
pub open spec fn position(registry: Seq<UniformEntryView>, name: Seq<char>) -> int {
    position_from(registry, name, 0)
}

/// Whether the registry has an entry called `name`.
pub open spec fn knows(registry: Seq<UniformEntryView>, name: Seq<char>) -> bool {
    position(registry, name) < registry.len()
}

/// The entry called `name`, if there is one.
pub open spec fn lookup(registry: Seq<UniformEntryView>, name: Seq<char>) -> Option<
    UniformEntryView,
> {
    if knows(registry, name) {
        Some(registry[position(registry, name)])
    } else {
        None
    }
}

/// The registry after `name` was given `location` and `value`: its entry is
/// overwritten in place, or a new one is added at the end.
pub open spec fn stored(
    registry: Seq<UniformEntryView>,
    name: Seq<char>,
    location: i32,
    value: UniformValue,
) -> Seq<UniformEntryView> {
    let entry = UniformEntryView { name, location, value };
    if knows(registry, name) {
        registry.update(position(registry, name), entry)
    } else {
        registry.push(entry)
    }
}

/// The registry after the driver answered `location` for `name`: stored where
/// the program has the uniform, left alone where it has not.
pub open spec fn seeded(
    registry: Seq<UniformEntryView>,
    name: Seq<char>,
    value: UniformValue,
    location: i32,
) -> Seq<UniformEntryView> {
    if location >= 0 {
        stored(registry, name, location, value)
    } else {
        registry
    }
}

/// The upload call that matches a value's shape.
pub open spec fn upload(location: i32, value: UniformValue) -> CallView {
    match value {
        UniformValue::Float(x) => CallView::Uniform1f { location, x },
        UniformValue::Vec2(v) => CallView::Uniform2f { location, x: v[0], y: v[1] },
        UniformValue::Vec3(v) => CallView::Uniform3f { location, x: v[0], y: v[1], z: v[2] },
        UniformValue::Vec4(v) => CallView::Uniform4f {
            location,
            x: v[0],
            y: v[1],
            z: v[2],
            w: v[3],
        },
        UniformValue::Int(x) => CallView::Uniform1i { location, x },
        UniformValue::IVec2(v) => CallView::Uniform2i { location, x: v[0], y: v[1] },
        UniformValue::IVec3(v) => CallView::Uniform3i { location, x: v[0], y: v[1], z: v[2] },
        UniformValue::IVec4(v) => CallView::Uniform4i {
            location,
            x: v[0],
            y: v[1],
            z: v[2],
            w: v[3],
        },
    }
}

/// One upload call per entry, in the registry's order.
pub open spec fn uploads(registry: Seq<UniformEntryView>) -> Seq<CallView> {
    registry.map_values(|entry: UniformEntryView| upload(entry.location, entry.value))
}

/// What pushing the registry to the GPU comes to: the program is made
/// current, then every entry is uploaded.
pub open spec fn apply_calls(program: u32, registry: Seq<UniformEntryView>) -> Seq<CallView> {
    seq![CallView::UseProgram { program }] + uploads(registry)
}

/// The upload call that matches a value's shape.
pub fn upload_call(location: i32, value: UniformValue) -> (call: Call)
    ensures
        call@ == upload(location, value),
{
    match value {
        UniformValue::Float(x) => Call::Uniform1f { location, x },
        UniformValue::Vec2(v) => Call::Uniform2f { location, x: v[0], y: v[1] },
        UniformValue::Vec3(v) => Call::Uniform3f { location, x: v[0], y: v[1], z: v[2] },
        UniformValue::Vec4(v) => Call::Uniform4f { location, x: v[0], y: v[1], z: v[2], w: v[3] },
        UniformValue::Int(x) => Call::Uniform1i { location, x },
        UniformValue::IVec2(v) => Call::Uniform2i { location, x: v[0], y: v[1] },
        UniformValue::IVec3(v) => Call::Uniform3i { location, x: v[0], y: v[1], z: v[2] },
        UniformValue::IVec4(v) => Call::Uniform4i { location, x: v[0], y: v[1], z: v[2], w: v[3] },
    }
}

impl UniformRegistry {
    /// A registry without entries.
    pub fn new() -> (registry: UniformRegistry)
        ensures
            registry@ == Seq::<UniformEntryView>::empty(),
            well_formed(registry@),
    {
        let registry = UniformRegistry { entries: Vec::new() };
        assert(registry@ =~= Seq::<UniformEntryView>::empty());
        registry
    }

    /// The number of uniforms stored.
    pub fn len(&self) -> (n: usize)
        ensures
            n == self@.len(),
    {
        self.entries.len()
    }

    /// Whether no entry holds a negative location and no name occurs twice.
    pub fn is_well_formed(&self) -> (ok: bool)
        ensures
            ok == well_formed(self@),
    {
        let n = self.entries.len();
        let mut i: usize = 0;
        while i < n
            invariant
                i <= n,
                n == self.entries.len(),
                self@.len() == n,
                forall|k: int| 0 <= k < i ==> (#[trigger] self@[k]).location >= 0,
                forall|k: int, l: int|
                    0 <= k < l < n && k < i ==> (#[trigger] self@[k]).name != (
                    #[trigger] self@[l]).name,
            decreases n - i,
        {
            if self.entries[i].location < 0 {
                assert(self@[i as int].location < 0);
                return false;
            }
            let mut j: usize = i + 1;
            while j < n
                invariant
                    i < j <= n,
                    n == self.entries.len(),
                    self@.len() == n,
                    forall|l: int| i < l < j ==> self@[i as int].name != (#[trigger] self@[l]).name,
                decreases n - j,
            {
                if self.entries[i].name == self.entries[j].name {
                    assert(self@[i as int].name == self@[j as int].name);
                    return false;
                }
                j += 1;
            }
            i += 1;
        }
        true
    }

    /// The index of the entry called `name`.
    pub fn find(&self, name: &String) -> (index: Option<usize>)
        ensures
            match index {
                Some(i) => knows(self@, name@) && i == position(self@, name@),
                None => !knows(self@, name@),
            },
    {
        let mut i: usize = 0;
        while i < self.entries.len()
            invariant
                i <= self.entries.len(),
                self@.len() == self.entries.len(),
                position(self@, name@) == position_from(self@, name@, i as int),
            decreases self.entries.len() - i,
        {
            if self.entries[i].name == *name {
                return Some(i);
            }
            i += 1;
        }
        None
    }

    /// The location and value stored under `name`.
    pub fn get(&self, name: &String) -> (found: Option<(i32, UniformValue)>)
        ensures
            match found {
                Some(pair) => lookup(self@, name@) == Some(
                    UniformEntryView { name: name@, location: pair.0, value: pair.1 },
                ),
                None => lookup(self@, name@) is None,
            },
    {
        match self.find(name) {
            Some(i) => {
                proof {
                    lemma_position_names(self@, name@, 0);
                }
                Some((self.entries[i].location, self.entries[i].value))
            },
            None => None,
        }
    }

    /// Gives `name` a location and a value, in place of what it had.
    pub fn store(&mut self, name: String, location: i32, value: UniformValue)
        ensures
            final(self)@ == stored(old(self)@, name@, location, value),
    {
        let found = self.find(&name);
        let entry = UniformEntry { name, location, value };
        match found {
            Some(i) => {
                self.entries.set(i, entry);
                assert(self@ =~= old(self)@.update(i as int, entry@));
            },
            None => {
                self.entries.push(entry);
                assert(self@ =~= old(self)@.push(entry@));
            },
        }
    }

    /// Takes the driver's answer for an initial uniform: the value is stored
    /// where the program has the uniform (`location` is not negative) and
    /// dropped where it has not. Returns whether it was stored.
    pub fn seed(&mut self, name: String, value: UniformValue, location: i32) -> (kept: bool)
        ensures
            kept == (location >= 0),
            final(self)@ == seeded(old(self)@, name@, value, location),
    {
        if location >= 0 {
            self.store(name, location, value);
            true
        } else {
            false
        }
    }

    /// The calls that push every stored value to the GPU: the program is made
    /// current, then each entry is uploaded with the call for its shape.
    pub fn apply_all(&self, program: u32) -> (calls: Vec<Call>)
        ensures
            views(calls@) == apply_calls(program, self@),
    {
        let mut calls = no_calls();
        emit(&mut calls, Call::UseProgram { program });
        let mut i: usize = 0;
        while i < self.entries.len()
            invariant
                i <= self.entries.len(),
                self@.len() == self.entries.len(),
                views(calls@) == seq![CallView::UseProgram { program }] + uploads(
                    self@.subrange(0, i as int),
                ),
            decreases self.entries.len() - i,
        {
            let call = upload_call(self.entries[i].location, self.entries[i].value);
            emit(&mut calls, call);
            assert(uploads(self@.subrange(0, i + 1)) =~= uploads(self@.subrange(0, i as int)).push(
                upload(self@[i as int].location, self@[i as int].value),
            ));
            i += 1;
        }
        assert(self@.subrange(0, i as int) =~= self@);
        calls
    }
}

/// The entry that `position_from` stops at is called `name`.
pub proof fn lemma_position_names(registry: Seq<UniformEntryView>, name: Seq<char>, from: int)
    requires
        0 <= from,
    ensures
        from <= position_from(registry, name, from) <= registry.len() || from > registry.len(),
        position_from(registry, name, from) < registry.len() ==> registry[position_from(
            registry,
            name,
            from,
        )].name == name,
        forall|i: int|
            from <= i < position_from(registry, name, from) ==> (#[trigger] registry[i]).name
                != name,
    decreases registry.len() - from,
{
    if from < registry.len() && registry[from].name != name {
        lemma_position_names(registry, name, from + 1);
    }
}

/// Storing under a location that is not negative keeps the registry well
/// formed: no name comes to stand twice, no location is negative.
pub proof fn lemma_stored_well_formed(
    registry: Seq<UniformEntryView>,
    name: Seq<char>,
    location: i32,
    value: UniformValue,
)
    requires
        well_formed(registry),
        location >= 0,
    ensures
        well_formed(stored(registry, name, location, value)),
        lookup(stored(registry, name, location, value), name) == Some(
            UniformEntryView { name, location, value },
        ),
        stored(registry, name, location, value).len() == registry.len() + if knows(
            registry,
            name,
        ) {
            0int
        } else {
            1int
        },
{
    let after = stored(registry, name, location, value);
    lemma_position_names(registry, name, 0);
    lemma_position_names(after, name, 0);
    let at = position(registry, name);
    assert(after[at].name == name);
    if position(after, name) > at {
        assert(after[at].name != name);
    }
    if position(after, name) < at {
        assert(registry[position(after, name)].name != name);
    }
}

/// Storing under one name brings no other name into the registry.
pub proof fn lemma_stored_adds_one_name(
    registry: Seq<UniformEntryView>,
    name: Seq<char>,
    location: i32,
    value: UniformValue,
    other: Seq<char>,
)
    requires
        other != name,
        !knows(registry, other),
    ensures
        !knows(stored(registry, name, location, value), other),
{
    let after = stored(registry, name, location, value);
    lemma_position_names(registry, name, 0);
    lemma_position_names(registry, other, 0);
    lemma_position_names(after, other, 0);
    if knows(after, other) {
        let at = position(after, other);
        if knows(registry, name) {
            assert(registry[at].name != other);
        } else if at < registry.len() {
            assert(registry[at].name != other);
        }
    }
}

/// Unknown uniforms are rejected. A name the driver disowns changes
/// nothing, and seeding brings no name into the registry but the one it was
/// asked for, under a location that is not negative.
pub proof fn lemma_unknown_uniform_rejected(
    registry: Seq<UniformEntryView>,
    name: Seq<char>,
    value: UniformValue,
    location: i32,
    other: Seq<char>,
)
    ensures
        location < 0 ==> seeded(registry, name, value, location) == registry,
        !knows(registry, other) && (other != name || location < 0) ==> !knows(
            seeded(registry, name, value, location),
            other,
        ),
{
    if !knows(registry, other) && other != name && location >= 0 {
        lemma_stored_adds_one_name(registry, name, location, value, other);
    }
}

} // verus!

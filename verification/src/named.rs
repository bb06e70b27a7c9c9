//! Lists of named uniform values, and how a list becomes a map: of two
//! values with one name the later one counts.

use vstd::prelude::*;
use crate::value::UniformValue;

verus! {

/// The ghost images of a list of named values, in order.
pub open spec fn uniform_views(uniforms: Seq<(String, UniformValue)>) -> Seq<
    (Seq<char>, UniformValue),
> {
    uniforms.map_values(|pair: (String, UniformValue)| (pair.0@, pair.1))
}

/// Whether no name occurs twice in the list.
pub open spec fn names_distinct(list: Seq<(Seq<char>, UniformValue)>) -> bool {
    forall|i: int, j: int|
        0 <= i < j < list.len() ==> (#[trigger] list[i]).0 != (#[trigger] list[j]).0
}

/// The index of the first entry at or after `from` that is called `name`, or
/// the list's length if there is none.
pub open spec fn place_from(list: Seq<(Seq<char>, UniformValue)>, name: Seq<char>, from: int) -> int
    decreases list.len() - from,
{
    if from < 0 || from >= list.len() {
        list.len() as int
    } else if list[from].0 == name {
        from
    } else {
        place_from(list, name, from + 1)
    }
}

/// The index of the first entry called `name`, or the list's length if there
/// is none.
pub open spec fn place(list: Seq<(Seq<char>, UniformValue)>, name: Seq<char>) -> int {
    place_from(list, name, 0)
}

/// The value of the first entry called `name`, if there is one.
pub open spec fn value_in(list: Seq<(Seq<char>, UniformValue)>, name: Seq<char>) -> Option<
    UniformValue,
> {
    if place(list, name) < list.len() {
        Some(list[place(list, name)].1)
    } else {
        None
    }
}

/// The value of the last entry called `name`, if there is one.
pub open spec fn last_value(list: Seq<(Seq<char>, UniformValue)>, name: Seq<char>) -> Option<
    UniformValue,
>
    decreases list.len(),
{
    if list.len() == 0 {
        None
    } else if list.last().0 == name {
        Some(list.last().1)
    } else {
        last_value(list.drop_last(), name)
    }
}

/// The list after `name` was given `value`: its entry is overwritten in
/// place, or a new one is added at the end.
pub open spec fn put(
    list: Seq<(Seq<char>, UniformValue)>,
    name: Seq<char>,
    value: UniformValue,
) -> Seq<(Seq<char>, UniformValue)> {
    if place(list, name) < list.len() {
        list.update(place(list, name), (name, value))
    } else {
        list.push((name, value))
    }
}

/// The list as a map: its entries are put one after the other, so that each
/// name stands once, where it first stood, with the value it had last.
pub open spec fn folded(list: Seq<(Seq<char>, UniformValue)>) -> Seq<(Seq<char>, UniformValue)>
    decreases list.len(),
{
    if list.len() == 0 {
        Seq::empty()
    } else {
        put(folded(list.drop_last()), list.last().0, list.last().1)
    }
}

/// What `place_from` finds: the first entry called `name`, with none of that
/// name before it.
pub proof fn lemma_place(list: Seq<(Seq<char>, UniformValue)>, name: Seq<char>, from: int)
    requires
        0 <= from,
    ensures
        from <= place_from(list, name, from) <= list.len() || from > list.len(),
        place_from(list, name, from) < list.len() ==> list[place_from(list, name, from)].0 == name,
        forall|i: int| from <= i < place_from(list, name, from) ==> (#[trigger] list[i]).0 != name,
    decreases list.len() - from,
{
    if from < list.len() && list[from].0 != name {
        lemma_place(list, name, from + 1);
    }
}

/// Putting a value keeps the names apart, gives `name` that value, and
/// leaves every other name with what it had.
pub proof fn lemma_put(
    list: Seq<(Seq<char>, UniformValue)>,
    name: Seq<char>,
    value: UniformValue,
    other: Seq<char>,
)
    requires
        names_distinct(list),
    ensures
        names_distinct(put(list, name, value)),
        value_in(put(list, name, value), name) == Some(value),
        other != name ==> value_in(put(list, name, value), other) == value_in(list, other),
{
    let after = put(list, name, value);
    lemma_place(list, name, 0);
    lemma_place(after, name, 0);
    lemma_place(list, other, 0);
    lemma_place(after, other, 0);
    let at = place(list, name);
    assert(after[at].0 == name);
    if place(after, name) < at {
        assert(list[place(after, name)].0 != name);
    }
    if other != name {
        let before = place(list, other);
        let now = place(after, other);
        if before < list.len() {
            assert(after[before].0 == other);
            if now < before {
                assert(list[now].0 != other);
            }
        } else if now < after.len() {
            if now < list.len() {
                assert(list[now].0 != other);
            }
        }
    }
}

/// What `folded` yields: a list in which no name stands twice, and in which
/// each name has the value that the given list gave it last.
pub proof fn lemma_folded(list: Seq<(Seq<char>, UniformValue)>, name: Seq<char>)
    ensures
        names_distinct(folded(list)),
        value_in(folded(list), name) == last_value(list, name),
    decreases list.len(),
{
    if list.len() > 0 {
        lemma_folded(list.drop_last(), name);
        lemma_put(folded(list.drop_last()), list.last().0, list.last().1, name);
    } else {
        lemma_place(folded(list), name, 0);
    }
}

/// A list whose names are apart already is its own map.
pub proof fn lemma_folded_distinct(list: Seq<(Seq<char>, UniformValue)>)
    requires
        names_distinct(list),
    ensures
        folded(list) == list,
    decreases list.len(),
{
    if list.len() > 0 {
        let front = list.drop_last();
        lemma_folded_distinct(front);
        lemma_place(front, list.last().0, 0);
        if place(front, list.last().0) < front.len() {
            assert(front[place(front, list.last().0)] == list[place(front, list.last().0)]);
        }
        assert(front.push(list.last()) =~= list);
    } else {
        assert(list =~= Seq::empty());
    }
}

/// The index of the entry called `name`.
fn find_name(uniforms: &Vec<(String, UniformValue)>, name: &String) -> (index: Option<usize>)
    ensures
        match index {
            Some(i) => i == place(uniform_views(uniforms@), name@) && i < uniforms.len(),
            None => place(uniform_views(uniforms@), name@) >= uniforms.len(),
        },
{
    let mut i: usize = 0;
    while i < uniforms.len()
        invariant
            i <= uniforms.len(),
            uniform_views(uniforms@).len() == uniforms.len(),
            place(uniform_views(uniforms@), name@) == place_from(
                uniform_views(uniforms@),
                name@,
                i as int,
            ),
        decreases uniforms.len() - i,
    {
        if uniforms[i].0 == *name {
            return Some(i);
        }
        i += 1;
    }
    None
}

/// Gives `name` the value `value` in the list, in place of what it had.
pub fn put_uniform(uniforms: &mut Vec<(String, UniformValue)>, name: String, value: UniformValue)
    ensures
        uniform_views(final(uniforms)@) == put(uniform_views(old(uniforms)@), name@, value),
{
    let found = find_name(uniforms, &name);
    let ghost pair = (name@, value);
    match found {
        Some(i) => {
            uniforms.set(i, (name, value));
            let ghost before = uniform_views(old(uniforms)@);
            assert(uniform_views(uniforms@) =~= before.update(i as int, pair));
        },
        None => {
            uniforms.push((name, value));
            assert(uniform_views(uniforms@) =~= uniform_views(old(uniforms)@).push(pair));
        },
    }
}

/// Makes a map of a list of named values: each name stands once, where it
/// first stood, with the value that was given last.
pub fn fold_uniforms(uniforms: Vec<(String, UniformValue)>) -> (map: Vec<(String, UniformValue)>)
    ensures
        uniform_views(map@) == folded(uniform_views(uniforms@)),
        names_distinct(uniform_views(map@)),
{
    let mut map: Vec<(String, UniformValue)> = Vec::new();
    let mut i: usize = 0;
    assert(uniform_views(uniforms@).subrange(0, 0) =~= Seq::empty());
    assert(uniform_views(map@) =~= Seq::empty());
    while i < uniforms.len()
        invariant
            i <= uniforms.len(),
            uniform_views(map@) == folded(uniform_views(uniforms@).subrange(0, i as int)),
        decreases uniforms.len() - i,
    {
        proof {
            let all = uniform_views(uniforms@);
            assert(all.subrange(0, i + 1).drop_last() =~= all.subrange(0, i as int));
            let last = uniforms@[i as int];
            assert(all.subrange(0, i + 1).last() == (last.0@, last.1));
        }
        put_uniform(&mut map, uniforms[i].0.clone(), uniforms[i].1);
        i += 1;
    }
    proof {
        assert(uniform_views(uniforms@).subrange(0, i as int) =~= uniform_views(uniforms@));
        lemma_folded(uniform_views(uniforms@), Seq::empty());
    }
    map
}

/// Whether no name occurs twice in the list.
pub fn names_are_distinct(uniforms: &Vec<(String, UniformValue)>) -> (ok: bool)
    ensures
        ok == names_distinct(uniform_views(uniforms@)),
{
    let n = uniforms.len();
    let ghost list = uniform_views(uniforms@);
    let mut i: usize = 0;
    while i < n
        invariant
            i <= n,
            n == uniforms.len(),
            list == uniform_views(uniforms@),
            list.len() == n,
            forall|k: int, l: int| 0 <= k < l < n && k < i ==> (#[trigger] list[k]).0 != (
            #[trigger] list[l]).0,
        decreases n - i,
    {
        let mut j: usize = i + 1;
        while j < n
            invariant
                i < j <= n,
                n == uniforms.len(),
                list == uniform_views(uniforms@),
                list.len() == n,
                forall|l: int| i < l < j ==> list[i as int].0 != (#[trigger] list[l]).0,
            decreases n - j,
        {
            if uniforms[i].0 == uniforms[j].0 {
                assert(list[i as int].0 == list[j as int].0);
                return false;
            }
            j += 1;
        }
        i += 1;
    }
    true
}

} // verus!

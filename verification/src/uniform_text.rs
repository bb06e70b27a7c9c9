//! Initial uniforms written as text.
//!
//! The text is a list of items parted by `;`. An item reads
//! `name:type:numbers`, where the type is one of `f`, `v2`, `v3`, `v4` and
//! `i`, and the numbers are parted by `,`. White space around an item and
//! around a number does not count; an item that is empty without it is
//! passed over.

use vstd::prelude::*;
use vstd::string::*;
use crate::named::{fold_uniforms, folded, names_distinct, uniform_views};
use crate::value::{FloatBits, UniformValue};
use crate::variant::{rejection_views, Rejection};

verus! {

/// Whether a character is white space, as the Unicode property has it.
pub open spec fn is_space(c: char) -> bool {
    let code = c as u32;
    ||| 0x09 <= code <= 0x0d
    ||| code == 0x20
    ||| code == 0x85
    ||| code == 0xa0
    ||| code == 0x1680
    ||| 0x2000 <= code <= 0x200a
    ||| code == 0x2028
    ||| code == 0x2029
    ||| code == 0x202f
    ||| code == 0x205f
    ||| code == 0x3000
}

/// The index of the first `mark` in `text[from..to]`, or `to` if there is
/// none.
pub open spec fn find(text: Seq<char>, mark: char, from: int, to: int) -> int
    decreases to - from,
{
    if from >= to {
        to
    } else if text[from] == mark {
        from
    } else {
        find(text, mark, from + 1, to)
    }
}

/// The stretches of `text[from..to]` between one `mark` and the next, as
/// pairs of a start and an end. There is always at least one, and one that
/// follows the last `mark` may be empty.
pub open spec fn fields(text: Seq<char>, mark: char, from: int, to: int) -> Seq<(int, int)>
    decreases to - from,
{
    let end = find(text, mark, from, to);
    if from <= end < to {
        seq![(from, end)] + fields(text, mark, end + 1, to)
    } else {
        seq![(from, to)]
    }
}

/// The index of the first character of `text[from..to]` that is no white
/// space, or `to` if there is none.
pub open spec fn trim_start(text: Seq<char>, from: int, to: int) -> int
    decreases to - from,
{
    if from >= to {
        to
    } else if !is_space(text[from]) {
        from
    } else {
        trim_start(text, from + 1, to)
    }
}

/// The index after the last character of `text[from..to]` that is no white
/// space, or `from` if there is none.
pub open spec fn trim_end(text: Seq<char>, from: int, to: int) -> int
    decreases to - from,
{
    if from >= to {
        from
    } else if !is_space(text[to - 1]) {
        to
    } else {
        trim_end(text, from, to - 1)
    }
}

/// A stretch without the white space at its ends.
pub open spec fn trimmed(text: Seq<char>, stretch: (int, int)) -> (int, int) {
    let start = trim_start(text, stretch.0, stretch.1);
    (start, trim_end(text, start, stretch.1))
}

/// The characters of a stretch.
pub open spec fn slice(text: Seq<char>, stretch: (int, int)) -> Seq<char> {
    text.subrange(stretch.0, stretch.1)
}

/// The types an item can name.
#[derive(Clone, Copy, Debug, PartialEq, Eq, Structural)]
pub enum TextType {
    /// `f`: one float.
    Float,
    /// `v2`: two floats.
    Vec2,
    /// `v3`: three floats.
    Vec3,
    /// `v4`: four floats.
    Vec4,
    /// `i`: one integer.
    Int,
}

/// The type that a word names.
pub open spec fn type_named(word: Seq<char>) -> Option<TextType> {
    if word == "f"@ {
        Some(TextType::Float)
    } else if word == "v2"@ {
        Some(TextType::Vec2)
    } else if word == "v3"@ {
        Some(TextType::Vec3)
    } else if word == "v4"@ {
        Some(TextType::Vec4)
    } else if word == "i"@ {
        Some(TextType::Int)
    } else {
        None
    }
}

/// One item of the text.
#[derive(Clone, Debug, PartialEq, Eq)]
pub enum TextItem {
    /// A uniform: its name, its type, and its numbers as they are written,
    /// without the white space around each.
    Uniform { name: String, kind: TextType, numbers: Vec<String> },
    /// An item that is not made of three parts.
    Invalid { text: String },
    /// An item whose type names none of the five.
    UnknownType { word: String },
}

/// Ghost image of a [`TextItem`].
pub enum TextItemView {
    Uniform { name: Seq<char>, kind: TextType, numbers: Seq<Seq<char>> },
    Invalid { text: Seq<char> },
    UnknownType { word: Seq<char> },
}

/// The ghost images of a list of strings, in order.
pub open spec fn string_views(strings: Seq<String>) -> Seq<Seq<char>> {
    strings.map_values(|string: String| string@)
}

impl View for TextItem {
    type V = TextItemView;

    open spec fn view(&self) -> TextItemView {
        match self {
            TextItem::Uniform { name, kind, numbers } => TextItemView::Uniform {
                name: name@,
                kind: *kind,
                numbers: string_views(numbers@),
            },
            TextItem::Invalid { text } => TextItemView::Invalid { text: text@ },
            TextItem::UnknownType { word } => TextItemView::UnknownType { word: word@ },
        }
    }
}

/// The ghost images of a list of items, in order.
pub open spec fn item_views(items: Seq<TextItem>) -> Seq<TextItemView> {
    items.map_values(|item: TextItem| item@)
}

/// The numbers of a stretch: its fields between commas, each trimmed.
pub open spec fn numbers_in(text: Seq<char>, stretch: (int, int)) -> Seq<Seq<char>> {
    fields(text, ',', stretch.0, stretch.1).map_values(
        |field: (int, int)| slice(text, trimmed(text, field)),
    )
}

/// What the item in a stretch reads as.
pub open spec fn item_in(text: Seq<char>, stretch: (int, int)) -> TextItemView {
    let parts = fields(text, ':', stretch.0, stretch.1);
    if parts.len() != 3 {
        TextItemView::Invalid { text: slice(text, stretch) }
    } else {
        match type_named(slice(text, parts[1])) {
            Some(kind) => TextItemView::Uniform {
                name: slice(text, parts[0]),
                kind,
                numbers: numbers_in(text, parts[2]),
            },
            None => TextItemView::UnknownType { word: slice(text, parts[1]) },
        }
    }
}

/// The items of the stretches from index `from` on: each stretch is trimmed
/// and, unless that leaves it empty, read as an item.
pub open spec fn items_from(text: Seq<char>, stretches: Seq<(int, int)>, from: int) -> Seq<
    TextItemView,
>
    decreases stretches.len() - from,
{
    if from < 0 || from >= stretches.len() {
        Seq::empty()
    } else {
        let stretch = trimmed(text, stretches[from]);
        let rest = items_from(text, stretches, from + 1);
        if stretch.0 >= stretch.1 {
            rest
        } else {
            seq![item_in(text, stretch)] + rest
        }
    }
}

/// The items of a text.
pub open spec fn items_of(text: Seq<char>) -> Seq<TextItemView> {
    items_from(text, fields(text, ';', 0, text.len() as int), 0)
}

/// Whether a character is white space.
pub fn space(c: char) -> (yes: bool)
    ensures
        yes == is_space(c),
{
    let code: u32 = c as u32;
    (0x09 <= code && code <= 0x0d) || code == 0x20 || code == 0x85 || code == 0xa0 || code
        == 0x1680 || (0x2000 <= code && code <= 0x200a) || code == 0x2028 || code == 0x2029
        || code == 0x202f || code == 0x205f || code == 0x3000
}

/// The characters of a string, one by one.
fn characters(text: &str) -> (chars: Vec<char>)
    ensures
        chars@ == text@,
{
    let n = text.unicode_len();
    let mut chars: Vec<char> = Vec::new();
    let mut i: usize = 0;
    while i < n
        invariant
            i <= n,
            n == text@.len(),
            chars@ =~= text@.subrange(0, i as int),
        decreases n - i,
    {
        chars.push(text.get_char(i));
        i += 1;
    }
    assert(text@.subrange(0, n as int) =~= text@);
    chars
}

fn find_mark(chars: &Vec<char>, mark: char, from: usize, to: usize) -> (at: usize)
    requires
        from <= to <= chars.len(),
    ensures
        at == find(chars@, mark, from as int, to as int),
        from <= at <= to,
{
    let mut at = from;
    while at < to
        invariant
            from <= at <= to <= chars.len(),
            find(chars@, mark, from as int, to as int) == find(chars@, mark, at as int, to as int),
        decreases to - at,
    {
        if chars[at] == mark {
            return at;
        }
        at += 1;
    }
    at
}

/// Whether every stretch lies in `[from, to]` and runs forward.
pub open spec fn stretches_within(stretches: Seq<(int, int)>, from: int, to: int) -> bool {
    forall|k: int|
        0 <= k < stretches.len() ==> from <= (#[trigger] stretches[k]).0 <= stretches[k].1 <= to
}

/// The ghost images of a list of stretches, in order.
pub open spec fn stretch_views(stretches: Seq<(usize, usize)>) -> Seq<(int, int)> {
    stretches.map_values(|stretch: (usize, usize)| (stretch.0 as int, stretch.1 as int))
}

/// What `find` finds: the first `mark` of the stretch, with none before it.
pub proof fn lemma_find_first(text: Seq<char>, mark: char, from: int, to: int)
    requires
        from <= to,
    ensures
        from <= find(text, mark, from, to) <= to,
        find(text, mark, from, to) < to ==> text[find(text, mark, from, to)] == mark,
        forall|i: int| from <= i < find(text, mark, from, to) ==> text[i] != mark,
    decreases to - from,
{
    if from < to && text[from] != mark {
        lemma_find_first(text, mark, from + 1, to);
    }
}

/// What `fields` yields: stretches that tile `text[from..to]`. The first
/// begins at `from`, the last ends at `to`, each one ends on a `mark` that
/// the next one follows, and none holds a `mark`.
pub proof fn lemma_fields_tile(text: Seq<char>, mark: char, from: int, to: int)
    requires
        0 <= from <= to <= text.len(),
    ensures
        ({
            let found = fields(text, mark, from, to);
            &&& found.len() >= 1
            &&& found[0].0 == from
            &&& found[found.len() - 1].1 == to
            &&& stretches_within(found, from, to)
            &&& forall|k: int|
                0 <= k < found.len() - 1 ==> text[(#[trigger] found[k]).1] == mark && found[k
                    + 1].0 == found[k].1 + 1
            &&& forall|k: int, i: int|
                0 <= k < found.len() && (#[trigger] found[k]).0 <= i < found[k].1 ==> (
                #[trigger] text[i]) != mark
        }),
    decreases to - from,
{
    let end = find(text, mark, from, to);
    let found = fields(text, mark, from, to);
    lemma_find_first(text, mark, from, to);
    if from <= end < to {
        lemma_fields_tile(text, mark, end + 1, to);
        let rest = fields(text, mark, end + 1, to);
        assert forall|k: int| 0 <= k < found.len() implies from <= (#[trigger] found[k]).0
            <= found[k].1 <= to by {
            if k > 0 {
                assert(found[k] == rest[k - 1]);
            }
        }
        assert forall|k: int| 0 <= k < found.len() - 1 implies text[(#[trigger] found[k]).1]
            == mark && found[k + 1].0 == found[k].1 + 1 by {
            assert(found[k + 1] == rest[k]);
            if k > 0 {
                assert(found[k] == rest[k - 1]);
            }
        }
        assert forall|k: int, i: int|
            0 <= k < found.len() && (#[trigger] found[k]).0 <= i < found[k].1 implies (
        #[trigger] text[i]) != mark by {
            if k > 0 {
                assert(found[k] == rest[k - 1]);
            }
        }
        assert(found[found.len() - 1] == rest[rest.len() - 1]);
    }
}

/// What `trimmed` yields: a stretch inside the given one that neither
/// begins nor ends with white space, and leaves out white space only.
pub proof fn lemma_trimmed_is_tight(text: Seq<char>, from: int, to: int)
    requires
        0 <= from <= to <= text.len(),
    ensures
        ({
            let kept = trimmed(text, (from, to));
            &&& from <= kept.0 <= kept.1 <= to
            &&& kept.0 < kept.1 ==> !is_space(text[kept.0]) && !is_space(text[kept.1 - 1])
            &&& forall|i: int| from <= i < kept.0 ==> is_space(#[trigger] text[i])
            &&& forall|i: int| kept.1 <= i < to ==> is_space(#[trigger] text[i])
        }),
{
    lemma_trim_start(text, from, to);
    lemma_trim_end(text, trim_start(text, from, to), to);
}

proof fn lemma_trim_start(text: Seq<char>, from: int, to: int)
    requires
        from <= to,
    ensures
        from <= trim_start(text, from, to) <= to,
        trim_start(text, from, to) < to ==> !is_space(text[trim_start(text, from, to)]),
        forall|i: int| from <= i < trim_start(text, from, to) ==> is_space(#[trigger] text[i]),
    decreases to - from,
{
    if from < to && is_space(text[from]) {
        lemma_trim_start(text, from + 1, to);
    }
}

proof fn lemma_trim_end(text: Seq<char>, from: int, to: int)
    requires
        from <= to,
    ensures
        from <= trim_end(text, from, to) <= to,
        from < trim_end(text, from, to) ==> !is_space(text[trim_end(text, from, to) - 1]),
        forall|i: int| trim_end(text, from, to) <= i < to ==> is_space(#[trigger] text[i]),
    decreases to - from,
{
    if from < to && is_space(text[to - 1]) {
        lemma_trim_end(text, from, to - 1);
    }
}

fn split(chars: &Vec<char>, mark: char, from: usize, to: usize) -> (stretches: Vec<(usize, usize)>)
    requires
        from <= to <= chars.len(),
    ensures
        stretch_views(stretches@) == fields(chars@, mark, from as int, to as int),
        stretches_within(stretch_views(stretches@), from as int, to as int),
        stretches@.len() >= 1,
{
    let mut stretches: Vec<(usize, usize)> = Vec::new();
    let mut start = from;
    proof {
        lemma_fields_tile(chars@, mark, from as int, to as int);
    }
    loop
        invariant_except_break
            stretch_views(stretches@) + fields(chars@, mark, start as int, to as int) == fields(
                chars@,
                mark,
                from as int,
                to as int,
            ),
        invariant
            from <= start <= to <= chars.len(),
        ensures
            stretch_views(stretches@) == fields(chars@, mark, from as int, to as int),
        decreases to - start,
    {
        let end = find_mark(chars, mark, start, to);
        let ghost before = stretch_views(stretches@);
        stretches.push((start, end));
        assert(stretch_views(stretches@) =~= before.push((start as int, end as int)));
        if end < to {
            assert(before.push((start as int, end as int)) + fields(
                chars@,
                mark,
                end + 1,
                to as int,
            ) =~= before + fields(chars@, mark, start as int, to as int));
            start = end + 1;
        } else {
            assert(before.push((start as int, end as int)) =~= before + fields(
                chars@,
                mark,
                start as int,
                to as int,
            ));
            break;
        }
    }
    stretches
}

fn trim(chars: &Vec<char>, from: usize, to: usize) -> (kept: (usize, usize))
    requires
        from <= to <= chars.len(),
    ensures
        (kept.0 as int, kept.1 as int) == trimmed(chars@, (from as int, to as int)),
        from <= kept.0 <= kept.1 <= to,
{
    let mut start = from;
    while start < to && space(chars[start])
        invariant
            from <= start <= to <= chars.len(),
            trim_start(chars@, from as int, to as int) == trim_start(
                chars@,
                start as int,
                to as int,
            ),
        decreases to - start,
    {
        start += 1;
    }
    let mut end = to;
    while start < end && space(chars[end - 1])
        invariant
            start <= end <= to <= chars.len(),
            trim_end(chars@, start as int, to as int) == trim_end(chars@, start as int, end as int),
        decreases end - start,
    {
        end -= 1;
    }
    (start, end)
}

fn copy_slice(text: &str, from: usize, to: usize) -> (copy: String)
    requires
        from <= to <= text@.len(),
    ensures
        copy@ == slice(text@, (from as int, to as int)),
{
    String::from_str(text.substring_char(from, to))
}

fn type_of(chars: &Vec<char>, from: usize, to: usize) -> (kind: Option<TextType>)
    requires
        from <= to <= chars.len(),
    ensures
        kind == type_named(slice(chars@, (from as int, to as int))),
{
    let ghost word = slice(chars@, (from as int, to as int));
    proof {
        reveal_strlit("f");
        reveal_strlit("v2");
        reveal_strlit("v3");
        reveal_strlit("v4");
        reveal_strlit("i");
        assert(word.len() == to - from);
    }
    if to - from == 1 {
        assert(word[0] == chars@[from as int]);
        if chars[from] == 'f' {
            assert(word =~= "f"@);
            Some(TextType::Float)
        } else if chars[from] == 'i' {
            assert(word =~= "i"@);
            Some(TextType::Int)
        } else {
            None
        }
    } else if to - from == 2 {
        assert(word[0] == chars@[from as int]);
        assert(word[1] == chars@[from + 1]);
        if chars[from] == 'v' && chars[from + 1] == '2' {
            assert(word =~= "v2"@);
            Some(TextType::Vec2)
        } else if chars[from] == 'v' && chars[from + 1] == '3' {
            assert(word =~= "v3"@);
            Some(TextType::Vec3)
        } else if chars[from] == 'v' && chars[from + 1] == '4' {
            assert(word =~= "v4"@);
            Some(TextType::Vec4)
        } else {
            None
        }
    } else {
        None
    }
}

fn numbers_of(text: &str, chars: &Vec<char>, from: usize, to: usize) -> (numbers: Vec<String>)
    requires
        chars@ == text@,
        from <= to <= chars.len(),
    ensures
        string_views(numbers@) == numbers_in(text@, (from as int, to as int)),
{
    let stretches = split(chars, ',', from, to);
    let mut numbers: Vec<String> = Vec::new();
    let mut k: usize = 0;
    while k < stretches.len()
        invariant
            k <= stretches.len(),
            chars@ == text@,
            from <= to <= chars.len(),
            stretches_within(stretch_views(stretches@), from as int, to as int),
            numbers@.len() == k,
            forall|j: int|
                0 <= j < k ==> (#[trigger] numbers@[j])@ == slice(
                    text@,
                    trimmed(text@, stretch_views(stretches@)[j]),
                ),
        decreases stretches.len() - k,
    {
        let field = stretches[k];
        assert(stretch_views(stretches@)[k as int] == (field.0 as int, field.1 as int));
        let kept = trim(chars, field.0, field.1);
        numbers.push(copy_slice(text, kept.0, kept.1));
        k += 1;
    }
    assert(string_views(numbers@) =~= numbers_in(text@, (from as int, to as int)));
    numbers
}

fn item_of(text: &str, chars: &Vec<char>, from: usize, to: usize) -> (item: TextItem)
    requires
        chars@ == text@,
        from <= to <= chars.len(),
    ensures
        item@ == item_in(text@, (from as int, to as int)),
{
    let parts = split(chars, ':', from, to);
    if parts.len() != 3 {
        return TextItem::Invalid { text: copy_slice(text, from, to) };
    }
    let name = parts[0];
    let kind = parts[1];
    let numbers = parts[2];
    assert(stretch_views(parts@)[0] == (name.0 as int, name.1 as int));
    assert(stretch_views(parts@)[1] == (kind.0 as int, kind.1 as int));
    assert(stretch_views(parts@)[2] == (numbers.0 as int, numbers.1 as int));
    match type_of(chars, kind.0, kind.1) {
        Some(found) => TextItem::Uniform {
            name: copy_slice(text, name.0, name.1),
            kind: found,
            numbers: numbers_of(text, chars, numbers.0, numbers.1),
        },
        None => TextItem::UnknownType { word: copy_slice(text, kind.0, kind.1) },
    }
}

/// Reads a text of initial uniforms into its items, in order. The numbers
/// of a uniform are handed back as they are written; [`TextItem::value`]
/// takes them once they are read as floats.
pub fn parse_uniform_spec(spec: &str) -> (items: Vec<TextItem>)
    ensures
        item_views(items@) == items_of(spec@),
{
    let chars = characters(spec);
    let stretches = split(&chars, ';', 0, chars.len());
    let ghost all = stretch_views(stretches@);
    let mut found: Vec<TextItem> = Vec::new();
    assert(item_views(found@) =~= Seq::<TextItemView>::empty());
    let mut j: usize = 0;
    while j < stretches.len()
        invariant
            j <= stretches.len(),
            chars@ == spec@,
            all == stretch_views(stretches@),
            stretches_within(all, 0, chars.len() as int),
            item_views(found@) + items_from(spec@, all, j as int) == items_from(spec@, all, 0),
        decreases stretches.len() - j,
    {
        let field = stretches[j];
        assert(all[j as int] == (field.0 as int, field.1 as int));
        let kept = trim(&chars, field.0, field.1);
        let ghost before = item_views(found@);
        if kept.0 < kept.1 {
            let item = item_of(spec, &chars, kept.0, kept.1);
            found.push(item);
            assert(item_views(found@) =~= before.push(item@));
            assert(before.push(item@) + items_from(spec@, all, j + 1) =~= before + items_from(
                spec@,
                all,
                j as int,
            ));
        }
        j += 1;
    }
    assert(item_views(found@) =~= item_views(found@) + items_from(spec@, all, j as int));
    found
}

/// How many numbers a type calls for.
pub open spec fn arity(kind: TextType) -> nat {
    match kind {
        TextType::Float => 1,
        TextType::Vec2 => 2,
        TextType::Vec3 => 3,
        TextType::Vec4 => 4,
        TextType::Int => 1,
    }
}

/// The index of the first number at or after `from` that is no float, or the
/// count of numbers if every one of them is.
pub open spec fn first_unread(numbers: Seq<Option<FloatBits>>, from: int) -> int
    decreases numbers.len() - from,
{
    if from < 0 || from >= numbers.len() {
        numbers.len() as int
    } else if numbers[from] is None {
        from
    } else {
        first_unread(numbers, from + 1)
    }
}

/// Whether every number reads as a float.
pub open spec fn all_read(numbers: Seq<Option<FloatBits>>) -> bool {
    forall|i: int| 0 <= i < numbers.len() ==> (#[trigger] numbers[i]) is Some
}

/// The value of a uniform of type `kind` whose numbers are `numbers`, as
/// many as the type calls for and each of them a float. An integer is its
/// float cut toward zero.
pub open spec fn value_of(kind: TextType, numbers: Seq<Option<FloatBits>>) -> UniformValue {
    match kind {
        TextType::Float => UniformValue::Float(numbers[0].unwrap()),
        TextType::Vec2 => UniformValue::Vec2([numbers[0].unwrap(), numbers[1].unwrap()]),
        TextType::Vec3 => UniformValue::Vec3(
            [numbers[0].unwrap(), numbers[1].unwrap(), numbers[2].unwrap()],
        ),
        TextType::Vec4 => UniformValue::Vec4(
            [numbers[0].unwrap(), numbers[1].unwrap(), numbers[2].unwrap(), numbers[3].unwrap()],
        ),
        TextType::Int => UniformValue::Int(numbers[0].unwrap().truncated() as i32),
    }
}

/// What the numbers of an item come to: the uniform's value where there
/// are as many as the type calls for and each is a float, and the reason why
/// not otherwise. A wrong count is told before a number that is none.
pub open spec fn judged(kind: TextType, numbers: Seq<Option<FloatBits>>) -> Result<
    UniformValue,
    Rejection,
> {
    if numbers.len() != arity(kind) {
        Err(Rejection::WrongLength(numbers.len() as usize))
    } else if first_unread(numbers, 0) < numbers.len() {
        Err(Rejection::NotANumber(first_unread(numbers, 0) as usize))
    } else {
        Ok(value_of(kind, numbers))
    }
}

/// What `first_unread` finds: the first number that is no float, with
/// floats only before it.
pub proof fn lemma_first_unread(numbers: Seq<Option<FloatBits>>, from: int)
    requires
        0 <= from,
    ensures
        from <= first_unread(numbers, from) <= numbers.len() || from > numbers.len(),
        first_unread(numbers, from) < numbers.len() ==> numbers[first_unread(numbers, from)]
            is None,
        forall|i: int| from <= i < first_unread(numbers, from) ==> (#[trigger] numbers[i]) is Some,
        from == 0 ==> (first_unread(numbers, 0) >= numbers.len() <==> all_read(numbers)),
    decreases numbers.len() - from,
{
    if from < numbers.len() && numbers[from] is Some {
        lemma_first_unread(numbers, from + 1);
    }
}

/// How many numbers a type calls for.
fn count_for(kind: TextType) -> (count: usize)
    ensures
        count == arity(kind),
{
    match kind {
        TextType::Float => 1,
        TextType::Vec2 => 2,
        TextType::Vec3 => 3,
        TextType::Vec4 => 4,
        TextType::Int => 1,
    }
}

/// The value of a uniform of type `kind` from its numbers, each read as a
/// float or found to be none. The item is rejected unless it has as many
/// numbers as its type calls for and every one of them is a float.
pub fn uniform_from_numbers(kind: TextType, numbers: &Vec<Option<FloatBits>>) -> (value: Result<
    UniformValue,
    Rejection,
>)
    ensures
        value == judged(kind, numbers@),
        value is Ok <==> numbers@.len() == arity(kind) && all_read(numbers@),
        value is Ok ==> value->Ok_0 == value_of(kind, numbers@),
{
    proof {
        lemma_first_unread(numbers@, 0);
    }
    if numbers.len() != count_for(kind) {
        return Err(Rejection::WrongLength(numbers.len()));
    }
    let mut floats: Vec<FloatBits> = Vec::new();
    let mut k: usize = 0;
    while k < numbers.len()
        invariant
            k <= numbers.len(),
            numbers@.len() == arity(kind),
            floats@.len() == k,
            first_unread(numbers@, 0) == first_unread(numbers@, k as int),
            forall|i: int| 0 <= i < k ==> numbers@[i] == Some(#[trigger] floats@[i]),
        decreases numbers.len() - k,
    {
        match numbers[k] {
            Some(number) => {
                floats.push(number);
            },
            None => {
                return Err(Rejection::NotANumber(k));
            },
        }
        k += 1;
    }
    Ok(
        match kind {
            TextType::Float => UniformValue::Float(floats[0]),
            TextType::Vec2 => UniformValue::Vec2([floats[0], floats[1]]),
            TextType::Vec3 => UniformValue::Vec3([floats[0], floats[1], floats[2]]),
            TextType::Vec4 => UniformValue::Vec4([floats[0], floats[1], floats[2], floats[3]]),
            TextType::Int => UniformValue::Int(floats[0].to_i32()),
        },
    )
}

/// The numbers of the items as a host read them, one list for each item.
pub open spec fn read_views(read: Seq<Vec<Option<FloatBits>>>) -> Seq<Seq<Option<FloatBits>>> {
    read.map_values(|numbers: Vec<Option<FloatBits>>| numbers@)
}

/// The numbers read for the item at `index`; none where the host handed
/// over fewer lists than there are items.
pub open spec fn numbers_read(read: Seq<Seq<Option<FloatBits>>>, index: int) -> Seq<
    Option<FloatBits>,
> {
    if 0 <= index < read.len() {
        read[index]
    } else {
        Seq::empty()
    }
}

/// The uniforms among the first `upto` items whose numbers are in order,
/// each with its name and value, as they come.
pub open spec fn text_accepted(
    items: Seq<TextItemView>,
    read: Seq<Seq<Option<FloatBits>>>,
    upto: int,
) -> Seq<(Seq<char>, UniformValue)>
    decreases upto,
{
    if upto <= 0 {
        Seq::empty()
    } else {
        let before = text_accepted(items, read, upto - 1);
        match items[upto - 1] {
            TextItemView::Uniform { name, kind, .. } => match judged(
                kind,
                numbers_read(read, upto - 1),
            ) {
                Ok(value) => before.push((name, value)),
                Err(_) => before,
            },
            _ => before,
        }
    }
}

/// The uniforms among the first `upto` items whose numbers are not in
/// order, each with its name and the reason, as they come.
pub open spec fn text_refused(
    items: Seq<TextItemView>,
    read: Seq<Seq<Option<FloatBits>>>,
    upto: int,
) -> Seq<(Seq<char>, Rejection)>
    decreases upto,
{
    if upto <= 0 {
        Seq::empty()
    } else {
        let before = text_refused(items, read, upto - 1);
        match items[upto - 1] {
            TextItemView::Uniform { name, kind, .. } => match judged(
                kind,
                numbers_read(read, upto - 1),
            ) {
                Ok(_) => before,
                Err(reason) => before.push((name, reason)),
            },
            _ => before,
        }
    }
}

/// What a text of initial uniforms comes to.
#[derive(Clone, Debug, PartialEq, Eq)]
pub struct TextUniforms {
    /// The uniforms, each name once, ready for a surface.
    pub uniforms: Vec<(String, UniformValue)>,
    /// The names that were left out, each with the reason.
    pub rejected: Vec<(String, Rejection)>,
}

/// Turns the items of a text into initial uniforms. `read` holds, for each
/// item in order, its numbers as the host read them: a float, or `None` for
/// text that is none. An item with a wrong count of numbers, or with a
/// number that is no float, is left out and named in `rejected`; the others
/// are not affected by it. Of two items with one name the later one counts.
pub fn uniforms_from_items(items: &Vec<TextItem>, read: &Vec<Vec<Option<FloatBits>>>) -> (parsed:
    TextUniforms)
    ensures
        uniform_views(parsed.uniforms@) == folded(
            text_accepted(item_views(items@), read_views(read@), items@.len() as int),
        ),
        names_distinct(uniform_views(parsed.uniforms@)),
        rejection_views(parsed.rejected@) == text_refused(
            item_views(items@),
            read_views(read@),
            items@.len() as int,
        ),
{
    let mut accepted: Vec<(String, UniformValue)> = Vec::new();
    let mut rejected: Vec<(String, Rejection)> = Vec::new();
    let none: Vec<Option<FloatBits>> = Vec::new();
    let mut k: usize = 0;
    assert(uniform_views(accepted@) =~= Seq::empty());
    assert(rejection_views(rejected@) =~= Seq::empty());
    while k < items.len()
        invariant
            k <= items.len(),
            none@.len() == 0,
            uniform_views(accepted@) == text_accepted(
                item_views(items@),
                read_views(read@),
                k as int,
            ),
            rejection_views(rejected@) == text_refused(
                item_views(items@),
                read_views(read@),
                k as int,
            ),
        decreases items.len() - k,
    {
        let ghost before_accepted = uniform_views(accepted@);
        let ghost before_rejected = rejection_views(rejected@);
        match &items[k] {
            TextItem::Uniform { name, kind, .. } => {
                let numbers = if k < read.len() {
                    &read[k]
                } else {
                    &none
                };
                assert(numbers@ =~= numbers_read(read_views(read@), k as int));
                match uniform_from_numbers(*kind, numbers) {
                    Ok(value) => {
                        accepted.push((name.clone(), value));
                        assert(uniform_views(accepted@) =~= before_accepted.push((name@, value)));
                    },
                    Err(reason) => {
                        rejected.push((name.clone(), reason));
                        assert(rejection_views(rejected@) =~= before_rejected.push(
                            (name@, reason),
                        ));
                    },
                }
            },
            _ => {},
        }
        k += 1;
    }
    TextUniforms { uniforms: fold_uniforms(accepted), rejected }
}

} // verus!

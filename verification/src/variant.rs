//! Initial uniforms as a host hands them over: a dictionary from names to
//! loosely typed values, of which only some shapes can become uniforms.

use vstd::prelude::*;
use crate::named::uniform_views;
use crate::value::{FloatBits, UniformValue};

verus! {

/// A dictionary value. Doubles arrive narrowed to single precision.
#[derive(Clone, Debug, PartialEq, Eq)]
pub enum VariantValue {
    /// One double.
    Double(FloatBits),
    /// An array of doubles.
    DoubleArray(Vec<FloatBits>),
    /// One 32-bit integer.
    Int32(i32),
    /// An array of 32-bit integers.
    Int32Array(Vec<i32>),
    /// Anything else.
    Other,
}

/// Ghost image of a [`VariantValue`].
pub enum VariantValueView {
    Double(FloatBits),
    DoubleArray(Seq<FloatBits>),
    Int32(i32),
    Int32Array(Seq<i32>),
    Other,
}

impl View for VariantValue {
    type V = VariantValueView;

    open spec fn view(&self) -> VariantValueView {
        match self {
            VariantValue::Double(x) => VariantValueView::Double(*x),
            VariantValue::DoubleArray(xs) => VariantValueView::DoubleArray(xs@),
            VariantValue::Int32(x) => VariantValueView::Int32(*x),
            VariantValue::Int32Array(xs) => VariantValueView::Int32Array(xs@),
            VariantValue::Other => VariantValueView::Other,
        }
    }
}

/// Why an entry cannot become a uniform.
#[derive(Clone, Copy, Debug, PartialEq, Eq, Structural)]
pub enum Rejection {
    /// This many components, where the shape calls for another count.
    WrongLength(usize),
    /// A value that is neither a number nor an array of numbers.
    UnsupportedType,
    /// The component at this index does not read as a number.
    NotANumber(usize),
}

/// The uniform a dictionary value stands for, or why it stands for none.
pub open spec fn classified(value: VariantValueView) -> Result<UniformValue, Rejection> {
    match value {
        VariantValueView::Double(x) => Ok(UniformValue::Float(x)),
        VariantValueView::DoubleArray(xs) => if xs.len() == 2 {
            Ok(UniformValue::Vec2([xs[0], xs[1]]))
        } else if xs.len() == 3 {
            Ok(UniformValue::Vec3([xs[0], xs[1], xs[2]]))
        } else if xs.len() == 4 {
            Ok(UniformValue::Vec4([xs[0], xs[1], xs[2], xs[3]]))
        } else {
            Err(Rejection::WrongLength(xs.len() as usize))
        },
        VariantValueView::Int32(x) => Ok(UniformValue::Int(x)),
        VariantValueView::Int32Array(xs) => if xs.len() == 2 {
            Ok(UniformValue::IVec2([xs[0], xs[1]]))
        } else if xs.len() == 3 {
            Ok(UniformValue::IVec3([xs[0], xs[1], xs[2]]))
        } else if xs.len() == 4 {
            Ok(UniformValue::IVec4([xs[0], xs[1], xs[2], xs[3]]))
        } else {
            Err(Rejection::WrongLength(xs.len() as usize))
        },
        VariantValueView::Other => Err(Rejection::UnsupportedType),
    }
}

/// The uniform a dictionary value stands for, or why it stands for none.
pub fn classify(value: &VariantValue) -> (result: Result<UniformValue, Rejection>)
    ensures
        result == classified(value@),
{
    match value {
        VariantValue::Double(x) => Ok(UniformValue::Float(*x)),
        VariantValue::DoubleArray(xs) => {
            if xs.len() == 2 {
                Ok(UniformValue::Vec2([xs[0], xs[1]]))
            } else if xs.len() == 3 {
                Ok(UniformValue::Vec3([xs[0], xs[1], xs[2]]))
            } else if xs.len() == 4 {
                Ok(UniformValue::Vec4([xs[0], xs[1], xs[2], xs[3]]))
            } else {
                Err(Rejection::WrongLength(xs.len()))
            }
        },
        VariantValue::Int32(x) => Ok(UniformValue::Int(*x)),
        VariantValue::Int32Array(xs) => {
            if xs.len() == 2 {
                Ok(UniformValue::IVec2([xs[0], xs[1]]))
            } else if xs.len() == 3 {
                Ok(UniformValue::IVec3([xs[0], xs[1], xs[2]]))
            } else if xs.len() == 4 {
                Ok(UniformValue::IVec4([xs[0], xs[1], xs[2], xs[3]]))
            } else {
                Err(Rejection::WrongLength(xs.len()))
            }
        },
        VariantValue::Other => Err(Rejection::UnsupportedType),
    }
}

/// The ghost images of a dictionary's entries, in order.
pub open spec fn entry_views(entries: Seq<(String, VariantValue)>) -> Seq<
    (Seq<char>, VariantValueView),
> {
    entries.map_values(|entry: (String, VariantValue)| (entry.0@, entry.1@))
}

/// The ghost images of a list of rejected names, in order.
pub open spec fn rejection_views(rejected: Seq<(String, Rejection)>) -> Seq<
    (Seq<char>, Rejection),
> {
    rejected.map_values(|entry: (String, Rejection)| (entry.0@, entry.1))
}

/// The entries that stand for a uniform, in order, each as that uniform.
pub open spec fn accepted(entries: Seq<(Seq<char>, VariantValueView)>) -> Seq<
    (Seq<char>, UniformValue),
>
    decreases entries.len(),
{
    if entries.len() == 0 {
        Seq::empty()
    } else {
        let before = accepted(entries.drop_last());
        match classified(entries.last().1) {
            Ok(value) => before.push((entries.last().0, value)),
            Err(_) => before,
        }
    }
}

/// The entries that stand for no uniform, in order, each with the reason.
pub open spec fn refused(entries: Seq<(Seq<char>, VariantValueView)>) -> Seq<
    (Seq<char>, Rejection),
>
    decreases entries.len(),
{
    if entries.len() == 0 {
        Seq::empty()
    } else {
        let before = refused(entries.drop_last());
        match classified(entries.last().1) {
            Ok(_) => before,
            Err(reason) => before.push((entries.last().0, reason)),
        }
    }
}

/// What a dictionary of initial uniforms comes to.
#[derive(Clone, Debug, PartialEq, Eq)]
pub struct ParsedUniforms {
    /// The uniforms, ready for a surface.
    pub uniforms: Vec<(String, UniformValue)>,
    /// The names that were left out, each with the reason.
    pub rejected: Vec<(String, Rejection)>,
    /// Whether what was handed over was no dictionary at all.
    pub malformed: bool,
}

/// Turns a dictionary of loosely typed values into initial uniforms. An
/// entry of another shape is left out and named in `rejected`; the others
/// are not affected by it. `None` stands for a value that is no dictionary:
/// it yields no uniforms.
pub fn parse_uniforms(variant: Option<Vec<(String, VariantValue)>>) -> (parsed: ParsedUniforms)
    ensures
        parsed.malformed == (variant is None),
        match variant {
            Some(entries) => {
                &&& uniform_views(parsed.uniforms@) == accepted(entry_views(entries@))
                &&& rejection_views(parsed.rejected@) == refused(entry_views(entries@))
            },
            None => parsed.uniforms@.len() == 0 && parsed.rejected@.len() == 0,
        },
{
    let mut uniforms: Vec<(String, UniformValue)> = Vec::new();
    let mut rejected: Vec<(String, Rejection)> = Vec::new();
    let entries = match variant {
        Some(entries) => entries,
        None => {
            return ParsedUniforms { uniforms, rejected, malformed: true };
        },
    };
    let mut i: usize = 0;
    assert(entry_views(entries@).subrange(0, 0) =~= Seq::empty());
    assert(uniform_views(uniforms@) =~= Seq::empty());
    assert(rejection_views(rejected@) =~= Seq::empty());
    while i < entries.len()
        invariant
            i <= entries.len(),
            uniform_views(uniforms@) == accepted(entry_views(entries@).subrange(0, i as int)),
            rejection_views(rejected@) == refused(entry_views(entries@).subrange(0, i as int)),
        decreases entries.len() - i,
    {
        proof {
            let all = entry_views(entries@);
            assert(all.subrange(0, i + 1).drop_last() =~= all.subrange(0, i as int));
            assert(all.subrange(0, i + 1).last() == (entries@[i as int].0@, entries@[i as int].1@));
        }
        let ghost before_uniforms = uniform_views(uniforms@);
        let ghost before_rejected = rejection_views(rejected@);
        match classify(&entries[i].1) {
            Ok(value) => {
                uniforms.push((entries[i].0.clone(), value));
                assert(uniform_views(uniforms@) =~= before_uniforms.push(
                    (entries@[i as int].0@, value),
                ));
            },
            Err(reason) => {
                rejected.push((entries[i].0.clone(), reason));
                assert(rejection_views(rejected@) =~= before_rejected.push(
                    (entries@[i as int].0@, reason),
                ));
            },
        }
        i += 1;
    }
    assert(entry_views(entries@).subrange(0, i as int) =~= entry_views(entries@));
    ParsedUniforms { uniforms, rejected, malformed: false }
}

} // verus!

//! Shader source texts and sampler names.

use vstd::prelude::*;
use vstd::string::*;

verus! {

/// The version and precision header for the context's flavor: the embedded
/// profile when `es` holds, the desktop core profile otherwise.
pub open spec fn version_header(es: bool) -> Seq<char> {
    if es {
        "#version 300 es\nprecision highp float;\n"@
    } else {
        "#version 330 core\n"@
    }
}

/// The vertex stage below its header. It takes the quad's corner from the
/// vertex index alone, (0,0), (1,0), (0,1), (1,1) for the indices 0 to 3, and
/// hands it on as `uv`.
pub const VERTEX_BODY: &'static str =
    "\nout vec2 uv;\n\
void main() {\n    \
    vec2 pos = vec2(float(gl_VertexID & 1),\n                    \
                    float((gl_VertexID >> 1) & 1));\n    \
    uv          = pos;\n    \
    gl_Position = vec4(pos * 2.0 - 1.0, 0.0, 1.0);\n\
}\n";

/// The vertex stage below its header, as characters.
pub open spec fn vertex_body() -> Seq<char> {
    VERTEX_BODY@
}

/// The whole vertex stage for a flavor.
pub open spec fn vertex_source(es: bool) -> Seq<char> {
    version_header(es) + vertex_body()
}

/// The whole fragment stage: the flavor's header, then the caller's text.
pub open spec fn fragment_source(es: bool, shader: Seq<char>) -> Seq<char> {
    version_header(es) + shader
}

/// The header text for the context's flavor.
pub fn glsl_version(es: bool) -> (header: &'static str)
    ensures
        header@ == version_header(es),
{
    if es {
        "#version 300 es\nprecision highp float;\n"
    } else {
        "#version 330 core\n"
    }
}

/// Builds the vertex stage for a fullscreen quad below the given header.
pub fn build_vertex_shader(glsl_version: &str) -> (source: String)
    ensures
        source@ == glsl_version@ + vertex_body(),
{
    let header = String::from_str(glsl_version);
    header.concat(VERTEX_BODY)
}

/// Builds the fragment stage: the given header, then the caller's text.
pub fn build_fragment_shader(glsl_version: &str, shader: &str) -> (source: String)
    ensures
        source@ == glsl_version@ + shader@,
{
    let header = String::from_str(glsl_version);
    header.concat(shader)
}

/// The character for a decimal digit.
pub open spec fn digit(d: nat) -> char {
    (d + 48) as char
}

/// A number in decimal, without sign or leading zeros.
pub open spec fn decimal(n: nat) -> Seq<char>
    decreases n,
{
    if n < 10 {
        seq![digit(n)]
    } else {
        decimal(n / 10).push(digit(n % 10))
    }
}

/// The number that a run of decimal digits stands for.
pub open spec fn number_of(digits: Seq<char>) -> nat
    decreases digits.len(),
{
    if digits.len() == 0 {
        0
    } else {
        (number_of(digits.drop_last()) * 10 + (digits.last() as nat - 48)) as nat
    }
}

/// What `decimal` yields: digits only, at least one, none of them a leading
/// zero but for the number zero itself, and they stand for the number.
pub proof fn lemma_decimal_reads_back(n: nat)
    ensures
        decimal(n).len() >= 1,
        forall|i: int| 0 <= i < decimal(n).len() ==> '0' <= #[trigger] decimal(n)[i] <= '9',
        decimal(n)[0] == '0' <==> n == 0,
        number_of(decimal(n)) == n,
    decreases n,
{
    if n < 10 {
        assert(decimal(n).drop_last() =~= Seq::<char>::empty());
        assert(number_of(decimal(n).drop_last()) == 0);
    } else {
        lemma_decimal_reads_back(n / 10);
        assert(decimal(n).drop_last() =~= decimal(n / 10));
    }
}

fn digit_text(d: usize) -> (text: &'static str)
    requires
        d < 10,
    ensures
        text@ == seq![digit(d as nat)],
{
    proof {
        reveal_strlit("0");
        reveal_strlit("1");
        reveal_strlit("2");
        reveal_strlit("3");
        reveal_strlit("4");
        reveal_strlit("5");
        reveal_strlit("6");
        reveal_strlit("7");
        reveal_strlit("8");
        reveal_strlit("9");
    }
    let text = match d {
        0 => "0",
        1 => "1",
        2 => "2",
        3 => "3",
        4 => "4",
        5 => "5",
        6 => "6",
        7 => "7",
        8 => "8",
        _ => "9",
    };
    assert(text@ =~= seq![digit(d as nat)]);
    text
}

/// Writes a number in decimal.
pub fn decimal_text(n: usize) -> (text: String)
    ensures
        text@ == decimal(n as nat),
    decreases n,
{
    if n < 10 {
        String::from_str(digit_text(n))
    } else {
        let mut text = decimal_text(n / 10);
        let last = digit_text(n % 10);
        text.append(last);
        assert(text@ =~= decimal((n / 10) as nat).push(digit((n % 10) as nat)));
        text
    }
}

/// The name of the sampler uniform that texture unit `unit` is bound to:
/// `tex0`, `tex1`, and so on.
pub open spec fn sampler_name_of(unit: nat) -> Seq<char> {
    "tex"@ + decimal(unit)
}

/// The name of the sampler uniform for texture unit `unit`.
pub fn sampler_name(unit: usize) -> (name: String)
    ensures
        name@ == sampler_name_of(unit as nat),
{
    let name = String::from_str("tex");
    let number = decimal_text(unit);
    name.concat(number.as_str())
}

} // verus!

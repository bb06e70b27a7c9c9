use gtk_gl_shaders::shader::{
    build_fragment_shader, build_vertex_shader, decimal_text, glsl_version, sampler_name,
};
use gtk_gl_shaders::uniform_text::{
    parse_uniform_spec, space, uniform_from_numbers, uniforms_from_items, TextItem, TextType,
    TextUniforms,
};
use gtk_gl_shaders::variant::Rejection;
use gtk_gl_shaders::{FloatBits, UniformValue};

fn float(value: f32) -> FloatBits {
    FloatBits(value.to_bits())
}

fn read(number: &str) -> Option<FloatBits> {
    number.parse::<f32>().ok().map(float)
}

fn numbers_of(item: &TextItem) -> Vec<Option<FloatBits>> {
    match item {
        TextItem::Uniform { numbers, .. } => numbers.iter().map(|number| read(number)).collect(),
        _ => Vec::new(),
    }
}

/// What a text comes to, with the numbers read by the standard library.
fn parsed(spec: &str) -> TextUniforms {
    let items = parse_uniform_spec(spec);
    let numbers: Vec<Vec<Option<FloatBits>>> = items.iter().map(numbers_of).collect();
    uniforms_from_items(&items, &numbers)
}

/// The uniforms of a text.
fn uniforms_of(spec: &str) -> Vec<(String, UniformValue)> {
    parsed(spec).uniforms
}

/// The same, written with the standard library's own splitting and trimming.
fn uniforms_by_std(spec: &str) -> Vec<(String, UniformValue)> {
    let mut uniforms: Vec<(String, UniformValue)> = Vec::new();
    for item in spec.split(';') {
        let item = item.trim();
        if item.is_empty() {
            continue;
        }
        let parts: Vec<&str> = item.split(':').collect();
        if parts.len() != 3 {
            continue;
        }
        let count = match parts[1] {
            "f" | "i" => 1,
            "v2" => 2,
            "v3" => 3,
            "v4" => 4,
            _ => continue,
        };
        let read: Vec<Option<f32>> =
            parts[2].split(',').map(|number| number.trim().parse().ok()).collect();
        if read.len() != count || read.iter().any(|number| number.is_none()) {
            continue;
        }
        let at = |index: usize| float(read[index].unwrap());
        let value = match parts[1] {
            "f" => UniformValue::Float(at(0)),
            "v2" => UniformValue::Vec2([at(0), at(1)]),
            "v3" => UniformValue::Vec3([at(0), at(1), at(2)]),
            "v4" => UniformValue::Vec4([at(0), at(1), at(2), at(3)]),
            _ => UniformValue::Int(read[0].unwrap() as i32),
        };
        match uniforms.iter_mut().find(|(name, _)| name == parts[0]) {
            Some(entry) => entry.1 = value,
            None => uniforms.push((parts[0].to_string(), value)),
        }
    }
    uniforms
}

fn uniform(name: &str, kind: TextType, numbers: &[&str]) -> TextItem {
    TextItem::Uniform {
        name: name.to_string(),
        kind,
        numbers: numbers.iter().map(|number| number.to_string()).collect(),
    }
}

#[test]
fn items_are_read_in_order() {
    assert_eq!(
        parse_uniform_spec("time:f:1.5;color:v4:1,0,0.5,1;count:i:3"),
        vec![
            uniform("time", TextType::Float, &["1.5"]),
            uniform("color", TextType::Vec4, &["1", "0", "0.5", "1"]),
            uniform("count", TextType::Int, &["3"]),
        ]
    );
}

#[test]
fn white_space_around_items_and_numbers_does_not_count() {
    assert_eq!(
        parse_uniform_spec("  a:v2: 1 ,\t2 ;\n b:v3:1,2,3 \u{a0};"),
        vec![
            uniform("a", TextType::Vec2, &["1", "2"]),
            uniform("b", TextType::Vec3, &["1", "2", "3"]),
        ]
    );
}

#[test]
fn white_space_inside_an_item_stays() {
    assert_eq!(
        parse_uniform_spec("a :f:1"),
        vec![uniform("a ", TextType::Float, &["1"])]
    );
    assert_eq!(
        parse_uniform_spec("a: f:1"),
        vec![TextItem::UnknownType { word: " f".to_string() }]
    );
}

#[test]
fn empty_items_are_passed_over() {
    assert_eq!(parse_uniform_spec(""), Vec::new());
    assert_eq!(parse_uniform_spec(" ; ;;\t"), Vec::new());
    assert_eq!(parse_uniform_spec(";a:i:1;"), vec![uniform("a", TextType::Int, &["1"])]);
}

#[test]
fn items_of_other_than_three_parts_are_invalid() {
    assert_eq!(
        parse_uniform_spec("a:f;b:f:1:2;c"),
        vec![
            TextItem::Invalid { text: "a:f".to_string() },
            TextItem::Invalid { text: "b:f:1:2".to_string() },
            TextItem::Invalid { text: "c".to_string() },
        ]
    );
}

#[test]
fn unknown_types_are_named() {
    assert_eq!(
        parse_uniform_spec("a:v5:1;b::2;c:F:3;d:iv2:1,2"),
        vec![
            TextItem::UnknownType { word: "v5".to_string() },
            TextItem::UnknownType { word: "".to_string() },
            TextItem::UnknownType { word: "F".to_string() },
            TextItem::UnknownType { word: "iv2".to_string() },
        ]
    );
}

#[test]
fn an_item_may_lack_name_and_numbers() {
    assert_eq!(parse_uniform_spec(":f:"), vec![uniform("", TextType::Float, &[""])]);
    assert_eq!(parse_uniform_spec("a:v2:,"), vec![uniform("a", TextType::Vec2, &["", ""])]);
}

#[test]
fn names_may_hold_any_characters() {
    assert_eq!(
        parse_uniform_spec("größe:f:1;色:i:2"),
        vec![uniform("größe", TextType::Float, &["1"]), uniform("色", TextType::Int, &["2"])]
    );
}

#[test]
fn values_take_all_their_numbers() {
    let one = vec![Some(float(1.5))];
    let four = vec![Some(float(1.0)), Some(float(2.0)), Some(float(3.0)), Some(float(4.0))];
    assert_eq!(uniform_from_numbers(TextType::Float, &one), Ok(UniformValue::Float(float(1.5))));
    assert_eq!(
        uniform_from_numbers(TextType::Vec2, &four[..2].to_vec()),
        Ok(UniformValue::Vec2([float(1.0), float(2.0)]))
    );
    assert_eq!(
        uniform_from_numbers(TextType::Vec3, &four[..3].to_vec()),
        Ok(UniformValue::Vec3([float(1.0), float(2.0), float(3.0)]))
    );
    assert_eq!(
        uniform_from_numbers(TextType::Vec4, &four),
        Ok(UniformValue::Vec4([float(1.0), float(2.0), float(3.0), float(4.0)]))
    );
}

#[test]
fn wrong_count_of_numbers_is_rejected() {
    let none: Vec<Option<FloatBits>> = Vec::new();
    let two = vec![Some(float(1.0)), Some(float(2.0))];
    assert_eq!(uniform_from_numbers(TextType::Float, &none), Err(Rejection::WrongLength(0)));
    assert_eq!(uniform_from_numbers(TextType::Int, &none), Err(Rejection::WrongLength(0)));
    assert_eq!(uniform_from_numbers(TextType::Float, &two), Err(Rejection::WrongLength(2)));
    assert_eq!(uniform_from_numbers(TextType::Int, &two), Err(Rejection::WrongLength(2)));
    assert_eq!(uniform_from_numbers(TextType::Vec3, &two), Err(Rejection::WrongLength(2)));
    assert_eq!(uniform_from_numbers(TextType::Vec4, &two), Err(Rejection::WrongLength(2)));
    assert_eq!(
        uniform_from_numbers(TextType::Vec2, &vec![Some(float(1.0)); 3]),
        Err(Rejection::WrongLength(3))
    );
    assert_eq!(
        uniform_from_numbers(TextType::Vec2, &vec![None, None, None]),
        Err(Rejection::WrongLength(3))
    );
}

#[test]
fn a_number_that_is_none_is_rejected() {
    assert_eq!(uniform_from_numbers(TextType::Float, &vec![None]), Err(Rejection::NotANumber(0)));
    assert_eq!(
        uniform_from_numbers(TextType::Vec3, &vec![Some(float(1.0)), None, None]),
        Err(Rejection::NotANumber(1))
    );
    assert_eq!(
        uniform_from_numbers(TextType::Vec2, &vec![Some(float(1.0)), None]),
        Err(Rejection::NotANumber(1))
    );
}

#[test]
fn integers_are_cut_from_floats() {
    let int = |value: f32| uniform_from_numbers(TextType::Int, &vec![Some(float(value))]);
    assert_eq!(int(3.9), Ok(UniformValue::Int(3)));
    assert_eq!(int(-3.9), Ok(UniformValue::Int(-3)));
    assert_eq!(int(1.0e12), Ok(UniformValue::Int(i32::MAX)));
}

#[test]
fn text_with_a_wrong_count_yields_no_uniform() {
    let parsed = parsed("p:v3:1,2");
    assert!(parsed.uniforms.is_empty());
    assert_eq!(parsed.rejected, vec![("p".to_string(), Rejection::WrongLength(2))]);
}

#[test]
fn rejected_items_leave_the_others_alone() {
    let parsed = parsed("a:f:1;b:v2:1;c:i:x;d:v2:1,2,;e:f:;f:v2:3,4");
    assert_eq!(
        parsed.uniforms,
        vec![
            ("a".to_string(), UniformValue::Float(float(1.0))),
            ("f".to_string(), UniformValue::Vec2([float(3.0), float(4.0)])),
        ]
    );
    assert_eq!(
        parsed.rejected,
        vec![
            ("b".to_string(), Rejection::WrongLength(1)),
            ("c".to_string(), Rejection::NotANumber(0)),
            ("d".to_string(), Rejection::WrongLength(3)),
            ("e".to_string(), Rejection::NotANumber(0)),
        ]
    );
}

#[test]
fn a_name_given_twice_keeps_its_last_value() {
    let parsed = parsed("x:f:1;x:f:2");
    assert_eq!(parsed.uniforms, vec![("x".to_string(), UniformValue::Float(float(2.0)))]);
    assert!(parsed.rejected.is_empty());

    let parsed = parsed_again();
    assert_eq!(
        parsed.uniforms,
        vec![
            ("x".to_string(), UniformValue::Int(3)),
            ("y".to_string(), UniformValue::Float(float(2.0))),
        ]
    );
    assert_eq!(parsed.rejected, vec![("x".to_string(), Rejection::WrongLength(2))]);
}

fn parsed_again() -> TextUniforms {
    parsed("x:f:1;y:f:2;x:v2:5,6;x:i:3;x:f:1,2")
}

#[test]
fn items_without_read_numbers_are_rejected() {
    let items = parse_uniform_spec("a:f:1;b:f:2");
    let numbers = vec![vec![Some(float(1.0))]];
    let parsed = uniforms_from_items(&items, &numbers);
    assert_eq!(parsed.uniforms, vec![("a".to_string(), UniformValue::Float(float(1.0)))]);
    assert_eq!(parsed.rejected, vec![("b".to_string(), Rejection::WrongLength(0))]);
}

#[test]
fn reading_agrees_with_the_standard_library() {
    let texts = [
        "time:f:1.5;color:v4:1,0,0.5,1;count:i:3",
        "a:v2:1;b:v3:x,2,y,3;c:i:7.9;d:f:",
        "a:v2:1,2;b:v3:1,2,3;c:i:7.9;d:f:4;a:v2:9,8;c:f:1",
        "p:v3:1,2;x:f:1;x:f:2",
        " a : f : 1 ; b:v2: 1 , 2 ",
        "a:f:1;;b:f:2;",
        "a:f:1e3;b:i:-1e30;c:f:nan;d:f:inf;e:v2:-inf,+7",
        "x:f:1:2;y;z:q:1;w:v4:1,2,3,4,5,6",
        "\u{2003}a:f:1\u{3000};\u{85}b:i:2\u{1680}",
        "a:f:\u{200b}1",
        ":::;::;:;",
        "ünï:v3:١,2,٣",
    ];
    for text in texts {
        assert_eq!(uniforms_of(text), uniforms_by_std(text), "text {text:?}");
    }
}

#[test]
fn reading_agrees_with_the_standard_library_on_scattered_texts() {
    let alphabet: Vec<char> = ";;::,, \t\nfvi234ab01.-e\u{a0}é".chars().collect();
    let mut seed: u32 = 0x2545_f491;
    for _ in 0..3000 {
        let mut text = String::new();
        seed = seed.wrapping_mul(1_664_525).wrapping_add(1_013_904_223);
        let length = (seed >> 24) % 40;
        for _ in 0..length {
            seed = seed.wrapping_mul(1_664_525).wrapping_add(1_013_904_223);
            text.push(alphabet[(seed >> 16) as usize % alphabet.len()]);
        }
        assert_eq!(uniforms_of(&text), uniforms_by_std(&text), "text {text:?}");
    }
}

#[test]
fn white_space_is_what_the_standard_library_says() {
    for code in 0u32..0x3100 {
        if let Some(c) = char::from_u32(code) {
            assert_eq!(space(c), c.is_whitespace(), "code {code:#x}");
        }
    }
    assert!(!space('\u{feff}'));
    assert!(!space('\u{10ffff}'));
}

#[test]
fn decimal_text_writes_numbers() {
    assert_eq!(decimal_text(0), "0");
    assert_eq!(decimal_text(7), "7");
    assert_eq!(decimal_text(10), "10");
    assert_eq!(decimal_text(109), "109");
    assert_eq!(decimal_text(1234567890), "1234567890");
    assert_eq!(decimal_text(usize::MAX), usize::MAX.to_string());
}

#[test]
fn sampler_names_count_from_zero() {
    assert_eq!(sampler_name(0), "tex0");
    assert_eq!(sampler_name(1), "tex1");
    assert_eq!(sampler_name(12), "tex12");
}

#[test]
fn shader_texts_start_with_the_header() {
    assert_eq!(glsl_version(false), "#version 330 core\n");
    assert_eq!(glsl_version(true), "#version 300 es\nprecision highp float;\n");
    let vertex = build_vertex_shader("#version 330 core\n");
    assert!(vertex.starts_with("#version 330 core\n\nout vec2 uv;\nvoid main() {\n"));
    assert!(vertex.contains("float(gl_VertexID & 1)"));
    assert!(vertex.contains("float((gl_VertexID >> 1) & 1)"));
    assert!(vertex.ends_with("gl_Position = vec4(pos * 2.0 - 1.0, 0.0, 1.0);\n}\n"));
    assert_eq!(build_fragment_shader("#header\n", "void main(){}"), "#header\nvoid main(){}");
}

use gtk_gl_shaders::named::{fold_uniforms, names_are_distinct, put_uniform};
use gtk_gl_shaders::registry::{upload_call, UniformEntry};
use gtk_gl_shaders::resolver::{library_name, LibraryMissing, Resolver, ResolverRequest, ResolverState};
use gtk_gl_shaders::texture::{decode_texture, decode_textures};
use gtk_gl_shaders::variant::{classify, parse_uniforms, Rejection, VariantValue};
use gtk_gl_shaders::{Call, FloatBits, TextureData, UniformRegistry, UniformValue};

fn float(value: f32) -> FloatBits {
    FloatBits(value.to_bits())
}

fn encoded(format: image::ImageFormat, width: u32, height: u32, data: Vec<u8>) -> Vec<u8> {
    let picture = image::RgbaImage::from_raw(width, height, data).unwrap();
    let mut bytes = std::io::Cursor::new(Vec::new());
    picture.write_to(&mut bytes, format).unwrap();
    bytes.into_inner()
}

#[test]
fn registry_stores_in_place() {
    let mut registry = UniformRegistry::new();
    assert_eq!(registry.len(), 0);
    registry.store("a".to_string(), 3, UniformValue::Int(1));
    registry.store("b".to_string(), 5, UniformValue::Int(2));
    registry.store("a".to_string(), 3, UniformValue::Int(9));
    assert_eq!(registry.len(), 2);
    assert_eq!(
        registry.entries,
        vec![
            UniformEntry { name: "a".to_string(), location: 3, value: UniformValue::Int(9) },
            UniformEntry { name: "b".to_string(), location: 5, value: UniformValue::Int(2) },
        ]
    );
    assert_eq!(registry.find(&"b".to_string()), Some(1));
    assert_eq!(registry.find(&"c".to_string()), None);
    assert_eq!(registry.get(&"a".to_string()), Some((3, UniformValue::Int(9))));
    assert_eq!(registry.get(&"".to_string()), None);
}

#[test]
fn registry_seeds_only_what_the_program_has() {
    let mut registry = UniformRegistry::new();
    assert!(registry.seed("a".to_string(), UniformValue::Int(1), 0));
    assert!(!registry.seed("b".to_string(), UniformValue::Int(2), -1));
    assert!(!registry.seed("a".to_string(), UniformValue::Int(3), -1));
    assert_eq!(
        registry.entries,
        vec![UniformEntry { name: "a".to_string(), location: 0, value: UniformValue::Int(1) }]
    );
}

#[test]
fn registry_applies_in_order() {
    let mut registry = UniformRegistry::new();
    assert_eq!(registry.apply_all(9), vec![Call::UseProgram { program: 9 }]);
    registry.store("a".to_string(), 4, UniformValue::Vec2([float(1.0), float(2.0)]));
    registry.store("b".to_string(), 2, UniformValue::IVec3([1, 2, 3]));
    assert_eq!(
        registry.apply_all(9),
        vec![
            Call::UseProgram { program: 9 },
            Call::Uniform2f { location: 4, x: float(1.0), y: float(2.0) },
            Call::Uniform3i { location: 2, x: 1, y: 2, z: 3 },
        ]
    );
}

#[test]
fn upload_call_matches_the_shape() {
    assert_eq!(
        upload_call(1, UniformValue::Vec4([float(1.0), float(2.0), float(3.0), float(4.0)])),
        Call::Uniform4f { location: 1, x: float(1.0), y: float(2.0), z: float(3.0), w: float(4.0) }
    );
    assert_eq!(upload_call(2, UniformValue::Int(-5)), Call::Uniform1i { location: 2, x: -5 });
}

#[test]
fn texture_data_checks_its_length() {
    assert!(TextureData { width: 2, height: 3, data: vec![0; 24] }.is_well_formed());
    assert!(TextureData { width: 0, height: 3, data: Vec::new() }.is_well_formed());
    assert!(!TextureData { width: 2, height: 3, data: vec![0; 23] }.is_well_formed());
    assert!(!TextureData { width: 2, height: 3, data: vec![0; 25] }.is_well_formed());
    assert!(!TextureData { width: -1, height: -1, data: vec![0; 4] }.is_well_formed());
    assert!(!TextureData { width: i32::MAX, height: i32::MAX, data: vec![0; 4] }.is_well_formed());
}

#[test]
fn texture_data_takes_over_raw_pixels() {
    assert_eq!(
        TextureData::from_raw(1, 2, vec![7; 8]),
        Some(TextureData { width: 1, height: 2, data: vec![7; 8] })
    );
    assert_eq!(TextureData::from_raw(1, 2, vec![7; 7]), None);
    assert_eq!(TextureData::from_raw(u32::MAX, 0, Vec::new()), None);
    assert_eq!(TextureData::from_raw(0, 0x8000_0000, Vec::new()), None);
}

#[test]
fn decode_texture_reads_a_png() {
    let data: Vec<u8> = (0u8..24).collect();
    let bytes = encoded(image::ImageFormat::Png, 3, 2, data.clone());
    assert_ne!(bytes, data);
    assert_eq!(
        decode_texture("dir/picture.png", &bytes),
        Some(TextureData { width: 3, height: 2, data: data.clone() })
    );
    assert_eq!(
        decode_texture("PICTURE.PNG", &bytes),
        Some(TextureData { width: 3, height: 2, data })
    );
}

#[test]
fn decode_texture_widens_to_rgba() {
    let gray = image::GrayImage::from_raw(2, 1, vec![10, 200]).unwrap();
    let mut bytes = std::io::Cursor::new(Vec::new());
    gray.write_to(&mut bytes, image::ImageFormat::Bmp).unwrap();
    assert_eq!(
        decode_texture("gray.bmp", &bytes.into_inner()),
        Some(TextureData { width: 2, height: 1, data: vec![10, 10, 10, 255, 200, 200, 200, 255] })
    );
}

#[test]
fn decode_texture_goes_by_the_extension() {
    let bytes = encoded(image::ImageFormat::Png, 1, 1, vec![1, 2, 3, 4]);
    assert_eq!(decode_texture("picture.bmp", &bytes), None);
    assert_eq!(decode_texture("picture", &bytes), None);
    assert_eq!(decode_texture("picture.txt", &bytes), None);
    assert_eq!(decode_texture("png", &bytes), None);
}

#[test]
fn decode_texture_refuses_what_is_no_picture() {
    assert_eq!(decode_texture("picture.png", b"not a picture"), None);
    assert_eq!(decode_texture("picture.png", b""), None);
    let mut bytes = encoded(image::ImageFormat::Png, 4, 4, vec![9; 64]);
    bytes.truncate(bytes.len() / 2);
    assert_eq!(decode_texture("picture.png", &bytes), None);
}

#[test]
fn variant_values_become_uniforms_by_shape() {
    assert_eq!(classify(&VariantValue::Double(float(1.5))), Ok(UniformValue::Float(float(1.5))));
    assert_eq!(
        classify(&VariantValue::DoubleArray(vec![float(1.0), float(2.0)])),
        Ok(UniformValue::Vec2([float(1.0), float(2.0)]))
    );
    assert_eq!(
        classify(&VariantValue::DoubleArray(vec![float(1.0), float(2.0), float(3.0)])),
        Ok(UniformValue::Vec3([float(1.0), float(2.0), float(3.0)]))
    );
    assert_eq!(
        classify(&VariantValue::DoubleArray(vec![float(1.0); 4])),
        Ok(UniformValue::Vec4([float(1.0); 4]))
    );
    assert_eq!(classify(&VariantValue::Int32(-3)), Ok(UniformValue::Int(-3)));
    assert_eq!(classify(&VariantValue::Int32Array(vec![1, 2])), Ok(UniformValue::IVec2([1, 2])));
    assert_eq!(
        classify(&VariantValue::Int32Array(vec![1, 2, 3])),
        Ok(UniformValue::IVec3([1, 2, 3]))
    );
    assert_eq!(
        classify(&VariantValue::Int32Array(vec![1, 2, 3, 4])),
        Ok(UniformValue::IVec4([1, 2, 3, 4]))
    );
}

#[test]
fn variant_values_of_other_shapes_are_rejected() {
    assert_eq!(classify(&VariantValue::DoubleArray(Vec::new())), Err(Rejection::WrongLength(0)));
    assert_eq!(
        classify(&VariantValue::DoubleArray(vec![float(1.0)])),
        Err(Rejection::WrongLength(1))
    );
    assert_eq!(
        classify(&VariantValue::DoubleArray(vec![float(1.0); 5])),
        Err(Rejection::WrongLength(5))
    );
    assert_eq!(classify(&VariantValue::Int32Array(vec![1])), Err(Rejection::WrongLength(1)));
    assert_eq!(classify(&VariantValue::Int32Array(vec![1; 6])), Err(Rejection::WrongLength(6)));
    assert_eq!(classify(&VariantValue::Other), Err(Rejection::UnsupportedType));
}

#[test]
fn parse_uniforms_keeps_the_good_entries() {
    let parsed = parse_uniforms(Some(vec![
        ("time".to_string(), VariantValue::Double(float(0.25))),
        ("bad".to_string(), VariantValue::Int32Array(vec![1])),
        ("size".to_string(), VariantValue::Int32Array(vec![640, 480])),
        ("text".to_string(), VariantValue::Other),
    ]));
    assert!(!parsed.malformed);
    assert_eq!(
        parsed.uniforms,
        vec![
            ("time".to_string(), UniformValue::Float(float(0.25))),
            ("size".to_string(), UniformValue::IVec2([640, 480])),
        ]
    );
    assert_eq!(
        parsed.rejected,
        vec![
            ("bad".to_string(), Rejection::WrongLength(1)),
            ("text".to_string(), Rejection::UnsupportedType),
        ]
    );
}

#[test]
fn parse_uniforms_of_no_dictionary_is_empty() {
    let parsed = parse_uniforms(None);
    assert!(parsed.malformed);
    assert!(parsed.uniforms.is_empty());
    assert!(parsed.rejected.is_empty());
    let parsed = parse_uniforms(Some(Vec::new()));
    assert!(!parsed.malformed);
    assert!(parsed.uniforms.is_empty());
}

#[test]
fn resolver_loads_once() {
    let mut resolver = Resolver::new();
    assert_eq!(library_name(), "libepoxy.so.0");
    assert_eq!(resolver.ensure_loaded(), ResolverRequest::Load);
    assert_eq!(resolver.record(true), Ok(()));
    for _ in 0..5 {
        assert_eq!(resolver.ensure_loaded(), ResolverRequest::Nothing);
        assert_eq!(resolver.record(false), Ok(()));
        assert_eq!(resolver.state, ResolverState::Loaded);
    }
}

#[test]
fn resolver_failure_is_final() {
    let mut resolver = Resolver::new();
    assert_eq!(resolver.ensure_loaded(), ResolverRequest::Load);
    assert_eq!(resolver.record(false), Err(LibraryMissing));
    for _ in 0..3 {
        assert_eq!(resolver.ensure_loaded(), ResolverRequest::GiveUp);
        assert_eq!(resolver.record(true), Err(LibraryMissing));
        assert_eq!(resolver.state, ResolverState::Failed);
    }
}

#[test]
fn folding_keeps_the_last_value_where_the_name_first_stood() {
    let list = vec![
        ("a".to_string(), UniformValue::Int(1)),
        ("b".to_string(), UniformValue::Int(2)),
        ("a".to_string(), UniformValue::Int(3)),
        ("c".to_string(), UniformValue::Int(4)),
        ("b".to_string(), UniformValue::Int(5)),
    ];
    assert!(!names_are_distinct(&list));
    let map = fold_uniforms(list);
    assert_eq!(
        map,
        vec![
            ("a".to_string(), UniformValue::Int(3)),
            ("b".to_string(), UniformValue::Int(5)),
            ("c".to_string(), UniformValue::Int(4)),
        ]
    );
    assert!(names_are_distinct(&map));
    assert_eq!(fold_uniforms(map.clone()), map);
    assert_eq!(fold_uniforms(Vec::new()), Vec::new());
}

#[test]
fn putting_overwrites_in_place() {
    let mut list = Vec::new();
    put_uniform(&mut list, "a".to_string(), UniformValue::Int(1));
    put_uniform(&mut list, "b".to_string(), UniformValue::Int(2));
    put_uniform(&mut list, "a".to_string(), UniformValue::Int(3));
    assert_eq!(
        list,
        vec![("a".to_string(), UniformValue::Int(3)), ("b".to_string(), UniformValue::Int(2))]
    );
}

#[test]
fn decode_textures_keeps_the_files_that_load() {
    let first = encoded(image::ImageFormat::Png, 1, 1, vec![1, 2, 3, 4]);
    let third = encoded(image::ImageFormat::Png, 2, 1, vec![5; 8]);
    let files = vec![
        ("a.png".to_string(), Some(first)),
        ("b.png".to_string(), Some(b"no picture".to_vec())),
        ("c.png".to_string(), Some(third)),
        ("d.png".to_string(), None),
    ];
    assert_eq!(
        decode_textures(&files),
        vec![
            TextureData { width: 1, height: 1, data: vec![1, 2, 3, 4] },
            TextureData { width: 2, height: 1, data: vec![5; 8] },
        ]
    );
    assert_eq!(decode_textures(&Vec::new()), Vec::new());
}

use gtk_gl_shaders::call::{ShaderStage, TextureParameter, TextureSetting};
use gtk_gl_shaders::{
    new_area_for_shader, set_uniform, Call, FloatBits, Notice, Outcome, Reply, ShaderArea, Step,
    TextureData, TextureSource, UniformValue,
};

fn float(value: f32) -> FloatBits {
    FloatBits(value.to_bits())
}

/// A driver that hands out the handles 1, 2, 3, ... and knows the uniforms
/// in `known`, each at the location that is its index.
struct Driver {
    next_handle: u32,
    known: Vec<String>,
    context_error: bool,
    uses_es: bool,
    failing_stage: Option<ShaderStage>,
    link_fails: bool,
    files: Vec<(String, Vec<u8>)>,
    log: Vec<Call>,
    replies: usize,
    stages: Vec<(u32, ShaderStage)>,
}

impl Driver {
    fn new(known: &[&str]) -> Driver {
        Driver {
            next_handle: 1,
            known: known.iter().map(|name| name.to_string()).collect(),
            context_error: false,
            uses_es: false,
            failing_stage: None,
            link_fails: false,
            files: Vec::new(),
            log: Vec::new(),
            replies: 0,
            stages: Vec::new(),
        }
    }

    fn handle(&mut self) -> u32 {
        let handle = self.next_handle;
        self.next_handle += 1;
        handle
    }

    fn perform(&mut self, call: Call) -> Reply {
        self.log.push(call.clone());
        match call {
            Call::ContextError => Reply::Flag(self.context_error),
            Call::UsesEs => Reply::Flag(self.uses_es),
            Call::CreateShader { stage } => {
                let handle = self.handle();
                self.stages.push((handle, stage));
                Reply::Handle(handle)
            }
            Call::CreateProgram | Call::GenVertexArray | Call::GenTexture => {
                Reply::Handle(self.handle())
            }
            Call::CompileStatus { shader } => {
                let stage = self.stages.iter().find(|(handle, _)| *handle == shader).unwrap().1;
                Reply::Status(if self.failing_stage == Some(stage) { 0 } else { 1 })
            }
            Call::ShaderInfoLog { .. } => Reply::Text("0:1: syntax error".to_string()),
            Call::LinkStatus { .. } => Reply::Status(if self.link_fails { 0 } else { 1 }),
            Call::ProgramInfoLog { .. } => Reply::Text("link failed".to_string()),
            Call::UniformLocation { name, .. } => {
                match self.known.iter().position(|known| *known == name) {
                    Some(index) => Reply::Location(index as i32),
                    None => Reply::Location(-1),
                }
            }
            Call::ReadFile { path } => Reply::Bytes(
                self.files.iter().find(|(name, _)| *name == path).map(|(_, bytes)| bytes.clone()),
            ),
            _ => Reply::Nothing,
        }
    }

    fn drive(&mut self, area: &mut ShaderArea, first: Step) -> Outcome {
        let mut step = first;
        loop {
            let mut reply = Reply::Nothing;
            for call in step.calls {
                reply = self.perform(call);
            }
            match step.outcome {
                Some(outcome) => return outcome,
                None => {
                    self.replies += 1;
                    step = area.resume(reply).expect("the reply answers the last call");
                }
            }
        }
    }

    fn activate(&mut self, area: &mut ShaderArea) -> Outcome {
        let first = area.realize();
        self.drive(area, first)
    }

    fn frame(&mut self, area: &mut ShaderArea) -> Vec<Call> {
        self.log.clear();
        let first = area.render();
        self.drive(area, first);
        self.log.clone()
    }

    fn count(&self, wanted: fn(&Call) -> bool) -> usize {
        self.log.iter().filter(|call| wanted(call)).count()
    }
}

fn pixels(width: i32, height: i32, shade: u8) -> TextureData {
    TextureData { width, height, data: vec![shade; (width * height * 4) as usize] }
}

fn png(width: u32, height: u32, shade: u8) -> Vec<u8> {
    let picture =
        image::RgbaImage::from_raw(width, height, vec![shade; (width * height * 4) as usize])
            .unwrap();
    let mut bytes = std::io::Cursor::new(Vec::new());
    picture.write_to(&mut bytes, image::ImageFormat::Png).unwrap();
    bytes.into_inner()
}

fn upload_of(unit: usize, texture: u32, image: &TextureData, program: u32) -> Vec<Call> {
    vec![
        Call::ActiveTexture { unit },
        Call::BindTexture { texture },
        Call::TextureParameter {
            parameter: TextureParameter::MinFilter,
            setting: TextureSetting::Linear,
        },
        Call::TextureParameter {
            parameter: TextureParameter::MagFilter,
            setting: TextureSetting::Linear,
        },
        Call::TextureParameter {
            parameter: TextureParameter::WrapS,
            setting: TextureSetting::ClampToEdge,
        },
        Call::TextureParameter {
            parameter: TextureParameter::WrapT,
            setting: TextureSetting::ClampToEdge,
        },
        Call::TexImage { width: image.width, height: image.height, pixels: image.data.clone() },
        Call::UniformLocation { program, name: format!("tex{unit}") },
    ]
}

const VERTEX_BODY: &str = "\nout vec2 uv;\nvoid main() {\n    vec2 pos = vec2(float(gl_VertexID & 1),\n                    float((gl_VertexID >> 1) & 1));\n    uv          = pos;\n    gl_Position = vec4(pos * 2.0 - 1.0, 0.0, 1.0);\n}\n";

#[test]
fn plain_shader_draws_one_quad() {
    let mut area =
        ShaderArea::new("void main(){out_color=vec4(1.0);}".to_string(), Vec::new(), Vec::new());
    let mut driver = Driver::new(&[]);

    assert_eq!(driver.activate(&mut area), Outcome::Activated);
    assert!(area.is_active());
    assert!(area.is_idle());
    assert_eq!(driver.count(|call| matches!(call, Call::Report(_))), 0);

    let frame = driver.frame(&mut area);
    let zero = float(0.0);
    assert_eq!(
        frame,
        vec![
            Call::ContextError,
            Call::ClearColor { red: zero, green: zero, blue: zero, alpha: zero },
            Call::ClearColorBuffer,
            Call::UseProgram { program: 3 },
            Call::BindVertexArray { vertex_array: 4 },
            Call::DrawTriangleStrip { first: 0, count: 4 },
            Call::Flush,
        ]
    );
}

#[test]
fn activation_runs_in_order_on_desktop() {
    let shader = "out vec4 c; void main(){c=vec4(1.0);}";
    let mut area = ShaderArea::new(shader.to_string(), Vec::new(), Vec::new());
    let mut driver = Driver::new(&[]);
    assert_eq!(driver.activate(&mut area), Outcome::Activated);
    let header = "#version 330 core\n";
    assert_eq!(
        driver.log,
        vec![
            Call::MakeCurrent,
            Call::ContextError,
            Call::UsesEs,
            Call::CreateShader { stage: ShaderStage::Vertex },
            Call::ShaderSource { shader: 1, source: format!("{header}{VERTEX_BODY}") },
            Call::CompileShader { shader: 1 },
            Call::CompileStatus { shader: 1 },
            Call::CreateShader { stage: ShaderStage::Fragment },
            Call::ShaderSource { shader: 2, source: format!("{header}{shader}") },
            Call::CompileShader { shader: 2 },
            Call::CompileStatus { shader: 2 },
            Call::CreateProgram,
            Call::AttachShader { program: 3, shader: 1 },
            Call::AttachShader { program: 3, shader: 2 },
            Call::LinkProgram { program: 3 },
            Call::LinkStatus { program: 3 },
            Call::DeleteShader { shader: 1 },
            Call::DeleteShader { shader: 2 },
            Call::GenVertexArray,
            Call::BindVertexArray { vertex_array: 4 },
            Call::UseProgram { program: 3 },
        ]
    );
    let state = area.state.as_ref().unwrap();
    assert_eq!(state.program, 3);
    assert_eq!(state.vertex_array, 4);
    assert!(state.textures.is_empty());
    assert!(state.uniforms.entries.is_empty());
}

#[test]
fn embedded_flavor_gets_its_header() {
    let mut area = ShaderArea::new("void main(){}".to_string(), Vec::new(), Vec::new());
    let mut driver = Driver::new(&[]);
    driver.uses_es = true;
    assert_eq!(driver.activate(&mut area), Outcome::Activated);
    let header = "#version 300 es\nprecision highp float;\n";
    assert!(driver.log.contains(&Call::ShaderSource {
        shader: 1,
        source: format!("{header}{VERTEX_BODY}")
    }));
    assert!(driver
        .log
        .contains(&Call::ShaderSource { shader: 2, source: format!("{header}void main(){{}}") }));
}

#[test]
fn context_error_stops_activation() {
    let mut area = ShaderArea::new("void main(){}".to_string(), Vec::new(), Vec::new());
    let mut driver = Driver::new(&[]);
    driver.context_error = true;
    assert_eq!(driver.activate(&mut area), Outcome::ActivationAborted);
    assert!(!area.is_active());
    assert!(area.is_idle());
    assert_eq!(
        driver.log,
        vec![Call::MakeCurrent, Call::ContextError, Call::Report(Notice::ContextUnavailable)]
    );
}

#[test]
fn context_error_at_render_draws_nothing() {
    let uniforms = vec![("x".to_string(), UniformValue::Float(float(0.5)))];
    let mut area =
        new_area_for_shader("void main(){}".to_string(), vec![pixels(1, 1, 7)], uniforms);
    let mut driver = Driver::new(&["x", "tex0"]);
    assert_eq!(driver.activate(&mut area), Outcome::Activated);
    let before = area.clone();

    driver.context_error = true;
    driver.log.clear();
    let first = area.render();
    let outcome = driver.drive(&mut area, first);
    assert_eq!(outcome, Outcome::NothingDrawn);
    assert!(outcome.handled());
    assert_eq!(driver.log, vec![Call::ContextError, Call::Report(Notice::ContextUnavailable)]);
    assert_eq!(area, before);
}

#[test]
fn render_before_activation_is_handled_and_draws_nothing() {
    let mut area = ShaderArea::new("void main(){}".to_string(), Vec::new(), Vec::new());
    let mut driver = Driver::new(&[]);
    let first = area.render();
    let outcome = driver.drive(&mut area, first);
    assert_eq!(outcome, Outcome::NothingDrawn);
    assert!(outcome.handled());
    assert_eq!(driver.log, vec![Call::ContextError]);
}

#[test]
fn three_textures_take_units_in_order() {
    let images = vec![pixels(1, 1, 10), pixels(2, 1, 20), pixels(1, 2, 30)];
    let mut area = new_area_for_shader("void main(){}".to_string(), images.clone(), Vec::new());
    let mut driver = Driver::new(&["tex0", "tex1", "tex2"]);
    assert_eq!(driver.activate(&mut area), Outcome::Activated);

    let mut expected = Vec::new();
    for unit in 0..3usize {
        let texture = 5 + unit as u32;
        expected.push(Call::GenTexture);
        expected.extend(upload_of(unit, texture, &images[unit], 3));
        expected.push(Call::Uniform1i { location: unit as i32, x: unit as i32 });
    }
    let tail = driver.log[driver.log.len() - expected.len()..].to_vec();
    assert_eq!(tail, expected);
    assert_eq!(area.state.as_ref().unwrap().textures, vec![5, 6, 7]);

    let frame = driver.frame(&mut area);
    let bindings: Vec<Call> = frame
        .into_iter()
        .filter(|call| matches!(call, Call::ActiveTexture { .. } | Call::BindTexture { .. }))
        .collect();
    assert_eq!(
        bindings,
        vec![
            Call::ActiveTexture { unit: 0 },
            Call::BindTexture { texture: 5 },
            Call::ActiveTexture { unit: 1 },
            Call::BindTexture { texture: 6 },
            Call::ActiveTexture { unit: 2 },
            Call::BindTexture { texture: 7 },
        ]
    );
}

#[test]
fn second_texture_failing_leaves_no_gap() {
    let paths = vec!["a.png".to_string(), "b.png".to_string(), "c.png".to_string()];
    let mut area = ShaderArea::new("void main(){}".to_string(), paths, Vec::new());
    let mut driver = Driver::new(&["tex0", "tex1", "tex2"]);
    driver.files.push(("a.png".to_string(), png(1, 1, 10)));
    driver.files.push(("b.png".to_string(), b"this is no picture".to_vec()));
    driver.files.push(("c.png".to_string(), png(2, 2, 30)));
    assert_eq!(driver.activate(&mut area), Outcome::Activated);

    assert_eq!(area.state.as_ref().unwrap().textures, vec![5, 6]);
    assert!(driver.log.contains(&Call::Report(Notice::TextureLoadFailed { index: 1 })));
    assert_eq!(driver.count(|call| matches!(call, Call::GenTexture)), 2);
    let samplers: Vec<Call> = driver
        .log
        .iter()
        .filter(|call| matches!(call, Call::UniformLocation { .. } | Call::Uniform1i { .. }))
        .cloned()
        .collect();
    assert_eq!(
        samplers,
        vec![
            Call::UniformLocation { program: 3, name: "tex0".to_string() },
            Call::Uniform1i { location: 0, x: 0 },
            Call::UniformLocation { program: 3, name: "tex1".to_string() },
            Call::Uniform1i { location: 1, x: 1 },
        ]
    );
    let uploads: Vec<Call> =
        driver.log.iter().filter(|call| matches!(call, Call::TexImage { .. })).cloned().collect();
    assert_eq!(
        uploads,
        vec![
            Call::TexImage { width: 1, height: 1, pixels: vec![10; 4] },
            Call::TexImage { width: 2, height: 2, pixels: vec![30; 16] },
        ]
    );

    let frame = driver.frame(&mut area);
    let bindings: Vec<Call> = frame
        .into_iter()
        .filter(|call| matches!(call, Call::ActiveTexture { .. } | Call::BindTexture { .. }))
        .collect();
    assert_eq!(
        bindings,
        vec![
            Call::ActiveTexture { unit: 0 },
            Call::BindTexture { texture: 5 },
            Call::ActiveTexture { unit: 1 },
            Call::BindTexture { texture: 6 },
        ]
    );
}

#[test]
fn missing_file_is_skipped() {
    let paths = vec!["gone.png".to_string(), "here.png".to_string()];
    let mut area = ShaderArea::new("void main(){}".to_string(), paths, Vec::new());
    let mut driver = Driver::new(&["tex0"]);
    driver.files.push(("here.png".to_string(), png(1, 1, 3)));
    assert_eq!(driver.activate(&mut area), Outcome::Activated);
    assert_eq!(area.state.as_ref().unwrap().textures, vec![5]);
    assert!(driver.log.contains(&Call::Report(Notice::TextureLoadFailed { index: 0 })));
    assert!(driver.log.contains(&Call::Uniform1i { location: 0, x: 0 }));
}

#[test]
fn badly_sized_pixels_are_skipped() {
    let bad = TextureData { width: 2, height: 2, data: vec![0; 15] };
    let sources = vec![TextureSource::Pixels(bad), TextureSource::Pixels(pixels(1, 1, 9))];
    let mut area = ShaderArea::with_sources("void main(){}".to_string(), sources, Vec::new());
    let mut driver = Driver::new(&[]);
    assert_eq!(driver.activate(&mut area), Outcome::Activated);
    assert_eq!(area.state.as_ref().unwrap().textures, vec![5]);
    assert!(driver.log.contains(&Call::Report(Notice::TextureLoadFailed { index: 0 })));
    assert!(driver.log.contains(&Call::Report(Notice::SamplerMissing { unit: 0 })));
    assert!(driver.log.contains(&Call::TexImage { width: 1, height: 1, pixels: vec![9; 4] }));
}

#[test]
fn uniform_round_trip_uploads_three_floats() {
    let mut area = ShaderArea::new("uniform vec3 x;".to_string(), Vec::new(), Vec::new());
    let mut driver = Driver::new(&["pad", "x"]);
    assert_eq!(driver.activate(&mut area), Outcome::Activated);

    driver.log.clear();
    let value = UniformValue::Vec3([float(1.0), float(2.0), float(3.0)]);
    let first = area.set_uniform("x".to_string(), value);
    let outcome = driver.drive(&mut area, first);
    assert_eq!(outcome, Outcome::UniformStored);
    assert!(outcome.uniform_was_set());
    assert_eq!(
        driver.log,
        vec![
            Call::MakeCurrent,
            Call::ContextError,
            Call::UniformLocation { program: 3, name: "x".to_string() },
            Call::QueueRender,
        ]
    );

    let frame = driver.frame(&mut area);
    let zero = float(0.0);
    assert_eq!(
        frame,
        vec![
            Call::ContextError,
            Call::ClearColor { red: zero, green: zero, blue: zero, alpha: zero },
            Call::ClearColorBuffer,
            Call::UseProgram { program: 3 },
            Call::Uniform3f { location: 1, x: float(1.0), y: float(2.0), z: float(3.0) },
            Call::BindVertexArray { vertex_array: 4 },
            Call::DrawTriangleStrip { first: 0, count: 4 },
            Call::Flush,
        ]
    );
}

#[test]
fn known_uniform_keeps_its_location() {
    let uniforms = vec![("x".to_string(), UniformValue::Int(1))];
    let mut area = ShaderArea::new("uniform int x;".to_string(), Vec::new(), uniforms);
    let mut driver = Driver::new(&["x"]);
    assert_eq!(driver.activate(&mut area), Outcome::Activated);

    driver.log.clear();
    let first = set_uniform(&mut area, "x", UniformValue::Int(2));
    assert_eq!(driver.drive(&mut area, first), Outcome::UniformStored);
    assert_eq!(driver.log, vec![Call::MakeCurrent, Call::ContextError, Call::QueueRender]);
    let frame = driver.frame(&mut area);
    assert!(frame.contains(&Call::Uniform1i { location: 0, x: 2 }));
    assert!(!frame.contains(&Call::Uniform1i { location: 0, x: 1 }));
    assert_eq!(area.state.as_ref().unwrap().uniforms.entries.len(), 1);
}

#[test]
fn undeclared_uniform_is_dropped_on_set() {
    let mut area = ShaderArea::new("void main(){}".to_string(), Vec::new(), Vec::new());
    let mut driver = Driver::new(&[]);
    assert_eq!(driver.activate(&mut area), Outcome::Activated);
    let before = area.clone();

    driver.log.clear();
    let value = UniformValue::Vec3([float(1.0), float(2.0), float(3.0)]);
    let first = area.set_uniform("x".to_string(), value);
    let outcome = driver.drive(&mut area, first);
    assert_eq!(outcome, Outcome::UniformDropped);
    assert!(!outcome.uniform_was_set());
    assert_eq!(area, before);
    assert!(driver.log.contains(&Call::Report(Notice::UniformUnused { name: "x".to_string() })));
    assert!(!driver.log.contains(&Call::QueueRender));
    let frame = driver.frame(&mut area);
    assert!(!frame.iter().any(|call| matches!(call, Call::Uniform3f { .. })));
}

#[test]
fn unknown_uniform_is_not_seeded() {
    let uniforms = vec![
        ("missing".to_string(), UniformValue::Float(float(1.0))),
        ("time".to_string(), UniformValue::Float(float(2.0))),
    ];
    let mut area = ShaderArea::new("uniform float time;".to_string(), Vec::new(), uniforms);
    let mut driver = Driver::new(&["time"]);
    assert_eq!(driver.activate(&mut area), Outcome::Activated);
    let names: Vec<String> = area
        .state
        .as_ref()
        .unwrap()
        .uniforms
        .entries
        .iter()
        .map(|entry| entry.name.clone())
        .collect();
    assert_eq!(names, vec!["time".to_string()]);
    assert!(driver
        .log
        .contains(&Call::Report(Notice::UniformUnused { name: "missing".to_string() })));
    let frame = driver.frame(&mut area);
    assert!(frame.contains(&Call::Uniform1f { location: 0, x: float(2.0) }));
}

#[test]
fn later_initial_uniform_of_one_name_counts() {
    let uniforms = vec![
        ("x".to_string(), UniformValue::Int(1)),
        ("x".to_string(), UniformValue::Int(2)),
    ];
    let mut area = ShaderArea::new("uniform int x;".to_string(), Vec::new(), uniforms);
    let mut driver = Driver::new(&["x"]);
    assert_eq!(driver.activate(&mut area), Outcome::Activated);
    assert_eq!(area.uniforms, vec![("x".to_string(), UniformValue::Int(2))]);
    assert!(area.is_well_formed());
    let entries = &area.state.as_ref().unwrap().uniforms.entries;
    assert_eq!(entries.len(), 1);
    assert_eq!(entries[0].value, UniformValue::Int(2));
    assert_eq!(driver.count(|call| matches!(call, Call::UniformLocation { .. })), 1);
}

#[test]
fn a_surface_with_a_name_twice_is_not_well_formed() {
    let mut area = ShaderArea::new("void main(){}".to_string(), Vec::new(), Vec::new());
    assert!(area.is_well_formed());
    area.uniforms.push(("x".to_string(), UniformValue::Int(1)));
    assert!(area.is_well_formed());
    area.uniforms.push(("x".to_string(), UniformValue::Int(2)));
    assert!(!area.is_well_formed());
}

#[test]
fn set_before_activation_is_dropped() {
    let mut area = ShaderArea::new("uniform float x;".to_string(), Vec::new(), Vec::new());
    let mut driver = Driver::new(&["x"]);
    let first = area.set_uniform("x".to_string(), UniformValue::Float(float(1.0)));
    assert_eq!(first.outcome, Some(Outcome::UniformDropped));
    assert_eq!(first.calls, vec![Call::Report(Notice::NotRendering)]);
    assert!(area.is_idle());

    assert_eq!(driver.activate(&mut area), Outcome::Activated);
    let frame = driver.frame(&mut area);
    assert!(!frame.iter().any(|call| matches!(call, Call::Uniform1f { .. })));
}

#[test]
fn set_with_context_error_changes_nothing() {
    let mut area = ShaderArea::new("uniform float x;".to_string(), Vec::new(), Vec::new());
    let mut driver = Driver::new(&["x"]);
    assert_eq!(driver.activate(&mut area), Outcome::Activated);
    let before = area.clone();
    driver.context_error = true;
    driver.log.clear();
    let first = area.set_uniform("x".to_string(), UniformValue::Float(float(1.0)));
    assert_eq!(driver.drive(&mut area, first), Outcome::UniformDropped);
    assert_eq!(area, before);
    assert_eq!(
        driver.log,
        vec![Call::MakeCurrent, Call::ContextError, Call::Report(Notice::ContextUnavailable)]
    );
}

#[test]
fn every_shape_gets_its_upload() {
    let values = vec![
        UniformValue::Float(float(1.0)),
        UniformValue::Vec2([float(1.0), float(2.0)]),
        UniformValue::Vec3([float(1.0), float(2.0), float(3.0)]),
        UniformValue::Vec4([float(1.0), float(2.0), float(3.0), float(4.0)]),
        UniformValue::Int(-1),
        UniformValue::IVec2([1, 2]),
        UniformValue::IVec3([1, 2, 3]),
        UniformValue::IVec4([1, 2, 3, 4]),
    ];
    let names = ["a", "b", "c", "d", "e", "f", "g", "h"];
    let uniforms: Vec<(String, UniformValue)> =
        names.iter().map(|name| name.to_string()).zip(values).collect();
    let mut area = ShaderArea::new("void main(){}".to_string(), Vec::new(), uniforms);
    let mut driver = Driver::new(&names);
    assert_eq!(driver.activate(&mut area), Outcome::Activated);
    let frame = driver.frame(&mut area);
    assert_eq!(
        frame[3..12].to_vec(),
        vec![
            Call::UseProgram { program: 3 },
            Call::Uniform1f { location: 0, x: float(1.0) },
            Call::Uniform2f { location: 1, x: float(1.0), y: float(2.0) },
            Call::Uniform3f { location: 2, x: float(1.0), y: float(2.0), z: float(3.0) },
            Call::Uniform4f {
                location: 3,
                x: float(1.0),
                y: float(2.0),
                z: float(3.0),
                w: float(4.0)
            },
            Call::Uniform1i { location: 4, x: -1 },
            Call::Uniform2i { location: 5, x: 1, y: 2 },
            Call::Uniform3i { location: 6, x: 1, y: 2, z: 3 },
            Call::Uniform4i { location: 7, x: 1, y: 2, z: 3, w: 4 },
        ]
    );
}

#[test]
fn lifecycle_deletes_what_it_created() {
    let images = vec![pixels(1, 1, 1), pixels(1, 1, 2)];
    let mut area = new_area_for_shader("void main(){}".to_string(), images, Vec::new());
    let mut driver = Driver::new(&["tex0", "tex1"]);
    assert_eq!(driver.activate(&mut area), Outcome::Activated);
    for _ in 0..3 {
        let first = area.render();
        assert_eq!(driver.drive(&mut area, first), Outcome::Drawn);
    }
    let first = area.unrealize();
    assert_eq!(driver.drive(&mut area, first), Outcome::Deactivated);
    assert!(!area.is_active());

    assert_eq!(driver.count(|call| matches!(call, Call::CreateProgram)), 1);
    assert_eq!(driver.count(|call| matches!(call, Call::DeleteProgram { program: 3 })), 1);
    assert_eq!(driver.count(|call| matches!(call, Call::GenVertexArray)), 1);
    assert_eq!(driver.count(|call| matches!(call, Call::DeleteVertexArray { vertex_array: 4 })), 1);
    assert_eq!(driver.count(|call| matches!(call, Call::GenTexture)), 2);
    assert_eq!(driver.count(|call| matches!(call, Call::CreateShader { .. })), 2);
    assert_eq!(driver.count(|call| matches!(call, Call::DeleteShader { .. })), 2);
    let tail = driver.log[driver.log.len() - 3..].to_vec();
    assert_eq!(
        tail,
        vec![
            Call::DeleteProgram { program: 3 },
            Call::DeleteVertexArray { vertex_array: 4 },
            Call::DeleteTextures { textures: vec![5, 6] },
        ]
    );
}

#[test]
fn deactivation_without_textures_deletes_no_textures() {
    let mut area = ShaderArea::new("void main(){}".to_string(), Vec::new(), Vec::new());
    let mut driver = Driver::new(&[]);
    assert_eq!(driver.activate(&mut area), Outcome::Activated);
    driver.log.clear();
    let first = area.unrealize();
    assert_eq!(driver.drive(&mut area, first), Outcome::Deactivated);
    assert_eq!(
        driver.log,
        vec![
            Call::MakeCurrent,
            Call::ContextError,
            Call::DeleteProgram { program: 3 },
            Call::DeleteVertexArray { vertex_array: 4 },
        ]
    );
}

#[test]
fn context_error_at_deactivation_skips_cleanup() {
    let mut area = new_area_for_shader("void main(){}".to_string(), vec![pixels(1, 1, 1)], vec![]);
    let mut driver = Driver::new(&[]);
    assert_eq!(driver.activate(&mut area), Outcome::Activated);
    let before = area.clone();
    driver.context_error = true;
    driver.log.clear();
    let first = area.unrealize();
    assert_eq!(driver.drive(&mut area, first), Outcome::CleanupSkipped);
    assert_eq!(
        driver.log,
        vec![Call::MakeCurrent, Call::ContextError, Call::Report(Notice::ContextUnavailable)]
    );
    assert_eq!(area, before);
}

#[test]
fn compile_failure_is_reported_and_activation_goes_on() {
    let mut area = ShaderArea::new("this is no shader".to_string(), Vec::new(), Vec::new());
    let mut driver = Driver::new(&[]);
    driver.failing_stage = Some(ShaderStage::Fragment);
    driver.link_fails = true;
    assert_eq!(driver.activate(&mut area), Outcome::Activated);
    let reports: Vec<Call> =
        driver.log.iter().filter(|call| matches!(call, Call::Report(_))).cloned().collect();
    assert_eq!(
        reports,
        vec![
            Call::Report(Notice::CompileFailed {
                stage: ShaderStage::Fragment,
                log: "0:1: syntax error".to_string()
            }),
            Call::Report(Notice::LinkFailed { log: "link failed".to_string() }),
        ]
    );
    assert_eq!(driver.count(|call| matches!(call, Call::DeleteShader { .. })), 2);
    assert_eq!(area.state.as_ref().unwrap().program, 3);
    let frame = driver.frame(&mut area);
    assert!(frame.contains(&Call::DrawTriangleStrip { first: 0, count: 4 }));
}

#[test]
fn vertex_failure_is_reported_with_its_stage() {
    let mut area = ShaderArea::new("void main(){}".to_string(), Vec::new(), Vec::new());
    let mut driver = Driver::new(&[]);
    driver.failing_stage = Some(ShaderStage::Vertex);
    assert_eq!(driver.activate(&mut area), Outcome::Activated);
    assert!(driver.log.contains(&Call::Report(Notice::CompileFailed {
        stage: ShaderStage::Vertex,
        log: "0:1: syntax error".to_string()
    })));
    assert!(driver.log.contains(&Call::ShaderInfoLog { shader: 1 }));
}

#[test]
fn unexpected_reply_is_refused_and_changes_nothing() {
    let mut area = ShaderArea::new("void main(){}".to_string(), Vec::new(), Vec::new());
    assert!(area.resume(Reply::Nothing).is_err());
    let _ = area.realize();
    let before = area.clone();
    assert!(area.resume(Reply::Handle(1)).is_err());
    assert!(area.resume(Reply::Location(1)).is_err());
    assert_eq!(area, before);
    assert!(area.resume(Reply::Flag(false)).is_ok());
}

#[test]
fn surface_can_be_activated_again() {
    let mut area = new_area_for_shader("void main(){}".to_string(), vec![pixels(1, 1, 1)], vec![]);
    let mut driver = Driver::new(&["tex0"]);
    for _ in 0..2 {
        assert_eq!(driver.activate(&mut area), Outcome::Activated);
        let first = area.unrealize();
        assert_eq!(driver.drive(&mut area, first), Outcome::Deactivated);
    }
    assert_eq!(driver.count(|call| matches!(call, Call::GenTexture)), 2);
    assert_eq!(driver.count(|call| matches!(call, Call::DeleteTextures { .. })), 2);
    assert_eq!(driver.count(|call| matches!(call, Call::CreateProgram)), 2);
    assert_eq!(driver.count(|call| matches!(call, Call::DeleteProgram { .. })), 2);
}

#[test]
fn operations_end_within_their_bound() {
    let paths = vec!["a.png".to_string(), "gone.png".to_string()];
    let uniforms = vec![
        ("a".to_string(), UniformValue::Int(1)),
        ("b".to_string(), UniformValue::Int(2)),
        ("c".to_string(), UniformValue::Int(3)),
    ];
    let mut area = ShaderArea::new("void main(){}".to_string(), paths, uniforms);
    let mut driver = Driver::new(&["a", "tex0"]);
    driver.files.push(("a.png".to_string(), png(1, 1, 1)));
    driver.failing_stage = Some(ShaderStage::Vertex);
    driver.link_fails = true;

    assert_eq!(driver.activate(&mut area), Outcome::Activated);
    assert_eq!(driver.replies, 11 + 3 + 1 + 3);
    assert!(driver.replies <= 14 + 3 * 2 + 3);

    driver.replies = 0;
    driver.frame(&mut area);
    assert_eq!(driver.replies, 1);

    driver.replies = 0;
    let first = area.set_uniform("zzz".to_string(), UniformValue::Int(1));
    driver.drive(&mut area, first);
    assert_eq!(driver.replies, 2);

    driver.replies = 0;
    let first = area.unrealize();
    driver.drive(&mut area, first);
    assert_eq!(driver.replies, 1);
}

#[test]
fn activation_asks_for_each_location_once() {
    let images = vec![pixels(1, 1, 1), pixels(1, 1, 2)];
    let uniforms = vec![
        ("a".to_string(), UniformValue::Int(1)),
        ("missing".to_string(), UniformValue::Int(2)),
    ];
    let mut area = new_area_for_shader("void main(){}".to_string(), images, uniforms);
    let mut driver = Driver::new(&["a"]);
    assert_eq!(driver.activate(&mut area), Outcome::Activated);
    let asked: Vec<String> = driver
        .log
        .iter()
        .filter_map(|call| match call {
            Call::UniformLocation { name, .. } => Some(name.clone()),
            _ => None,
        })
        .collect();
    assert_eq!(asked, vec!["tex0", "tex1", "a", "missing"]);
}

#[test]
fn three_files_that_all_load_take_units_in_order() {
    let paths = vec!["a.png".to_string(), "b.bmp".to_string(), "c.png".to_string()];
    let mut area = ShaderArea::new("void main(){}".to_string(), paths, Vec::new());
    let mut driver = Driver::new(&["tex2", "tex1", "tex0"]);
    driver.files.push(("a.png".to_string(), png(1, 1, 10)));
    let second = image::RgbaImage::from_raw(1, 2, vec![20; 8]).unwrap();
    let mut bytes = std::io::Cursor::new(Vec::new());
    second.write_to(&mut bytes, image::ImageFormat::Bmp).unwrap();
    driver.files.push(("b.bmp".to_string(), bytes.into_inner()));
    driver.files.push(("c.png".to_string(), png(2, 1, 30)));
    assert_eq!(driver.activate(&mut area), Outcome::Activated);

    let images = [pixels(1, 1, 10), pixels(1, 2, 20), pixels(2, 1, 30)];
    let names = ["a.png", "b.bmp", "c.png"];
    let mut expected = Vec::new();
    for unit in 0..3usize {
        let texture = 5 + unit as u32;
        expected.push(Call::ReadFile { path: names[unit].to_string() });
        expected.push(Call::GenTexture);
        expected.extend(upload_of(unit, texture, &images[unit], 3));
        expected.push(Call::Uniform1i { location: 2 - unit as i32, x: unit as i32 });
    }
    let tail = driver.log[driver.log.len() - expected.len()..].to_vec();
    assert_eq!(tail, expected);
    assert_eq!(area.state.as_ref().unwrap().textures, vec![5, 6, 7]);

    for _ in 0..2 {
        let frame = driver.frame(&mut area);
        let bindings: Vec<Call> = frame
            .into_iter()
            .filter(|call| matches!(call, Call::ActiveTexture { .. } | Call::BindTexture { .. }))
            .collect();
        assert_eq!(
            bindings,
            vec![
                Call::ActiveTexture { unit: 0 },
                Call::BindTexture { texture: 5 },
                Call::ActiveTexture { unit: 1 },
                Call::BindTexture { texture: 6 },
                Call::ActiveTexture { unit: 2 },
                Call::BindTexture { texture: 7 },
            ]
        );
    }
}

#[test]
fn decoded_files_with_one_failure_take_units_without_a_gap() {
    let files = vec![
        ("a.png".to_string(), Some(png(1, 1, 10))),
        ("b.png".to_string(), Some(b"no picture".to_vec())),
        ("c.png".to_string(), Some(png(2, 2, 30))),
    ];
    let textures = gtk_gl_shaders::texture::decode_textures(&files);
    assert_eq!(textures, vec![pixels(1, 1, 10), pixels(2, 2, 30)]);
    let mut area = new_area_for_shader("void main(){}".to_string(), textures, Vec::new());
    let mut driver = Driver::new(&["tex0", "tex1", "tex2"]);
    assert_eq!(driver.activate(&mut area), Outcome::Activated);
    assert_eq!(area.state.as_ref().unwrap().textures, vec![5, 6]);
    assert!(driver.log.contains(&Call::Uniform1i { location: 0, x: 0 }));
    assert!(driver.log.contains(&Call::Uniform1i { location: 1, x: 1 }));
    assert!(!driver.log.iter().any(|call| matches!(call, Call::Uniform1i { x: 2, .. })));
    assert_eq!(driver.count(|call| matches!(call, Call::Report(_))), 0);
    let frame = driver.frame(&mut area);
    let bindings: Vec<Call> = frame
        .into_iter()
        .filter(|call| matches!(call, Call::ActiveTexture { .. } | Call::BindTexture { .. }))
        .collect();
    assert_eq!(
        bindings,
        vec![
            Call::ActiveTexture { unit: 0 },
            Call::BindTexture { texture: 5 },
            Call::ActiveTexture { unit: 1 },
            Call::BindTexture { texture: 6 },
        ]
    );
}

use kuplung::fractals::fractals_manager::ZoomSnapshot;
use kuplung::fractals::julia::Julia;
use kuplung::fractals::mandelbrot::Mandelbrot;
use kuplung::rendering::gl_utils::{GpuError, UniformHandle};
use kuplung::rendering::gpu::{
    BufferKind, GpuCommand, GpuObject, ShaderStage, UniformValue, FIXED_ONE,
};
use kuplung::rendering::program::{
    BuildEvent, BuildPhase, BuildRequest, ProgramBuilder, ProgramConfig, ShaderProgram,
    ShaderSource, UniformSpec,
};
use kuplung::rendering::triangler::Triangler;
use kuplung::shadertoy::shadertoy_engine::ShaderToyEngine;

/// A stand-in for the driver that keeps the books the way a real one does.
struct MockGpu {
    live: Vec<GpuObject>,
    attached: Vec<ShaderStage>,
    log: Vec<GpuCommand>,
}

impl MockGpu {
    fn new() -> Self {
        MockGpu { live: Vec::new(), attached: Vec::new(), log: Vec::new() }
    }

    fn replay(&mut self, commands: &[GpuCommand]) {
        for command in commands {
            self.log.push(*command);
            match *command {
                GpuCommand::Create(object) => {
                    assert!(!self.live.contains(&object), "created twice: {:?}", object);
                    self.live.push(object);
                }
                GpuCommand::Delete(object) => {
                    assert!(self.live.contains(&object), "deleted but absent: {:?}", object);
                    if let GpuObject::Shader(stage) = object {
                        assert!(!self.attached.contains(&stage), "deleted while attached");
                    }
                    if object == GpuObject::Program {
                        assert!(self.attached.is_empty(), "program deleted with shaders attached");
                    }
                    self.live.retain(|o| *o != object);
                }
                GpuCommand::UploadSource(stage) | GpuCommand::Compile(stage) => {
                    assert!(self.live.contains(&GpuObject::Shader(stage)));
                }
                GpuCommand::Attach(stage) => {
                    assert!(self.live.contains(&GpuObject::Program));
                    assert!(self.live.contains(&GpuObject::Shader(stage)));
                    assert!(!self.attached.contains(&stage));
                    self.attached.push(stage);
                }
                GpuCommand::Detach(stage) => {
                    assert!(self.attached.contains(&stage));
                    self.attached.retain(|s| *s != stage);
                }
                GpuCommand::Link | GpuCommand::UseProgram | GpuCommand::SetUniform { .. } => {
                    assert!(self.live.contains(&GpuObject::Program));
                }
                GpuCommand::BindVertexArray(true) => {
                    assert!(self.live.contains(&GpuObject::VertexArray));
                }
                GpuCommand::BindBuffer(kind) | GpuCommand::UploadBuffer(kind) => {
                    assert!(self.live.contains(&GpuObject::Buffer(kind)));
                }
                GpuCommand::BindRenderbuffer(true) => {
                    assert!(self.live.contains(&GpuObject::Renderbuffer));
                }
                _ => {}
            }
        }
    }
}

/// Runs a build to its end, answering every request with `answer`.
fn drive(
    gpu: &mut MockGpu,
    config: ProgramConfig,
    mut answer: impl FnMut(BuildRequest, &ProgramBuilder) -> BuildEvent,
) -> Option<Result<ShaderProgram, GpuError>> {
    let mut builder = ProgramBuilder::new(config);
    assert_eq!(builder.pending(), BuildRequest::Start);
    let first = builder.start();
    gpu.replay(&first);
    let mut steps = 0;
    while builder.pending() != BuildRequest::Done {
        let event = answer(builder.pending(), &builder);
        let commands = builder.advance(event);
        gpu.replay(&commands);
        steps += 1;
        assert!(steps < 100, "the build does not come to an end");
    }
    builder.finish()
}

fn all_good(request: BuildRequest, _builder: &ProgramBuilder) -> BuildEvent {
    match request {
        BuildRequest::ReadSource(_) => BuildEvent::Source(Some("void main() {}".to_string())),
        BuildRequest::CompileStatus(_) => BuildEvent::Compiled { ok: true, log: String::new() },
        BuildRequest::LinkStatus => BuildEvent::Linked { ok: true, log: String::new() },
        BuildRequest::UniformLocation(index) => BuildEvent::Uniform(Some(10 + index as u32)),
        BuildRequest::Start | BuildRequest::Done => unreachable!(),
    }
}

fn built_mandelbrot(gpu: &mut MockGpu) -> Mandelbrot {
    let built = drive(gpu, Mandelbrot::program_config(), all_good).unwrap();
    Mandelbrot::new(built).unwrap()
}

#[test]
fn a_good_build_leaves_only_the_program() {
    let mut gpu = MockGpu::new();
    let built = drive(&mut gpu, Mandelbrot::program_config(), all_good);
    match built {
        Some(Ok(program)) => {
            let expected: Vec<UniformHandle> =
                (0..8).map(|i| UniformHandle::Location(10 + i)).collect();
            assert_eq!(program.handles(), &expected);
        }
        _ => panic!("the build should have succeeded"),
    }
    assert_eq!(gpu.live, vec![GpuObject::Program]);
    assert!(gpu.attached.is_empty());
}

#[test]
fn a_good_build_issues_the_expected_commands() {
    let mut gpu = MockGpu::new();
    let _ = drive(&mut gpu, Julia::program_config(), all_good);
    let vertex = ShaderStage::Vertex;
    let fragment = ShaderStage::Fragment;
    assert_eq!(
        gpu.log,
        vec![
            GpuCommand::Create(GpuObject::Program),
            GpuCommand::Create(GpuObject::Shader(vertex)),
            GpuCommand::UploadSource(vertex),
            GpuCommand::Compile(vertex),
            GpuCommand::Attach(vertex),
            GpuCommand::Create(GpuObject::Shader(fragment)),
            GpuCommand::UploadSource(fragment),
            GpuCommand::Compile(fragment),
            GpuCommand::Attach(fragment),
            GpuCommand::Link,
            GpuCommand::Detach(vertex),
            GpuCommand::Delete(GpuObject::Shader(vertex)),
            GpuCommand::Detach(fragment),
            GpuCommand::Delete(GpuObject::Shader(fragment)),
        ]
    );
}

#[test]
fn the_builder_walks_through_its_phases() {
    let mut builder = ProgramBuilder::new(Triangler::program_config());
    assert_eq!(builder.phase(), BuildPhase::Created);
    builder.start();
    assert_eq!(builder.phase(), BuildPhase::Sourcing(ShaderStage::Vertex));
    assert_eq!(builder.pending(), BuildRequest::ReadSource(ShaderStage::Vertex));
    assert_eq!(
        builder.source_path(ShaderStage::Vertex).map(|p| p.as_str()),
        Some("assets/shaders/viewer/triangle.vert")
    );
    builder.advance(BuildEvent::Source(Some("vertex text".to_string())));
    assert_eq!(builder.phase(), BuildPhase::Compiling(ShaderStage::Vertex));
    assert_eq!(builder.source_text(ShaderStage::Vertex), "vertex text");
    builder.advance(BuildEvent::Compiled { ok: true, log: String::new() });
    assert_eq!(builder.phase(), BuildPhase::Sourcing(ShaderStage::Fragment));
    builder.advance(BuildEvent::Source(Some("fragment text".to_string())));
    assert_eq!(builder.source_text(ShaderStage::Fragment), "fragment text");
    builder.advance(BuildEvent::Compiled { ok: true, log: String::new() });
    assert_eq!(builder.phase(), BuildPhase::Linking);
    builder.advance(BuildEvent::Linked { ok: true, log: String::new() });
    assert_eq!(builder.phase(), BuildPhase::Resolving);
    assert_eq!(builder.pending(), BuildRequest::UniformLocation(0));
    assert_eq!(builder.uniform_name(0).map(|n| n.as_str()), Some("vs_angle"));
    assert_eq!(builder.uniform_name(1), None);
    builder.advance(BuildEvent::Uniform(None));
    assert_eq!(builder.phase(), BuildPhase::Ready);
    assert_eq!(builder.pending(), BuildRequest::Done);
}

#[test]
fn an_unexpected_event_changes_nothing() {
    let mut builder = ProgramBuilder::new(Triangler::program_config());
    assert!(builder.advance(BuildEvent::Uniform(Some(1))).is_empty());
    assert_eq!(builder.phase(), BuildPhase::Created);
    builder.start();
    assert!(builder.start().is_empty());
    assert!(builder.advance(BuildEvent::Linked { ok: false, log: "x".to_string() }).is_empty());
    assert_eq!(builder.phase(), BuildPhase::Sourcing(ShaderStage::Vertex));
    assert!(builder.finish().is_none());
}

#[test]
fn a_missing_file_fails_the_build_and_leaves_nothing() {
    let mut gpu = MockGpu::new();
    let built = drive(&mut gpu, Mandelbrot::program_config(), |request, builder| match request {
        BuildRequest::ReadSource(ShaderStage::Fragment) => BuildEvent::Source(None),
        other => all_good(other, builder),
    });
    assert_eq!(
        built.map(|r| r.err()),
        Some(Some(GpuError::AssetNotFound {
            path: "assets/shaders/fractals/mandelbrot.frag".to_string()
        }))
    );
    assert!(gpu.live.is_empty());
    assert!(gpu.attached.is_empty());
}

#[test]
fn a_rejected_vertex_shader_fails_the_build_and_leaves_nothing() {
    let mut gpu = MockGpu::new();
    let built = drive(&mut gpu, Mandelbrot::program_config(), |request, builder| match request {
        BuildRequest::CompileStatus(ShaderStage::Vertex) => {
            BuildEvent::Compiled { ok: false, log: "0:1: syntax error".to_string() }
        }
        other => all_good(other, builder),
    });
    assert_eq!(
        built.map(|r| r.err()),
        Some(Some(GpuError::CompileError {
            stage: ShaderStage::Vertex,
            log: "0:1: syntax error".to_string(),
            file: Some("assets/shaders/fractals/mandelbrot.vert".to_string()),
        }))
    );
    assert!(gpu.live.is_empty());
}

#[test]
fn a_rejected_fragment_shader_fails_the_build_and_leaves_nothing() {
    let mut gpu = MockGpu::new();
    let built = drive(&mut gpu, ShaderToyEngine::program_config(""), |request, builder| {
        match request {
            BuildRequest::CompileStatus(ShaderStage::Fragment) => {
                BuildEvent::Compiled { ok: false, log: "bad toy".to_string() }
            }
            other => all_good(other, builder),
        }
    });
    assert_eq!(
        built.map(|r| r.err()),
        Some(Some(GpuError::CompileError {
            stage: ShaderStage::Fragment,
            log: "bad toy".to_string(),
            file: None,
        }))
    );
    assert!(gpu.live.is_empty());
    assert!(gpu.attached.is_empty());
}

#[test]
fn a_failed_link_fails_the_build_and_leaves_nothing() {
    let mut gpu = MockGpu::new();
    let built = drive(&mut gpu, Julia::program_config(), |request, builder| match request {
        BuildRequest::LinkStatus => BuildEvent::Linked { ok: false, log: "unresolved".to_string() },
        other => all_good(other, builder),
    });
    assert_eq!(
        built.map(|r| r.err()),
        Some(Some(GpuError::LinkError { log: "unresolved".to_string() }))
    );
    assert!(gpu.live.is_empty());
    assert!(gpu.attached.is_empty());
}

#[test]
fn a_missing_strict_uniform_fails_the_build_and_leaves_nothing() {
    let mut gpu = MockGpu::new();
    let built = drive(&mut gpu, Mandelbrot::program_config(), |request, builder| match request {
        BuildRequest::UniformLocation(6) => BuildEvent::Uniform(None),
        other => all_good(other, builder),
    });
    assert_eq!(
        built.map(|r| r.err()),
        Some(Some(GpuError::UniformNotFound { name: "u_zoomCenter".to_string() }))
    );
    assert!(gpu.live.is_empty());
}

#[test]
fn a_missing_permissive_uniform_becomes_a_no_op_handle() {
    let mut gpu = MockGpu::new();
    let built = drive(&mut gpu, Julia::program_config(), |request, builder| match request {
        BuildRequest::UniformLocation(3) => BuildEvent::Uniform(None),
        other => all_good(other, builder),
    });
    let program = built.unwrap().unwrap();
    assert_eq!(
        program.handles(),
        &vec![
            UniformHandle::Location(10),
            UniformHandle::Location(11),
            UniformHandle::Location(12),
            UniformHandle::NoOp,
        ]
    );
}

#[test]
fn the_default_toy_builds_with_no_uniform_found_at_all() {
    let mut gpu = MockGpu::new();
    let built = drive(&mut gpu, ShaderToyEngine::program_config(""), |request, builder| {
        match request {
            BuildRequest::UniformLocation(_) => BuildEvent::Uniform(None),
            other => all_good(other, builder),
        }
    });
    let engine = ShaderToyEngine::new(built.unwrap()).unwrap();
    gpu.replay(&engine.create_commands());
    gpu.log.clear();
    gpu.replay(&engine.setup_fbo(640 * FIXED_ONE + 999_999_999, 480 * FIXED_ONE));
    gpu.replay(&engine.paint(640 * FIXED_ONE, 480 * FIXED_ONE));
    // Every uniform resolved to a no-op handle, so no write reaches the GPU.
    assert_eq!(
        gpu.log,
        vec![
            GpuCommand::BindRenderbuffer(true),
            GpuCommand::RenderbufferStorage { width: 640, height: 480 },
            GpuCommand::BindRenderbuffer(false),
            GpuCommand::UseProgram,
            GpuCommand::BindVertexArray(true),
            GpuCommand::DrawArrays { first: 0, count: 6 },
            GpuCommand::BindVertexArray(false),
        ]
    );
    gpu.replay(&engine.destroy());
    assert!(gpu.live.is_empty());
}

#[test]
fn the_default_toy_compiles_the_default_source_without_reading_a_snippet() {
    let mut builder = ProgramBuilder::new(ShaderToyEngine::program_config(""));
    builder.start();
    builder.advance(BuildEvent::Source(Some("vertex".to_string())));
    let commands = builder.advance(BuildEvent::Compiled { ok: true, log: String::new() });
    // The fragment stage goes straight to compiling: there is no file to wait for.
    assert_eq!(builder.phase(), BuildPhase::Compiling(ShaderStage::Fragment));
    assert_eq!(
        commands,
        vec![
            GpuCommand::Attach(ShaderStage::Vertex),
            GpuCommand::Create(GpuObject::Shader(ShaderStage::Fragment)),
            GpuCommand::UploadSource(ShaderStage::Fragment),
            GpuCommand::Compile(ShaderStage::Fragment),
        ]
    );
    assert_eq!(builder.source_text(ShaderStage::Fragment), &ShaderToyEngine::get_stoy(None));
    assert_eq!(builder.source_path(ShaderStage::Fragment), None);
}

#[test]
fn a_named_toy_wraps_the_snippet_it_reads() {
    let mut builder = ProgramBuilder::new(ShaderToyEngine::program_config("Ms2SD1"));
    builder.start();
    builder.advance(BuildEvent::Source(Some("vertex".to_string())));
    builder.advance(BuildEvent::Compiled { ok: true, log: String::new() });
    assert_eq!(builder.pending(), BuildRequest::ReadSource(ShaderStage::Fragment));
    assert_eq!(
        builder.source_path(ShaderStage::Fragment).map(|p| p.as_str()),
        Some("assets/shaders/shadertoy/Ms2SD1.stoy")
    );
    let snippet = "void mainImage(out vec4 c, in vec2 p) { c = vec4(1.0); }\n";
    builder.advance(BuildEvent::Source(Some(snippet.to_string())));
    assert_eq!(
        builder.source_text(ShaderStage::Fragment),
        &ShaderToyEngine::get_stoy(Some(snippet.to_string()))
    );
    assert!(builder.source_text(ShaderStage::Fragment).contains(snippet));
}

#[test]
fn the_life_of_a_mandelbrot_leaves_nothing_behind() {
    let mut gpu = MockGpu::new();
    let explorer = built_mandelbrot(&mut gpu);
    gpu.replay(&explorer.create_commands());
    assert_eq!(
        gpu.live,
        vec![
            GpuObject::Program,
            GpuObject::VertexArray,
            GpuObject::Buffer(BufferKind::Vertex),
            GpuObject::Buffer(BufferKind::Index),
        ]
    );
    let zoom = ZoomSnapshot { iterations: 500, center_x: 0, center_y: 0, size: FIXED_ONE };
    for _ in 0..3 {
        gpu.replay(&explorer.paint(800 * FIXED_ONE, 600 * FIXED_ONE, zoom));
        assert_eq!(gpu.live.len(), 4);
    }
    gpu.replay(&explorer.destroy());
    assert!(gpu.live.is_empty());
}

#[test]
fn mandelbrot_paint_writes_the_frame_uniforms_in_order() {
    let mut gpu = MockGpu::new();
    let mut explorer = built_mandelbrot(&mut gpu);
    explorer.option_blackandwhite = true;
    explorer.option_colorpalette = 1;
    explorer.option_iterations = 321;
    let zoom = ZoomSnapshot { iterations: 70, center_x: -5, center_y: 7, size: 123 };
    assert_eq!(
        explorer.paint(800 * FIXED_ONE + 500_000_000, 600 * FIXED_ONE, zoom),
        vec![
            GpuCommand::UseProgram,
            GpuCommand::BindVertexArray(true),
            GpuCommand::SetUniform {
                location: 10,
                value: UniformValue::Scalar(800 * FIXED_ONE + 500_000_000),
            },
            GpuCommand::SetUniform { location: 11, value: UniformValue::Scalar(600 * FIXED_ONE) },
            GpuCommand::SetUniform { location: 12, value: UniformValue::Int(321) },
            GpuCommand::SetUniform { location: 13, value: UniformValue::Int(70) },
            GpuCommand::SetUniform { location: 14, value: UniformValue::Int(1) },
            GpuCommand::SetUniform { location: 15, value: UniformValue::Int(1) },
            GpuCommand::SetUniform { location: 16, value: UniformValue::Pair(-5, 7) },
            GpuCommand::SetUniform { location: 17, value: UniformValue::Scalar(123) },
            GpuCommand::DrawElements { count: 6 },
            GpuCommand::BindVertexArray(false),
        ]
    );
}

#[test]
fn julia_paint_discards_the_write_to_a_no_op_handle() {
    let mut gpu = MockGpu::new();
    let built = drive(&mut gpu, Julia::program_config(), |request, builder| match request {
        BuildRequest::UniformLocation(3) => BuildEvent::Uniform(None),
        other => all_good(other, builder),
    });
    let explorer = Julia::new(built.unwrap()).unwrap();
    assert_eq!(explorer.option_iterations, 256);
    assert_eq!(
        explorer.paint(300 * FIXED_ONE, 200 * FIXED_ONE),
        vec![
            GpuCommand::UseProgram,
            GpuCommand::BindVertexArray(true),
            GpuCommand::SetUniform { location: 10, value: UniformValue::Scalar(300 * FIXED_ONE) },
            GpuCommand::SetUniform { location: 11, value: UniformValue::Scalar(200 * FIXED_ONE) },
            GpuCommand::SetUniform { location: 12, value: UniformValue::Int(256) },
            GpuCommand::DrawElements { count: 6 },
            GpuCommand::BindVertexArray(false),
        ]
    );
}

#[test]
fn julia_paint_writes_the_world_view_where_it_exists() {
    let mut gpu = MockGpu::new();
    let built = drive(&mut gpu, Julia::program_config(), all_good);
    let explorer = Julia::new(built.unwrap()).unwrap();
    let commands = explorer.paint(300 * FIXED_ONE, 200 * FIXED_ONE);
    assert_eq!(
        commands[5],
        GpuCommand::SetUniform { location: 13, value: UniformValue::IdentityMatrix3 }
    );
    gpu.replay(&explorer.create_commands());
    gpu.replay(&commands);
    gpu.replay(&explorer.destroy());
    assert!(gpu.live.is_empty());
}

#[test]
fn triangler_clears_then_draws_three_indices() {
    let mut gpu = MockGpu::new();
    let built = drive(&mut gpu, Triangler::program_config(), all_good);
    let triangler = Triangler::new(built.unwrap()).unwrap();
    gpu.replay(&triangler.create_commands());
    let commands = triangler.paint(1_570_796_327);
    assert_eq!(
        commands,
        vec![
            GpuCommand::ClearColor { red: 70, green: 70, blue: 70, alpha: 255 },
            GpuCommand::Clear,
            GpuCommand::UseProgram,
            GpuCommand::BindVertexArray(true),
            GpuCommand::SetUniform { location: 10, value: UniformValue::Scalar(1_570_796_327) },
            GpuCommand::DrawElements { count: 3 },
            GpuCommand::BindVertexArray(false),
        ]
    );
    gpu.replay(&commands);
    gpu.replay(&triangler.destroy());
    assert!(gpu.live.is_empty());
}

#[test]
fn a_failed_build_yields_no_demo() {
    assert!(Mandelbrot::new(Err(GpuError::LinkError { log: "x".to_string() })).is_none());
    assert!(Julia::new(Err(GpuError::LinkError { log: "x".to_string() })).is_none());
    assert!(Triangler::new(Err(GpuError::LinkError { log: "x".to_string() })).is_none());
    assert!(ShaderToyEngine::new(Err(GpuError::LinkError { log: "x".to_string() })).is_none());
}

#[test]
fn a_program_built_for_another_demo_yields_no_demo() {
    let mut gpu = MockGpu::new();
    let built = drive(&mut gpu, Triangler::program_config(), all_good);
    assert!(Mandelbrot::new(built.unwrap()).is_none());
}

#[test]
fn a_strict_uniform_must_belong_to_the_contract() {
    assert!(UniformSpec::strict("u_zoomSize".to_string()).is_some());
    assert!(UniformSpec::strict("iChannel2".to_string()).is_some());
    assert!(UniformSpec::strict("vs_angle".to_string()).is_none());
    assert!(UniformSpec::strict("u_world_view".to_string()).is_none());
    assert!(UniformSpec::strict(String::new()).is_none());
    let tolerated = UniformSpec::permissive("vs_angle".to_string());
    assert_eq!(tolerated.name(), "vs_angle");
    let mut config = ProgramConfig::new(
        ShaderSource::Inline("v".to_string()),
        ShaderSource::Inline("f".to_string()),
    );
    assert!(!config.expose_strict("vs_angle"));
    assert!(config.uniforms.is_empty());
    assert!(config.expose_strict("u_iterations"));
    config.expose_permissive("vs_angle");
    assert_eq!(config.uniforms.len(), 2);
}

#[test]
fn an_inline_program_needs_no_file_at_all() {
    let mut gpu = MockGpu::new();
    let config = ProgramConfig::new(
        ShaderSource::Inline("v".to_string()),
        ShaderSource::Inline("f".to_string()),
    );
    let built = drive(&mut gpu, config, |request, builder| match request {
        BuildRequest::ReadSource(_) => panic!("nothing to read"),
        BuildRequest::UniformLocation(_) => panic!("nothing to resolve"),
        other => all_good(other, builder),
    });
    assert!(built.unwrap().unwrap().handles().is_empty());
    assert_eq!(gpu.live, vec![GpuObject::Program]);
}

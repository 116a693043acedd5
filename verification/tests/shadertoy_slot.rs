use kuplung::rendering::gl_utils::GpuError;
use kuplung::rendering::gpu::{
    BufferKind, GpuCommand, GpuObject, ShaderStage, UniformValue, FIXED_ONE,
};
use kuplung::rendering::program::{
    BuildEvent, BuildRequest, ProgramBuilder, ProgramConfig, ShaderProgram, ShaderSource,
};
use kuplung::shadertoy::shadertoy_engine::{
    ShaderToyEngine, DEFAULT_MAIN_IMAGE, TOY_DECLARATIONS, TOY_TRAMPOLINE,
};
use kuplung::settings::kuplung_logger::LogBuffer;
use kuplung::shadertoy::shadertoy_manager::{ShaderToy, ToyFrame, ToyMenu};
use kuplung::ui::ui_manager::UIManager;
use kuplung::kuplung::app::KuplungApp;
use kuplung::utils::file_io::{shadertoy_asset_path, stoy_asset_path};

fn build(config: ProgramConfig) -> Result<ShaderProgram, GpuError> {
    let mut builder = ProgramBuilder::new(config);
    builder.start();
    while builder.pending() != BuildRequest::Done {
        let event = match builder.pending() {
            BuildRequest::ReadSource(_) => BuildEvent::Source(Some("text".to_string())),
            BuildRequest::CompileStatus(_) => BuildEvent::Compiled { ok: true, log: String::new() },
            BuildRequest::LinkStatus => BuildEvent::Linked { ok: true, log: String::new() },
            BuildRequest::UniformLocation(index) => BuildEvent::Uniform(Some(index as u32)),
            BuildRequest::Start | BuildRequest::Done => unreachable!(),
        };
        builder.advance(event);
    }
    builder.finish().unwrap()
}

fn default_toy() -> ShaderToy {
    let engine = ShaderToyEngine::new(build(ShaderToyEngine::program_config("")));
    ShaderToy::new(engine).unwrap()
}

const WIDTH: i64 = 640 * FIXED_ONE;
const HEIGHT: i64 = 480 * FIXED_ONE;

/// The frame's commands of an engine all of whose uniforms were found at
/// the location of their index.
fn frame_commands() -> Vec<GpuCommand> {
    vec![
        GpuCommand::BindRenderbuffer(true),
        GpuCommand::RenderbufferStorage { width: 640, height: 480 },
        GpuCommand::BindRenderbuffer(false),
        GpuCommand::UseProgram,
        GpuCommand::BindVertexArray(true),
        GpuCommand::SetUniform { location: 0, value: UniformValue::Pair(WIDTH, HEIGHT) },
        GpuCommand::SetUniform {
            location: 1,
            value: UniformValue::Triple(WIDTH, HEIGHT, FIXED_ONE),
        },
        GpuCommand::SetUniform { location: 2, value: UniformValue::Scalar(FIXED_ONE) },
        GpuCommand::SetUniform { location: 3, value: UniformValue::Scalar(FIXED_ONE) },
        GpuCommand::DrawArrays { first: 0, count: 6 },
        GpuCommand::BindVertexArray(false),
    ]
}

fn paint(toy: &mut ShaderToy) -> Vec<GpuCommand> {
    match toy.render_toy(WIDTH, HEIGHT) {
        ToyFrame::Paint(commands) => commands,
        ToyFrame::Rebuild { .. } => panic!("nothing to rebuild"),
    }
}

fn rebuild(toy: &mut ShaderToy) -> (Vec<GpuCommand>, ProgramConfig) {
    match toy.render_toy(WIDTH, HEIGHT) {
        ToyFrame::Rebuild { destroy, config } => (destroy, config),
        ToyFrame::Paint(_) => panic!("the selection changed"),
    }
}

fn destroy_commands() -> Vec<GpuCommand> {
    vec![
        GpuCommand::Delete(GpuObject::Program),
        GpuCommand::Delete(GpuObject::VertexArray),
        GpuCommand::Delete(GpuObject::Buffer(BufferKind::Vertex)),
        GpuCommand::Delete(GpuObject::Framebuffer),
        GpuCommand::Delete(GpuObject::Renderbuffer),
    ]
}

#[test]
fn assembling_the_default_twice_gives_the_same_text() {
    let first = ShaderToyEngine::get_stoy(None);
    let second = ShaderToyEngine::get_stoy(None);
    assert_eq!(first, second);
    assert_eq!(first, format!("{}{}{}", TOY_DECLARATIONS, DEFAULT_MAIN_IMAGE, TOY_TRAMPOLINE));
    assert_eq!(ShaderToyEngine::get_stoy(Some(String::new())), first);
}

#[test]
fn the_default_source_declares_the_contract_and_samples_no_channel_in_main_image() {
    let source = ShaderToyEngine::get_stoy(None);
    assert!(source.starts_with("#version 410 core\n"));
    for declaration in [
        "uniform vec3 iResolution;",
        "uniform float iGlobalTime;",
        "uniform float iTimeDelta;",
        "uniform int iFrame;",
        "uniform int iFrameRate;",
        "uniform float iChannelTime[4];",
        "uniform vec3 iChannelResolution[4];",
        "uniform vec4 iMouse;",
        "uniform vec4 iDate;",
        "uniform sampler2D iChannel0;",
        "uniform sampler2D iChannel1;",
        "uniform sampler2D iChannel2;",
        "uniform sampler2D iChannel3;",
        "#define texture2D texture",
    ] {
        assert!(source.contains(declaration), "missing: {}", declaration);
    }
    assert!(source.contains("mainImage(color, gl_FragCoord.xy);"));
    assert!(source.contains("outFragmentColor = color;"));
    assert!(!DEFAULT_MAIN_IMAGE.contains("iChannel"));
    assert!(!DEFAULT_MAIN_IMAGE.contains("texture"));
    assert!(DEFAULT_MAIN_IMAGE.contains("sin(iGlobalTime)"));
}

#[test]
fn a_snippet_is_spliced_in_verbatim() {
    let snippet = "void mainImage(out vec4 c, in vec2 p) { c = vec4(p, 0.0, 1.0); }";
    let source = ShaderToyEngine::get_stoy(Some(snippet.to_string()));
    assert_eq!(source, format!("{}{}{}", TOY_DECLARATIONS, snippet, TOY_TRAMPOLINE));
    assert!(!source.contains("sin(iGlobalTime)"));
}

#[test]
fn toy_assets_live_under_the_shadertoy_directory() {
    assert_eq!(shadertoy_asset_path("shadertoy.vert"), "assets/shaders/shadertoy/shadertoy.vert");
    assert_eq!(stoy_asset_path("4ljGW1"), "assets/shaders/shadertoy/4ljGW1.stoy");
    assert_eq!(shadertoy_asset_path(""), "assets/shaders/shadertoy/");
}

#[test]
fn the_toy_program_reads_the_snippet_of_its_key() {
    let config = ShaderToyEngine::program_config("XlfGRj");
    assert!(matches!(
        &config.vertex,
        ShaderSource::File(path) if path == "assets/shaders/shadertoy/shadertoy.vert"
    ));
    assert!(matches!(
        &config.fragment,
        ShaderSource::Toy(path) if path == "assets/shaders/shadertoy/XlfGRj.stoy"
    ));
    let names: Vec<&str> = config.uniforms.iter().map(|u| u.name().as_str()).collect();
    assert_eq!(
        names,
        vec![
            "vs_screenResolution",
            "iResolution",
            "iGlobalTime",
            "iTimeDelta",
            "vs_inFBO",
            "iFrameRate",
            "iFrame",
            "iMouse",
            "iDate",
        ]
    );
    let default = ShaderToyEngine::program_config("");
    assert!(matches!(
        &default.fragment,
        ShaderSource::Inline(text) if *text == ShaderToyEngine::get_stoy(None)
    ));
}

#[test]
fn no_engine_no_toy_window() {
    assert!(ShaderToy::new(None).is_none());
    let failed = ShaderToyEngine::new(Err(GpuError::LinkError { log: String::new() }));
    assert!(ShaderToy::new(failed).is_none());
}

#[test]
fn a_built_selection_is_painted() {
    let mut toy = default_toy();
    assert!(!toy.needs_rebuild());
    assert_eq!(paint(&mut toy), frame_commands());
    toy.update(ToyMenu::Nothing);
    assert_eq!(paint(&mut toy), frame_commands());
}

#[test]
fn picking_a_toy_asks_for_a_rebuild_once() {
    let mut toy = default_toy();
    assert!(!toy.shown());
    toy.update(ToyMenu::Nothing);
    assert!(toy.shown());
    assert!(!toy.needs_rebuild());
    toy.update(ToyMenu::Seascape);
    assert_eq!(toy.current_toy(), "Ms2SD1");
    assert!(toy.needs_rebuild());

    // The old engine goes before the new program is built.
    let (commands, config) = rebuild(&mut toy);
    assert_eq!(commands, destroy_commands());
    assert!(!toy.needs_rebuild());
    assert!(paint(&mut toy).is_empty());
    assert!(matches!(
        &config.fragment,
        ShaderSource::Toy(path) if path == "assets/shaders/shadertoy/Ms2SD1.stoy"
    ));

    // The new engine is set up, then the frame is painted.
    let created = toy.finish_rebuild(build(config), WIDTH, HEIGHT);
    let mut expected = vec![
        GpuCommand::Create(GpuObject::VertexArray),
        GpuCommand::BindVertexArray(true),
        GpuCommand::Create(GpuObject::Buffer(BufferKind::Vertex)),
        GpuCommand::BindBuffer(BufferKind::Vertex),
        GpuCommand::UploadBuffer(BufferKind::Vertex),
        GpuCommand::AttribPointer { location: 0, components: 3, stride: 0, offset: 0 },
        GpuCommand::EnableAttrib(0),
        GpuCommand::BindVertexArray(false),
        GpuCommand::Create(GpuObject::Framebuffer),
        GpuCommand::Create(GpuObject::Renderbuffer),
    ];
    expected.extend(frame_commands());
    assert_eq!(created, expected);
    assert_eq!(paint(&mut toy), frame_commands());
    toy.update(ToyMenu::Seascape);
    assert!(!toy.needs_rebuild());
    toy.update(ToyMenu::Close);
    assert!(!toy.shown());
}

#[test]
fn every_menu_entry_has_its_key() {
    let mut toy = default_toy();
    for (menu, key) in [
        (ToyMenu::Artificial, "4ljGW1"),
        (ToyMenu::CombustibleVoronoiLayers, "4tlSzl"),
        (ToyMenu::Seascape, "Ms2SD1"),
        (ToyMenu::StarNest, "XlfGRj"),
        (ToyMenu::SunSurface, "XlSSzK"),
    ] {
        toy.update(menu);
        assert_eq!(toy.current_toy(), key);
    }
}

#[test]
fn a_failed_rebuild_leaves_the_slot_empty_and_is_not_retried() {
    let mut toy = default_toy();
    toy.update(ToyMenu::StarNest);
    let (destroy, _) = rebuild(&mut toy);
    assert_eq!(destroy, destroy_commands());
    let created = toy.finish_rebuild(
        Err(GpuError::CompileError {
            stage: ShaderStage::Fragment,
            log: "bad".to_string(),
            file: Some("assets/shaders/shadertoy/XlfGRj.stoy".to_string()),
        }),
        WIDTH,
        HEIGHT,
    );
    assert!(created.is_empty());
    assert!(paint(&mut toy).is_empty());
    assert!(!toy.needs_rebuild());
    assert!(toy.on_exit().is_empty());
    // A new selection on the empty slot has nothing to destroy.
    toy.update(ToyMenu::Artificial);
    let (destroy, config) = rebuild(&mut toy);
    assert!(destroy.is_empty());
    assert!(!toy.finish_rebuild(build(config), WIDTH, HEIGHT).is_empty());
}

#[test]
fn a_second_finish_does_not_replace_a_live_engine() {
    let mut toy = default_toy();
    let again = toy.finish_rebuild(build(ShaderToyEngine::program_config("")), WIDTH, HEIGHT);
    assert!(again.is_empty());
    assert_eq!(toy.on_exit(), destroy_commands());
    assert!(toy.on_exit().is_empty());
}

#[test]
fn reloading_an_engine_destroys_it_before_the_new_program_is_built() {
    let engine = ShaderToyEngine::new(build(ShaderToyEngine::program_config(""))).unwrap();
    let (destroy, config) = engine.reload_shadertoy("4tlSzl");
    assert_eq!(destroy, destroy_commands());
    assert!(matches!(
        &config.fragment,
        ShaderSource::Toy(path) if path == "assets/shaders/shadertoy/4tlSzl.stoy"
    ));
    let reloaded = ShaderToyEngine::compile_shadertoy(build(config)).unwrap();
    assert_eq!(reloaded.texture_width, 0);
    assert_eq!(reloaded.frame(WIDTH, HEIGHT), frame_commands());
}

#[test]
fn the_renderbuffer_takes_whole_pixels_within_the_signed_sizes() {
    let engine = ShaderToyEngine::new(build(ShaderToyEngine::program_config(""))).unwrap();
    let storage = |width: i64, height: i64| match engine.setup_fbo(width, height)[1] {
        GpuCommand::RenderbufferStorage { width, height } => (width, height),
        _ => panic!("no storage"),
    };
    assert_eq!(storage(3 * FIXED_ONE, 3 * FIXED_ONE + 999_999_999), (3, 3));
    assert_eq!(storage(FIXED_ONE - 1, 0), (0, 0));
    assert_eq!(storage(-FIXED_ONE - 1, -FIXED_ONE + 1), (-1, 0));
    assert_eq!(storage(i64::MAX, i64::MIN), (i32::MAX, i32::MIN));
    assert_eq!(
        storage(i64::from(i32::MAX) * FIXED_ONE, i64::from(i32::MIN) * FIXED_ONE),
        (i32::MAX, i32::MIN)
    );
    assert_eq!(
        engine.setup_fbo(WIDTH, HEIGHT),
        vec![
            GpuCommand::BindRenderbuffer(true),
            GpuCommand::RenderbufferStorage { width: 640, height: 480 },
            GpuCommand::BindRenderbuffer(false),
        ]
    );
}

#[test]
fn leaving_the_program_destroys_the_toy_engine_once() {
    let mut log = LogBuffer::new();
    let ui = UIManager::new(&mut log);
    let mut app = KuplungApp::new(ui, None, None, Some(default_toy()), &mut log);
    assert_eq!(app.on_exit(), destroy_commands());
    assert!(app.on_exit().is_empty());
}

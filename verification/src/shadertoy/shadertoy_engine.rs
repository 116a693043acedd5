//! Assembles a complete fragment shader around a ShaderToy `mainImage` snippet.

use vstd::prelude::*;
use vstd::string::StringExecFns;
use crate::rendering::geometry::{
    attribute_fits,
    lemma_geometry_account,
    record_bytes,
    Attribute,
    GeometryBuffer,
    GeometryView,
    MINUS_ONE,
    ONE,
    ZERO,
};
use crate::rendering::gl_utils::{GpuError, UniformHandle, UniformPolicy};
use crate::rendering::gpu::{
    apply,
    lemma_run_concat,
    lemma_run_short,
    run,
    GpuCommand,
    GpuModel,
    GpuObject,
    UniformValue,
    FIXED_ONE,
};
use crate::rendering::program::{
    built_handles,
    lemma_drawable_lifecycle,
    lemma_paint_keeps_model,
    paint_commands,
    Drawable,
    DrawableView,
    ProgramConfig,
    ProgramConfigView,
    ShaderProgram,
    ShaderSource,
    ShaderSourceView,
    UniformSpecView,
};
use crate::utils::file_io::{stoy_asset_path, stoy_path};

verus! {

/// The uniform block every toy sees, with the legacy sampling names mapped to `texture`.
pub const TOY_DECLARATIONS: &'static str = r#"#version 410 core

out vec4 outFragmentColor;
uniform vec3 iResolution;
uniform float iGlobalTime;
uniform float iTimeDelta;
uniform int iFrame;
uniform int iFrameRate;
uniform float iChannelTime[4];
uniform vec3 iChannelResolution[4];
uniform vec4 iMouse;
uniform vec4 iDate;

uniform sampler2D iChannel0;
//uniform samplerCube iChannel0;
uniform sampler2D iChannel1;
//uniform samplerCube iChannel1;
uniform sampler2D iChannel2;
//uniform samplerCube iChannel2;
uniform sampler2D iChannel3;
//uniform samplerCube iChannel3;

#define texture2D texture
#define textureCube texture
"#;

/// The `mainImage` used when no snippet is given: a UV gradient that pulses with time.
pub const DEFAULT_MAIN_IMAGE: &'static str = r#"
void mainImage(out vec4 fragColor, in vec2 fragCoord) {
   vec2 uv = fragCoord.xy / iResolution.xy;
   fragColor = vec4(uv, 0.5 + 0.5 * sin(iGlobalTime), 1.0);
}
"#;

/// Keeps every declared uniform referenced, then forwards `main` to `mainImage`.
pub const TOY_TRAMPOLINE: &'static str = r#"
void glslOptimizerFix() {
  float f = iTimeDelta * iChannelTime[0] * iChannelTime[1] * iChannelTime[2] * iChannelTime[3];
  vec3 v3 = iChannelResolution[0] * iChannelResolution[1] * iChannelResolution[2] * iChannelResolution[3];
  int i = iFrame * iFrameRate;
  vec4 v4 = iMouse * iDate;

  vec2 s1 = texture2D(iChannel0,vec2(0,0)).xy;
  vec2 s2 = texture2D(iChannel1,vec2(0,0)).xy;
  vec2 s3 = texture2D(iChannel2,vec2(0,0)).xy;
  vec2 s4 = texture2D(iChannel3,vec2(0,0)).xy;
}

void main() {
    glslOptimizerFix();
    vec4 color = vec4(0.0, 0.0, 0.0, 1.0);
    mainImage(color, gl_FragCoord.xy);
    outFragmentColor = color;
}
"#;

/// The body spliced between declarations and trampoline: the snippet as given,
/// or the default `mainImage` where there is none or it is empty.
pub open spec fn toy_body(snippet: Option<Seq<char>>) -> Seq<char> {
    match snippet {
        Some(text) => if text.len() == 0 {
            DEFAULT_MAIN_IMAGE@
        } else {
            text
        },
        None => DEFAULT_MAIN_IMAGE@,
    }
}

/// The complete fragment shader for a snippet.
pub open spec fn assembled_source(snippet: Option<Seq<char>>) -> Seq<char> {
    TOY_DECLARATIONS@ + toy_body(snippet) + TOY_TRAMPOLINE@
}

/// The view of an optional snippet.
pub open spec fn snippet_view(snippet: Option<String>) -> Option<Seq<char>> {
    match snippet {
        Some(text) => Some(text@),
        None => None,
    }
}

pub const SHADERTOY_VERTEX_SHADER: &'static str = "assets/shaders/shadertoy/shadertoy.vert";

/// The number of uniforms the ShaderToy program exposes.
pub const SHADERTOY_UNIFORMS: usize = 9;

/// Two triangles that cover the whole viewport, three floats per vertex.
pub open spec fn screen_vertices() -> Seq<u32> {
    seq![
        MINUS_ONE, MINUS_ONE, ZERO,
        ONE, MINUS_ONE, ZERO,
        ONE, ONE, ZERO,
        ONE, ONE, ZERO,
        MINUS_ONE, ONE, ZERO,
        MINUS_ONE, MINUS_ONE, ZERO,
    ]
}

/// The viewport-covering triangles with positions at attribute location 0,
/// drawn without indices.
pub open spec fn screen_view() -> GeometryView {
    GeometryView {
        vertices: screen_vertices(),
        indices: None,
        layout: seq![Attribute { location: 0, components: 3, stride: 0, offset: 0 }],
    }
}

/// The screen's data and layout agree: six vertices of twelve bytes each.
pub proof fn lemma_screen_is_consistent()
    ensures
        screen_view().consistent(),
        screen_view().vertex_count() == 6,
        screen_view().draw() == (GpuCommand::DrawArrays { first: 0, count: 6 }),
{
    let screen = screen_view();
    assert(screen.layout.len() == 1);
    assert(screen.layout[0] == Attribute { location: 0, components: 3, stride: 0, offset: 0 });
    assert(record_bytes(screen.layout[0]) == 12);
    assert(attribute_fits(screen.layout[0]));
    assert(screen.vertices.len() == 18);
    assert(screen.vertex_count() == 6);
}

/// The geometry every toy is drawn on.
pub fn screen() -> (geometry: GeometryBuffer)
    ensures
        geometry@ == screen_view(),
{
    let vertices: Vec<u32> = vec![
        MINUS_ONE, MINUS_ONE, ZERO,
        ONE, MINUS_ONE, ZERO,
        ONE, ONE, ZERO,
        ONE, ONE, ZERO,
        MINUS_ONE, ONE, ZERO,
        MINUS_ONE, MINUS_ONE, ZERO,
    ];
    let layout: Vec<Attribute> = vec![Attribute { location: 0, components: 3, stride: 0, offset: 0 }];
    assert(vertices@ =~= screen_vertices());
    assert(layout@ =~= screen_view().layout);
    proof {
        lemma_screen_is_consistent();
    }
    GeometryBuffer::create(vertices, None, layout).unwrap()
}

/// The uniforms of the ShaderToy program, those written every frame first.
/// A toy may leave any of them unused, so all are resolved permissively.
pub open spec fn toy_uniforms() -> Seq<UniformSpecView> {
    seq![
        UniformSpecView { name: "vs_screenResolution"@, policy: UniformPolicy::Permissive },
        UniformSpecView { name: "iResolution"@, policy: UniformPolicy::Permissive },
        UniformSpecView { name: "iGlobalTime"@, policy: UniformPolicy::Permissive },
        UniformSpecView { name: "iTimeDelta"@, policy: UniformPolicy::Permissive },
        UniformSpecView { name: "vs_inFBO"@, policy: UniformPolicy::Permissive },
        UniformSpecView { name: "iFrameRate"@, policy: UniformPolicy::Permissive },
        UniformSpecView { name: "iFrame"@, policy: UniformPolicy::Permissive },
        UniformSpecView { name: "iMouse"@, policy: UniformPolicy::Permissive },
        UniformSpecView { name: "iDate"@, policy: UniformPolicy::Permissive },
    ]
}

/// The ShaderToy program for the toy `stoy`: the fixed vertex shader, and
/// as fragment shader the default source where `stoy` is empty, otherwise
/// the toy's snippet file wrapped into a complete shader.
pub open spec fn toy_config(stoy: Seq<char>) -> ProgramConfigView {
    ProgramConfigView {
        vertex: ShaderSourceView::File(SHADERTOY_VERTEX_SHADER@),
        fragment: if stoy.len() == 0 {
            ShaderSourceView::Inline(assembled_source(None))
        } else {
            ShaderSourceView::Toy(stoy_path(stoy))
        },
        uniforms: toy_uniforms(),
    }
}

/// The values of one frame: the viewport size for the vertex stage, the
/// resolution with a pixel aspect of one, and the two clocks held at one.
pub open spec fn toy_values(screen_width: i64, screen_height: i64) -> Seq<UniformValue> {
    seq![
        UniformValue::Pair(screen_width, screen_height),
        UniformValue::Triple(screen_width, screen_height, FIXED_ONE),
        UniformValue::Scalar(FIXED_ONE),
        UniformValue::Scalar(FIXED_ONE),
    ]
}

/// The whole pixels in a fixed-point size, the fraction dropped.
pub open spec fn whole_pixels(size: int) -> int {
    if size >= 0 {
        size / (FIXED_ONE as int)
    } else {
        -((-size) / (FIXED_ONE as int))
    }
}

/// A fixed-point size as the API's signed 32-bit size: its whole pixels,
/// kept at the end of the 32-bit range where they would leave it.
pub open spec fn signed_size(size: i64) -> i32 {
    if whole_pixels(size as int) > i32::MAX {
        i32::MAX
    } else if whole_pixels(size as int) < i32::MIN {
        i32::MIN
    } else {
        whole_pixels(size as int) as i32
    }
}

/// Size the depth renderbuffer to the viewport.
pub open spec fn fbo_commands(screen_width: i64, screen_height: i64) -> Seq<GpuCommand> {
    seq![
        GpuCommand::BindRenderbuffer(true),
        GpuCommand::RenderbufferStorage {
            width: signed_size(screen_width),
            height: signed_size(screen_height),
        },
        GpuCommand::BindRenderbuffer(false),
    ]
}

/// The engine's off-screen targets.
pub open spec fn target_commands() -> Seq<GpuCommand> {
    seq![GpuCommand::Create(GpuObject::Framebuffer), GpuCommand::Create(GpuObject::Renderbuffer)]
}

fn to_signed_size(size: i64) -> (whole: i32)
    ensures
        whole == signed_size(size),
{
    let pixels: i64 = if size >= 0 {
        size / FIXED_ONE
    } else if size == i64::MIN {
        -(i64::MAX / FIXED_ONE)
    } else {
        -((-size) / FIXED_ONE)
    };
    if pixels > 0x7FFF_FFFF {
        0x7FFF_FFFF
    } else if pixels < -0x8000_0000 {
        -0x8000_0000
    } else {
        pixels as i32
    }
}

pub struct ShaderToyEngine {
    pub i_channel0_image: String,
    pub i_channel1_image: String,
    pub i_channel2_image: String,
    pub i_channel3_image: String,
    pub i_channel0_cube_image: String,
    pub i_channel1_cube_image: String,
    pub i_channel2_cube_image: String,
    pub i_channel3_cube_image: String,
    pub texture_width: i32,
    pub texture_height: i32,
    drawable: Drawable,
}

/// The engine as plain values: the four channel images, the four cube
/// images, the texture size, and what it draws.
pub struct EngineView {
    pub images: Seq<Seq<char>>,
    pub cube_images: Seq<Seq<char>>,
    pub texture_width: i32,
    pub texture_height: i32,
    pub drawable: DrawableView,
}

impl EngineView {
    /// A fresh engine around resolved `handles`: no channel image, no texture.
    pub open spec fn fresh(handles: Seq<UniformHandle>) -> EngineView {
        EngineView {
            images: seq![Seq::empty(), Seq::empty(), Seq::empty(), Seq::empty()],
            cube_images: seq![Seq::empty(), Seq::empty(), Seq::empty(), Seq::empty()],
            texture_width: 0,
            texture_height: 0,
            drawable: DrawableView { handles, geometry: screen_view() },
        }
    }

    /// Put the geometry on the GPU, then create the off-screen targets.
    pub open spec fn create_commands(self) -> Seq<GpuCommand> {
        self.drawable.geometry.create_commands() + target_commands()
    }

    /// Release the program and the geometry, then the off-screen targets.
    pub open spec fn destroy_commands(self) -> Seq<GpuCommand> {
        self.drawable.destroy_commands() + seq![
            GpuCommand::Delete(GpuObject::Framebuffer),
            GpuCommand::Delete(GpuObject::Renderbuffer),
        ]
    }

    /// One frame: size the renderbuffer to the viewport, then paint.
    pub open spec fn frame_commands(self, screen_width: i64, screen_height: i64) -> Seq<
        GpuCommand,
    > {
        fbo_commands(screen_width, screen_height) + paint_commands(
            self.drawable.handles,
            toy_values(screen_width, screen_height),
            self.drawable.geometry.draw(),
        )
    }

    /// The objects of the live engine: the program, the geometry and the
    /// off-screen targets.
    pub open spec fn model(self) -> GpuModel {
        GpuModel {
            live: self.drawable.model().live.insert(GpuObject::Framebuffer).insert(
                GpuObject::Renderbuffer,
            ),
            attached: Set::empty(),
        }
    }
}

impl View for ShaderToyEngine {
    type V = EngineView;

    closed spec fn view(&self) -> EngineView {
        EngineView {
            images: seq![
                self.i_channel0_image@,
                self.i_channel1_image@,
                self.i_channel2_image@,
                self.i_channel3_image@,
            ],
            cube_images: seq![
                self.i_channel0_cube_image@,
                self.i_channel1_cube_image@,
                self.i_channel2_cube_image@,
                self.i_channel3_cube_image@,
            ],
            texture_width: self.texture_width,
            texture_height: self.texture_height,
            drawable: self.drawable@,
        }
    }
}

impl ShaderToyEngine {
    /// Wraps `user_snippet` into a complete fragment shader.
    pub fn get_stoy(user_snippet: Option<String>) -> (source: String)
        ensures
            source@ == assembled_source(snippet_view(user_snippet)),
    {
        let mut source = String::from_str(TOY_DECLARATIONS);
        match user_snippet {
            Some(text) => {
                if text.as_str().is_empty() {
                    source.append(DEFAULT_MAIN_IMAGE);
                } else {
                    source.append(text.as_str());
                }
            },
            None => {
                source.append(DEFAULT_MAIN_IMAGE);
            },
        }
        source.append(TOY_TRAMPOLINE);
        source
    }

    /// What to build the program of the toy `stoy` from; the empty key
    /// stands for the default toy. No uniform is required.
    pub fn program_config(stoy: &str) -> (config: ProgramConfig)
        ensures
            config@ == toy_config(stoy@),
            config@.within_contract(),
            forall|i: int|
                0 <= i < config@.uniforms.len() ==> (#[trigger] config@.uniforms[i]).policy
                    is Permissive,
    {
        let fragment = if stoy.is_empty() {
            ShaderSource::Inline(Self::get_stoy(None))
        } else {
            ShaderSource::Toy(stoy_asset_path(stoy))
        };
        let mut config = ProgramConfig::new(
            ShaderSource::File(String::from_str(SHADERTOY_VERTEX_SHADER)),
            fragment,
        );
        config.expose_permissive("vs_screenResolution");
        config.expose_permissive("iResolution");
        config.expose_permissive("iGlobalTime");
        config.expose_permissive("iTimeDelta");
        config.expose_permissive("vs_inFBO");
        config.expose_permissive("iFrameRate");
        config.expose_permissive("iFrame");
        config.expose_permissive("iMouse");
        config.expose_permissive("iDate");
        assert(config@.uniforms =~= toy_uniforms());
        config
    }

    /// The engine around a finished build of the default toy.
    pub fn new(built: Result<ShaderProgram, GpuError>) -> (engine: Option<ShaderToyEngine>)
        ensures
            engine is Some <==> (built_handles(built) matches Some(handles) && handles.len()
                == SHADERTOY_UNIFORMS),
            engine matches Some(e) ==> e@ == EngineView::fresh(built_handles(built).unwrap()),
    {
        Self::compile_shadertoy(built)
    }

    /// The engine around a finished build: there is one exactly where the
    /// build succeeded and resolved the engine's uniforms. It starts
    /// without channel images.
    pub fn compile_shadertoy(built: Result<ShaderProgram, GpuError>) -> (engine: Option<
        ShaderToyEngine,
    >)
        ensures
            engine is Some <==> (built_handles(built) matches Some(handles) && handles.len()
                == SHADERTOY_UNIFORMS),
            engine matches Some(e) ==> e@ == EngineView::fresh(built_handles(built).unwrap()),
    {
        match built {
            Ok(program) => {
                if program.handles().len() == SHADERTOY_UNIFORMS {
                    Some(
                        ShaderToyEngine {
                            i_channel0_image: String::new(),
                            i_channel1_image: String::new(),
                            i_channel2_image: String::new(),
                            i_channel3_image: String::new(),
                            i_channel0_cube_image: String::new(),
                            i_channel1_cube_image: String::new(),
                            i_channel2_cube_image: String::new(),
                            i_channel3_cube_image: String::new(),
                            texture_width: 0,
                            texture_height: 0,
                            drawable: Drawable::new(program, screen()),
                        },
                    )
                } else {
                    None
                }
            },
            Err(_) => None,
        }
    }

    /// Gives this engine up for the engine of the toy `stoy`: returns the
    /// commands that destroy it and what to build the new program from.
    /// The old program is gone before the new one is built: replayed on the
    /// objects of this engine, the commands leave nothing on the GPU, and
    /// the engine itself is used up.
    pub fn reload_shadertoy(self, stoy: &str) -> (plan: (Vec<GpuCommand>, ProgramConfig))
        ensures
            plan.0@ == self@.destroy_commands(),
            run(plan.0@, self@.model()) == Some(GpuModel::empty()),
            plan.1@ == toy_config(stoy@),
            plan.1@.within_contract(),
    {
        proof {
            lemma_engine_lifecycle(self@, 0, 0);
        }
        let destroy = self.destroy();
        (destroy, Self::program_config(stoy))
    }

    pub fn drawable(&self) -> (drawable: &Drawable)
        ensures
            drawable@ == self@.drawable,
    {
        &self.drawable
    }

    /// The commands that put the screen and the off-screen targets on the
    /// GPU, to replay once after the engine was made.
    pub fn create_commands(&self) -> (commands: Vec<GpuCommand>)
        ensures
            commands@ == self@.create_commands(),
    {
        let mut commands = self.drawable.create_commands();
        commands.push(GpuCommand::Create(GpuObject::Framebuffer));
        commands.push(GpuCommand::Create(GpuObject::Renderbuffer));
        assert(commands@ =~= self@.create_commands());
        commands
    }

    /// The commands that size the depth renderbuffer to a viewport of the
    /// given fixed-point width and height.
    pub fn setup_fbo(&self, screen_width: i64, screen_height: i64) -> (commands: Vec<GpuCommand>)
        ensures
            commands@ == fbo_commands(screen_width, screen_height),
    {
        let commands: Vec<GpuCommand> = vec![
            GpuCommand::BindRenderbuffer(true),
            GpuCommand::RenderbufferStorage {
                width: to_signed_size(screen_width),
                height: to_signed_size(screen_height),
            },
            GpuCommand::BindRenderbuffer(false),
        ];
        assert(commands@ =~= fbo_commands(screen_width, screen_height));
        commands
    }

    /// One frame of the toy on a viewport of the given fixed-point width
    /// and height.
    pub fn paint(&self, screen_width: i64, screen_height: i64) -> (commands: Vec<GpuCommand>)
        ensures
            commands@ == paint_commands(
                self@.drawable.handles,
                toy_values(screen_width, screen_height),
                self@.drawable.geometry.draw(),
            ),
    {
        let values: Vec<UniformValue> = vec![
            UniformValue::Pair(screen_width, screen_height),
            UniformValue::Triple(screen_width, screen_height, FIXED_ONE),
            UniformValue::Scalar(FIXED_ONE),
            UniformValue::Scalar(FIXED_ONE),
        ];
        assert(values@ =~= toy_values(screen_width, screen_height));
        self.drawable.paint(&values)
    }

    /// The commands that release everything the engine owns: the program,
    /// the screen, and the off-screen targets.
    pub fn destroy(&self) -> (commands: Vec<GpuCommand>)
        ensures
            commands@ == self@.destroy_commands(),
    {
        let mut commands = self.drawable.destroy();
        commands.push(GpuCommand::Delete(GpuObject::Framebuffer));
        commands.push(GpuCommand::Delete(GpuObject::Renderbuffer));
        assert(commands@ =~= self@.destroy_commands());
        commands
    }

    /// One frame of the toy: size the renderbuffer to the viewport, then
    /// paint.
    pub fn frame(&self, screen_width: i64, screen_height: i64) -> (commands: Vec<GpuCommand>)
        ensures
            commands@ == self@.frame_commands(screen_width, screen_height),
    {
        let mut commands = self.setup_fbo(screen_width, screen_height);
        let mut paint = self.paint(screen_width, screen_height);
        commands.append(&mut paint);
        commands
    }
}

/// The life of an engine keeps the account. From a program that was just
/// built, creation adds the geometry and the targets; sizing the
/// renderbuffer and painting leave the objects as they are; destroying
/// releases them all, targets included, so that nothing is left on the GPU.
pub proof fn lemma_engine_lifecycle(engine: EngineView, width: i64, height: i64)
    ensures
        run(
            engine.create_commands(),
            crate::rendering::program::phase_model(crate::rendering::program::BuildPhase::Ready),
        ) == Some(engine.model()),
        run(fbo_commands(width, height), engine.model()) == Some(engine.model()),
        run(
            paint_commands(
                engine.drawable.handles,
                toy_values(width, height),
                engine.drawable.geometry.draw(),
            ),
            engine.model(),
        ) == Some(engine.model()),
        run(engine.frame_commands(width, height), engine.model()) == Some(engine.model()),
        run(engine.destroy_commands(), engine.model()) == Some(GpuModel::empty()),
{
    let drawable = engine.drawable;
    let geometry = drawable.geometry;
    let handles = drawable.handles;
    let model = engine.model();
    let ready = crate::rendering::program::phase_model(
        crate::rendering::program::BuildPhase::Ready,
    );
    let frame = GpuCommand::Create(GpuObject::Framebuffer);
    let render = GpuCommand::Create(GpuObject::Renderbuffer);
    let drop_frame = GpuCommand::Delete(GpuObject::Framebuffer);
    let drop_render = GpuCommand::Delete(GpuObject::Renderbuffer);
    lemma_drawable_lifecycle(drawable, toy_values(width, height));

    // Creation: the drawable's objects, then the two targets.
    let plain = drawable.model();
    lemma_run_short(frame, render, frame, frame, frame, plain);
    assert(apply(render, apply(frame, plain).unwrap()).unwrap() =~= model);
    lemma_run_concat(geometry.create_commands(), target_commands(), ready);

    // Sizing and painting touch nothing.
    lemma_run_short(
        GpuCommand::BindRenderbuffer(true),
        GpuCommand::RenderbufferStorage { width: signed_size(width), height: signed_size(height) },
        GpuCommand::BindRenderbuffer(false),
        frame,
        frame,
        model,
    );
    lemma_paint_keeps_model(handles, toy_values(width, height), geometry.draw(), model);
    lemma_run_concat(
        fbo_commands(width, height),
        paint_commands(handles, toy_values(width, height), geometry.draw()),
        model,
    );

    // Destruction: first what the drawable owns, seen with the targets
    // still present, then the targets.
    let targets = GpuModel {
        live: set![GpuObject::Framebuffer, GpuObject::Renderbuffer],
        attached: Set::empty(),
    };
    let delete = GpuCommand::Delete(GpuObject::Program);
    let no_program = GpuModel {
        live: targets.live.union(geometry.objects()),
        attached: Set::empty(),
    };
    lemma_run_short(delete, delete, delete, delete, delete, model);
    assert(apply(delete, model).unwrap() =~= no_program);
    lemma_geometry_account(geometry, targets);
    lemma_run_concat(seq![delete], geometry.destroy_commands(), model);
    lemma_run_short(drop_frame, drop_render, frame, frame, frame, targets);
    assert(apply(drop_render, apply(drop_frame, targets).unwrap()).unwrap() =~= GpuModel::empty());
    lemma_run_concat(drawable.destroy_commands(), seq![drop_frame, drop_render], model);
}

/// No snippet and an empty snippet assemble to the same shader, and the
/// assembled text depends on nothing but the snippet.
pub proof fn lemma_default_source_is_fixed(first: Option<Seq<char>>, second: Option<Seq<char>>)
    requires
        first is None || first == Some(Seq::<char>::empty()),
        second is None || second == Some(Seq::<char>::empty()),
    ensures
        assembled_source(first) == assembled_source(second),
        assembled_source(first) == TOY_DECLARATIONS@ + DEFAULT_MAIN_IMAGE@ + TOY_TRAMPOLINE@,
{
}

/// A snippet is spliced in verbatim: it sits in the assembled text right
/// after the declarations and right before the trampoline.
pub proof fn lemma_snippet_is_verbatim(snippet: Seq<char>)
    requires
        snippet.len() > 0,
    ensures
        assembled_source(Some(snippet)).len() == TOY_DECLARATIONS@.len() + snippet.len()
            + TOY_TRAMPOLINE@.len(),
        assembled_source(Some(snippet)).subrange(
            TOY_DECLARATIONS@.len() as int,
            (TOY_DECLARATIONS@.len() + snippet.len()) as int,
        ) == snippet,
        assembled_source(Some(snippet)).subrange(0, TOY_DECLARATIONS@.len() as int)
            == TOY_DECLARATIONS@,
        assembled_source(Some(snippet)).subrange(
            (TOY_DECLARATIONS@.len() + snippet.len()) as int,
            assembled_source(Some(snippet)).len() as int,
        ) == TOY_TRAMPOLINE@,
{
    let whole = assembled_source(Some(snippet));
    let start = TOY_DECLARATIONS@.len() as int;
    assert(whole.subrange(start, start + snippet.len()) =~= snippet);
    assert(whole.subrange(0, start) =~= TOY_DECLARATIONS@);
    assert(whole.subrange(start + snippet.len(), whole.len() as int) =~= TOY_TRAMPOLINE@);
}

} // verus!

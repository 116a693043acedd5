//! The Mandelbrot explorer: its shaders, its quad and its per-frame uniforms.

use vstd::prelude::*;
use vstd::string::StringExecFns;
use crate::fractals::fractals_manager::ZoomSnapshot;
use crate::rendering::geometry::{
    attribute_fits,
    record_bytes,
    Attribute,
    GeometryBuffer,
    GeometryView,
    MINUS_ONE,
    ONE,
    ZERO,
};
use crate::rendering::gl_utils::{GpuError, UniformPolicy};
use crate::rendering::gpu::{GpuCommand, UniformValue};
use crate::rendering::program::{
    built_handles,
    paint_commands,
    Drawable,
    DrawableView,
    ProgramConfig,
    ProgramConfigView,
    ShaderProgram,
    ShaderSource,
    ShaderSourceView,
    UniformSpecView,
};

verus! {

pub const MANDELBROT_VERTEX_SHADER: &'static str = "assets/shaders/fractals/mandelbrot.vert";

pub const MANDELBROT_FRAGMENT_SHADER: &'static str = "assets/shaders/fractals/mandelbrot.frag";

/// The number of uniforms the Mandelbrot program exposes.
pub const MANDELBROT_UNIFORMS: usize = 8;

/// The corners of a quad that covers the whole viewport, three floats each:
/// top right, bottom right, bottom left, top left.
pub open spec fn quad_vertices() -> Seq<u32> {
    seq![
        ONE, ONE, ZERO,
        ONE, MINUS_ONE, ZERO,
        MINUS_ONE, MINUS_ONE, ZERO,
        MINUS_ONE, ONE, ZERO,
    ]
}

/// The two triangles of the quad.
pub open spec fn quad_indices() -> Seq<u32> {
    seq![0, 1, 3, 1, 2, 3]
}

/// A full-viewport quad with positions at attribute location 0.
pub open spec fn quad_view() -> GeometryView {
    GeometryView {
        vertices: quad_vertices(),
        indices: Some(quad_indices()),
        layout: seq![Attribute { location: 0, components: 3, stride: 0, offset: 0 }],
    }
}

/// The quad's data and layout agree: four vertices of twelve bytes each,
/// and every index names one of them.
pub proof fn lemma_quad_is_consistent()
    ensures
        quad_view().consistent(),
        quad_view().vertex_count() == 4,
        quad_view().draw() == (GpuCommand::DrawElements { count: 6 }),
{
    let quad = quad_view();
    assert(quad.layout.len() == 1);
    assert(quad.layout[0] == Attribute { location: 0, components: 3, stride: 0, offset: 0 });
    assert(record_bytes(quad.layout[0]) == 12);
    assert(attribute_fits(quad.layout[0]));
    assert(quad.vertices.len() == 12);
    assert(quad.vertex_count() == 4);
    let indices = quad_indices();
    assert(indices.len() == 6);
    assert(indices[0] == 0 && indices[1] == 1 && indices[2] == 3 && indices[3] == 1 && indices[4]
        == 2 && indices[5] == 3);
}

/// The full-viewport quad that both fractals are drawn on.
pub fn quad() -> (geometry: GeometryBuffer)
    ensures
        geometry@ == quad_view(),
{
    let vertices: Vec<u32> = vec![
        ONE, ONE, ZERO,
        ONE, MINUS_ONE, ZERO,
        MINUS_ONE, MINUS_ONE, ZERO,
        MINUS_ONE, ONE, ZERO,
    ];
    let indices: Vec<u32> = vec![0, 1, 3, 1, 2, 3];
    let layout: Vec<Attribute> = vec![Attribute { location: 0, components: 3, stride: 0, offset: 0 }];
    assert(vertices@ =~= quad_vertices());
    assert(indices@ =~= quad_indices());
    assert(layout@ =~= quad_view().layout);
    proof {
        lemma_quad_is_consistent();
    }
    GeometryBuffer::create(vertices, Some(indices), layout).unwrap()
}

/// The Mandelbrot program: its two shader files and the per-frame uniforms,
/// every one of them required.
pub open spec fn mandelbrot_config() -> ProgramConfigView {
    ProgramConfigView {
        vertex: ShaderSourceView::File(MANDELBROT_VERTEX_SHADER@),
        fragment: ShaderSourceView::File(MANDELBROT_FRAGMENT_SHADER@),
        uniforms: seq![
            UniformSpecView { name: "u_window_width"@, policy: UniformPolicy::Strict },
            UniformSpecView { name: "u_window_height"@, policy: UniformPolicy::Strict },
            UniformSpecView { name: "u_iterations"@, policy: UniformPolicy::Strict },
            UniformSpecView { name: "u_zoom_iterations"@, policy: UniformPolicy::Strict },
            UniformSpecView { name: "u_black_and_white"@, policy: UniformPolicy::Strict },
            UniformSpecView { name: "u_color_palette"@, policy: UniformPolicy::Strict },
            UniformSpecView { name: "u_zoomCenter"@, policy: UniformPolicy::Strict },
            UniformSpecView { name: "u_zoomSize"@, policy: UniformPolicy::Strict },
        ],
    }
}

/// The values of one frame, in the order of `mandelbrot_config`.
pub open spec fn mandelbrot_values(
    option_iterations: i32,
    option_blackandwhite: bool,
    option_colorpalette: i32,
    screen_width: i64,
    screen_height: i64,
    zoom: ZoomSnapshot,
) -> Seq<UniformValue> {
    seq![
        UniformValue::Scalar(screen_width),
        UniformValue::Scalar(screen_height),
        UniformValue::Int(option_iterations),
        UniformValue::Int(zoom.iterations),
        UniformValue::Int(
            if option_blackandwhite {
                1i32
            } else {
                0i32
            },
        ),
        UniformValue::Int(option_colorpalette),
        UniformValue::Pair(zoom.center_x, zoom.center_y),
        UniformValue::Scalar(zoom.size),
    ]
}

/// The display name of a colour palette.
pub open spec fn palette_name(idx: int) -> Seq<char> {
    if idx == 0 {
        "Normal"@
    } else {
        "Grainy"@
    }
}

/// The number of colour palettes.
pub const PALETTE_COUNT: usize = 2;

/// The display name of the colour palette with this index.
pub fn get_mcp(idx: usize) -> (name: String)
    requires
        idx < PALETTE_COUNT,
    ensures
        name@ == palette_name(idx as int),
{
    if idx == 0 {
        String::from_str("Normal")
    } else {
        String::from_str("Grainy")
    }
}

pub struct Mandelbrot {
    pub option_iterations: i32,
    pub option_blackandwhite: bool,
    pub option_colorpalette: i32,
    drawable: Drawable,
}

pub struct MandelbrotView {
    pub option_iterations: i32,
    pub option_blackandwhite: bool,
    pub option_colorpalette: i32,
    pub drawable: DrawableView,
}

impl View for Mandelbrot {
    type V = MandelbrotView;

    closed spec fn view(&self) -> MandelbrotView {
        MandelbrotView {
            option_iterations: self.option_iterations,
            option_blackandwhite: self.option_blackandwhite,
            option_colorpalette: self.option_colorpalette,
            drawable: self.drawable@,
        }
    }
}

impl Mandelbrot {
    /// What to build the Mandelbrot program from.
    pub fn program_config() -> (config: ProgramConfig)
        ensures
            config@ == mandelbrot_config(),
            config@.within_contract(),
    {
        let mut config = ProgramConfig::new(
            ShaderSource::File(String::from_str(MANDELBROT_VERTEX_SHADER)),
            ShaderSource::File(String::from_str(MANDELBROT_FRAGMENT_SHADER)),
        );
        config.expose_strict("u_window_width");
        config.expose_strict("u_window_height");
        config.expose_strict("u_iterations");
        config.expose_strict("u_zoom_iterations");
        config.expose_strict("u_black_and_white");
        config.expose_strict("u_color_palette");
        config.expose_strict("u_zoomCenter");
        config.expose_strict("u_zoomSize");
        assert(config@.uniforms =~= mandelbrot_config().uniforms);
        config
    }

    /// The explorer around a finished build: there is one exactly where the
    /// build succeeded and resolved the explorer's uniforms. It starts with
    /// 500 iterations, in colour, on the first palette.
    pub fn new(built: Result<ShaderProgram, GpuError>) -> (explorer: Option<Mandelbrot>)
        ensures
            explorer is Some <==> (built_handles(built) matches Some(handles) && handles.len()
                == MANDELBROT_UNIFORMS),
            explorer matches Some(m) ==> m@ == (MandelbrotView {
                option_iterations: 500,
                option_blackandwhite: false,
                option_colorpalette: 0,
                drawable: DrawableView { handles: built_handles(built).unwrap(), geometry: quad_view() },
            }),
    {
        match built {
            Ok(program) => {
                if program.handles().len() == MANDELBROT_UNIFORMS {
                    Some(
                        Mandelbrot {
                            option_iterations: 500,
                            option_blackandwhite: false,
                            option_colorpalette: 0,
                            drawable: Drawable::new(program, quad()),
                        },
                    )
                } else {
                    None
                }
            },
            Err(_) => None,
        }
    }

    /// The commands that put the quad on the GPU, to replay once after `new`.
    pub fn create_commands(&self) -> (commands: Vec<GpuCommand>)
        ensures
            commands@ == self@.drawable.geometry.create_commands(),
    {
        self.drawable.create_commands()
    }

    pub fn drawable(&self) -> (drawable: &Drawable)
        ensures
            drawable@ == self@.drawable,
    {
        &self.drawable
    }

    /// One frame of the explorer on a viewport of the given fixed-point
    /// width and height.
    pub fn paint(&self, screen_width: i64, screen_height: i64, zoom: ZoomSnapshot) -> (commands: Vec<
        GpuCommand,
    >)
        ensures
            commands@ == paint_commands(
                self@.drawable.handles,
                mandelbrot_values(
                    self@.option_iterations,
                    self@.option_blackandwhite,
                    self@.option_colorpalette,
                    screen_width,
                    screen_height,
                    zoom,
                ),
                self@.drawable.geometry.draw(),
            ),
    {
        let values: Vec<UniformValue> = vec![
            UniformValue::Scalar(screen_width),
            UniformValue::Scalar(screen_height),
            UniformValue::Int(self.option_iterations),
            UniformValue::Int(zoom.iterations),
            UniformValue::Int(if self.option_blackandwhite { 1 } else { 0 }),
            UniformValue::Int(self.option_colorpalette),
            UniformValue::Pair(zoom.center_x, zoom.center_y),
            UniformValue::Scalar(zoom.size),
        ];
        assert(values@ =~= mandelbrot_values(
            self@.option_iterations,
            self@.option_blackandwhite,
            self@.option_colorpalette,
            screen_width,
            screen_height,
            zoom,
        ));
        self.drawable.paint(&values)
    }

    /// The commands that release the program, the quad and its buffers.
    pub fn destroy(&self) -> (commands: Vec<GpuCommand>)
        ensures
            commands@ == self@.drawable.destroy_commands(),
    {
        self.drawable.destroy()
    }
}

} // verus!

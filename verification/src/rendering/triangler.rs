//! The rotating triangle of the viewer: its shaders, its geometry and its frame.

use vstd::prelude::*;
use vstd::string::StringExecFns;
use crate::rendering::geometry::{
    attribute_fits,
    record_bytes,
    Attribute,
    GeometryBuffer,
    GeometryView,
    MINUS_HALF,
    MINUS_ONE,
    ONE,
    ZERO,
};
use crate::rendering::gl_utils::{GpuError, UniformPolicy};
use crate::rendering::gpu::{GpuCommand, UniformValue};
use crate::rendering::program::{
    built_handles,
    paint_commands,
    Drawable,
    DrawableView,
    ProgramConfig,
    ProgramConfigView,
    ShaderProgram,
    ShaderSource,
    ShaderSourceView,
    UniformSpecView,
};
use crate::settings::configuration;

verus! {

pub const TRIANGLER_VERTEX_SHADER: &'static str = "assets/shaders/viewer/triangle.vert";

pub const TRIANGLER_FRAGMENT_SHADER: &'static str = "assets/shaders/viewer/triangle.frag";

/// The number of uniforms the triangle program exposes.
pub const TRIANGLER_UNIFORMS: usize = 1;

/// Three vertices of six floats each: a position, then a colour.
pub open spec fn triangle_vertices() -> Seq<u32> {
    seq![
        ZERO, ONE, ZERO, ONE, ZERO, ZERO,
        ONE, MINUS_HALF, ZERO, ZERO, ONE, ZERO,
        MINUS_ONE, MINUS_HALF, ZERO, ZERO, ZERO, ONE,
    ]
}

/// The triangle: positions at location 0, colours at location 1, both
/// interleaved in records of 24 bytes.
pub open spec fn triangle_view() -> GeometryView {
    GeometryView {
        vertices: triangle_vertices(),
        indices: Some(seq![0u32, 1u32, 2u32]),
        layout: seq![
            Attribute { location: 0, components: 3, stride: 24, offset: 0 },
            Attribute { location: 1, components: 3, stride: 24, offset: 12 },
        ],
    }
}

/// The triangle's data and layout agree: three vertices of 24 bytes each.
pub proof fn lemma_triangle_is_consistent()
    ensures
        triangle_view().consistent(),
        triangle_view().vertex_count() == 3,
        triangle_view().draw() == (GpuCommand::DrawElements { count: 3 }),
{
    let triangle = triangle_view();
    assert(triangle.layout.len() == 2);
    assert(triangle.layout[0] == Attribute { location: 0, components: 3, stride: 24, offset: 0 });
    assert(triangle.layout[1] == Attribute { location: 1, components: 3, stride: 24, offset: 12 });
    assert(record_bytes(triangle.layout[0]) == 24);
    assert(record_bytes(triangle.layout[1]) == 24);
    assert(attribute_fits(triangle.layout[0]));
    assert(attribute_fits(triangle.layout[1]));
    assert(triangle.vertices.len() == 18);
    assert(triangle.vertex_count() == 3);
    let indices = triangle.indices.unwrap();
    assert(indices.len() == 3);
    assert(indices[0] == 0 && indices[1] == 1 && indices[2] == 2);
}

/// The triangle of the viewer.
pub fn triangle() -> (geometry: GeometryBuffer)
    ensures
        geometry@ == triangle_view(),
{
    let vertices: Vec<u32> = vec![
        ZERO, ONE, ZERO, ONE, ZERO, ZERO,
        ONE, MINUS_HALF, ZERO, ZERO, ONE, ZERO,
        MINUS_ONE, MINUS_HALF, ZERO, ZERO, ZERO, ONE,
    ];
    let indices: Vec<u32> = vec![0, 1, 2];
    let layout: Vec<Attribute> = vec![
        Attribute { location: 0, components: 3, stride: 24, offset: 0 },
        Attribute { location: 1, components: 3, stride: 24, offset: 12 },
    ];
    assert(vertices@ =~= triangle_vertices());
    assert(indices@ =~= triangle_view().indices.unwrap());
    assert(layout@ =~= triangle_view().layout);
    proof {
        lemma_triangle_is_consistent();
    }
    GeometryBuffer::create(vertices, Some(indices), layout).unwrap()
}

/// The triangle program: its two shader files and the rotation angle,
/// which is no part of the shared contract and so may be absent.
pub open spec fn triangler_config() -> ProgramConfigView {
    ProgramConfigView {
        vertex: ShaderSourceView::File(TRIANGLER_VERTEX_SHADER@),
        fragment: ShaderSourceView::File(TRIANGLER_FRAGMENT_SHADER@),
        uniforms: seq![UniformSpecView { name: "vs_angle"@, policy: UniformPolicy::Permissive }],
    }
}

/// Clearing the viewport to the configured colour.
pub open spec fn clear_commands() -> Seq<GpuCommand> {
    seq![
        GpuCommand::ClearColor {
            red: configuration::GL_CLEAR_COLOR_R,
            green: configuration::GL_CLEAR_COLOR_G,
            blue: configuration::GL_CLEAR_COLOR_B,
            alpha: configuration::GL_CLEAR_COLOR_A,
        },
        GpuCommand::Clear,
    ]
}

pub struct Triangler {
    drawable: Drawable,
}

impl View for Triangler {
    type V = DrawableView;

    closed spec fn view(&self) -> DrawableView {
        self.drawable@
    }
}

impl Triangler {
    /// What to build the triangle program from.
    pub fn program_config() -> (config: ProgramConfig)
        ensures
            config@ == triangler_config(),
            config@.within_contract(),
    {
        let mut config = ProgramConfig::new(
            ShaderSource::File(String::from_str(TRIANGLER_VERTEX_SHADER)),
            ShaderSource::File(String::from_str(TRIANGLER_FRAGMENT_SHADER)),
        );
        config.expose_permissive("vs_angle");
        assert(config@.uniforms =~= triangler_config().uniforms);
        config
    }

    /// The triangle around a finished build: there is one exactly where the
    /// build succeeded and resolved the angle.
    pub fn new(built: Result<ShaderProgram, GpuError>) -> (triangler: Option<Triangler>)
        ensures
            triangler is Some <==> (built_handles(built) matches Some(handles) && handles.len()
                == TRIANGLER_UNIFORMS),
            triangler matches Some(t) ==> t@ == (DrawableView {
                handles: built_handles(built).unwrap(),
                geometry: triangle_view(),
            }),
    {
        match built {
            Ok(program) => {
                if program.handles().len() == TRIANGLER_UNIFORMS {
                    Some(Triangler { drawable: Drawable::new(program, triangle()) })
                } else {
                    None
                }
            },
            Err(_) => None,
        }
    }

    /// The commands that put the triangle on the GPU, to replay once after `new`.
    pub fn create_commands(&self) -> (commands: Vec<GpuCommand>)
        ensures
            commands@ == self@.geometry.create_commands(),
    {
        self.drawable.create_commands()
    }

    pub fn drawable(&self) -> (drawable: &Drawable)
        ensures
            drawable@ == self@,
    {
        &self.drawable
    }

    /// The commands that release the program, the triangle and its buffers.
    pub fn destroy(&self) -> (commands: Vec<GpuCommand>)
        ensures
            commands@ == self@.destroy_commands(),
    {
        self.drawable.destroy()
    }

    /// One frame: clear the viewport, then draw the triangle turned by
    /// `angle`, a fixed-point number of radians.
    pub fn paint(&self, angle: i64) -> (commands: Vec<GpuCommand>)
        ensures
            commands@ == clear_commands() + paint_commands(
                self@.handles,
                seq![UniformValue::Scalar(angle)],
                self@.geometry.draw(),
            ),
    {
        let mut commands: Vec<GpuCommand> = vec![
            GpuCommand::ClearColor {
                red: configuration::GL_CLEAR_COLOR_R,
                green: configuration::GL_CLEAR_COLOR_G,
                blue: configuration::GL_CLEAR_COLOR_B,
                alpha: configuration::GL_CLEAR_COLOR_A,
            },
            GpuCommand::Clear,
        ];
        assert(commands@ =~= clear_commands());
        let values: Vec<UniformValue> = vec![UniformValue::Scalar(angle)];
        assert(values@ =~= seq![UniformValue::Scalar(angle)]);
        let mut rest = self.drawable.paint(&values);
        commands.append(&mut rest);
        commands
    }
}

} // verus!

//! The Julia explorer: its shaders and its per-frame uniforms.

use vstd::prelude::*;
use vstd::string::StringExecFns;
use crate::fractals::mandelbrot::{quad, quad_view};
use crate::rendering::gl_utils::{GpuError, UniformPolicy};
use crate::rendering::gpu::{GpuCommand, UniformValue};
use crate::rendering::program::{
    built_handles,
    paint_commands,
    Drawable,
    DrawableView,
    ProgramConfig,
    ProgramConfigView,
    ShaderProgram,
    ShaderSource,
    ShaderSourceView,
    UniformSpecView,
};

verus! {

pub const JULIA_VERTEX_SHADER: &'static str = "assets/shaders/fractals/julia.vert";

pub const JULIA_FRAGMENT_SHADER: &'static str = "assets/shaders/fractals/julia.frag";

/// The number of uniforms the Julia program exposes.
pub const JULIA_UNIFORMS: usize = 4;

/// The Julia program: its two shader files, the per-frame uniforms it must
/// have, and the world-view matrix, which is no part of the shared contract
/// and so may be absent.
pub open spec fn julia_config() -> ProgramConfigView {
    ProgramConfigView {
        vertex: ShaderSourceView::File(JULIA_VERTEX_SHADER@),
        fragment: ShaderSourceView::File(JULIA_FRAGMENT_SHADER@),
        uniforms: seq![
            UniformSpecView { name: "u_window_width"@, policy: UniformPolicy::Strict },
            UniformSpecView { name: "u_window_height"@, policy: UniformPolicy::Strict },
            UniformSpecView { name: "u_iterations"@, policy: UniformPolicy::Strict },
            UniformSpecView { name: "u_world_view"@, policy: UniformPolicy::Permissive },
        ],
    }
}

/// The values of one frame, in the order of `julia_config`.
pub open spec fn julia_values(option_iterations: i32, screen_width: i64, screen_height: i64) -> Seq<
    UniformValue,
> {
    seq![
        UniformValue::Scalar(screen_width),
        UniformValue::Scalar(screen_height),
        UniformValue::Int(option_iterations),
        UniformValue::IdentityMatrix3,
    ]
}

pub struct Julia {
    pub option_iterations: i32,
    drawable: Drawable,
}

pub struct JuliaView {
    pub option_iterations: i32,
    pub drawable: DrawableView,
}

impl View for Julia {
    type V = JuliaView;

    closed spec fn view(&self) -> JuliaView {
        JuliaView { option_iterations: self.option_iterations, drawable: self.drawable@ }
    }
}

impl Julia {
    /// What to build the Julia program from.
    pub fn program_config() -> (config: ProgramConfig)
        ensures
            config@ == julia_config(),
            config@.within_contract(),
    {
        let mut config = ProgramConfig::new(
            ShaderSource::File(String::from_str(JULIA_VERTEX_SHADER)),
            ShaderSource::File(String::from_str(JULIA_FRAGMENT_SHADER)),
        );
        config.expose_strict("u_window_width");
        config.expose_strict("u_window_height");
        config.expose_strict("u_iterations");
        config.expose_permissive("u_world_view");
        assert(config@.uniforms =~= julia_config().uniforms);
        config
    }

    /// The explorer around a finished build: there is one exactly where the
    /// build succeeded and resolved the explorer's uniforms. It starts with
    /// 256 iterations.
    pub fn new(built: Result<ShaderProgram, GpuError>) -> (explorer: Option<Julia>)
        ensures
            explorer is Some <==> (built_handles(built) matches Some(handles) && handles.len()
                == JULIA_UNIFORMS),
            explorer matches Some(j) ==> j@ == (JuliaView {
                option_iterations: 256,
                drawable: DrawableView { handles: built_handles(built).unwrap(), geometry: quad_view() },
            }),
    {
        match built {
            Ok(program) => {
                if program.handles().len() == JULIA_UNIFORMS {
                    Some(Julia { option_iterations: 256, drawable: Drawable::new(program, quad()) })
                } else {
                    None
                }
            },
            Err(_) => None,
        }
    }

    /// The commands that put the quad on the GPU, to replay once after `new`.
    pub fn create_commands(&self) -> (commands: Vec<GpuCommand>)
        ensures
            commands@ == self@.drawable.geometry.create_commands(),
    {
        self.drawable.create_commands()
    }

    pub fn drawable(&self) -> (drawable: &Drawable)
        ensures
            drawable@ == self@.drawable,
    {
        &self.drawable
    }

    /// One frame of the explorer on a viewport of the given fixed-point
    /// width and height.
    pub fn paint(&self, screen_width: i64, screen_height: i64) -> (commands: Vec<GpuCommand>)
        ensures
            commands@ == paint_commands(
                self@.drawable.handles,
                julia_values(self@.option_iterations, screen_width, screen_height),
                self@.drawable.geometry.draw(),
            ),
    {
        let values: Vec<UniformValue> = vec![
            UniformValue::Scalar(screen_width),
            UniformValue::Scalar(screen_height),
            UniformValue::Int(self.option_iterations),
            UniformValue::IdentityMatrix3,
        ];
        assert(values@ =~= julia_values(self@.option_iterations, screen_width, screen_height));
        self.drawable.paint(&values)
    }

    /// The commands that release the program, the quad and its buffers.
    pub fn destroy(&self) -> (commands: Vec<GpuCommand>)
        ensures
            commands@ == self@.drawable.destroy_commands(),
    {
        self.drawable.destroy()
    }
}

} // verus!

//! The toy slot of the ShaderToy window: which toy is selected, and when
//! its program has to be rebuilt.
//!
//! The slot holds at most one engine. Each frame `render_toy` decides: where
//! the selection is the one that was built, it hands back the frame's
//! commands; where it changed, it takes the old engine out of the slot and
//! hands back the commands that destroy it, so that the new program is only
//! built once the old one is gone. `finish_rebuild` then puts the new
//! engine in, if the build made one, and paints the frame.

use vstd::prelude::*;
use vstd::string::StringExecFns;
use crate::rendering::gl_utils::GpuError;
use crate::rendering::gpu::{run, GpuCommand, GpuModel};
use crate::rendering::program::{built_handles, ProgramConfig, ShaderProgram};
use crate::shadertoy::shadertoy_engine::{
    toy_config,
    EngineView,
    ShaderToyEngine,
    SHADERTOY_UNIFORMS,
};

verus! {

/// What the user picked in the ShaderToy window this frame.
#[derive(Clone, Copy, Debug, PartialEq, Eq, Structural)]
pub enum ToyMenu {
    Nothing,
    Close,
    Artificial,
    CombustibleVoronoiLayers,
    Seascape,
    StarNest,
    SunSurface,
}

/// The key of the toy a menu entry stands for.
pub open spec fn toy_key(menu: ToyMenu) -> Option<Seq<char>> {
    match menu {
        ToyMenu::Artificial => Some("4ljGW1"@),
        ToyMenu::CombustibleVoronoiLayers => Some("4tlSzl"@),
        ToyMenu::Seascape => Some("Ms2SD1"@),
        ToyMenu::StarNest => Some("XlfGRj"@),
        ToyMenu::SunSurface => Some("XlSSzK"@),
        ToyMenu::Nothing => None,
        ToyMenu::Close => None,
    }
}

/// What a frame of the toy window asks of the host.
pub enum ToyFrame {
    /// The selection changed. Replay `destroy`, build the program of
    /// `config`, and hand the finished build to `finish_rebuild`.
    Rebuild { destroy: Vec<GpuCommand>, config: ProgramConfig },
    /// The selection is built. Replay the frame's commands.
    Paint(Vec<GpuCommand>),
}

/// The commands that destroy the engine in a slot, if there is one.
pub open spec fn slot_destroy(engine: Option<EngineView>) -> Seq<GpuCommand> {
    match engine {
        Some(e) => e.destroy_commands(),
        None => Seq::empty(),
    }
}

/// One frame of the engine in a slot; nothing where the slot is empty.
pub open spec fn slot_frame(engine: Option<EngineView>, screen_width: i64, screen_height: i64) -> Seq<
    GpuCommand,
> {
    match engine {
        Some(e) => e.frame_commands(screen_width, screen_height),
        None => Seq::empty(),
    }
}

/// The engine a finished build yields, if any.
pub open spec fn engine_of(built: Result<ShaderProgram, GpuError>) -> Option<EngineView> {
    match built_handles(built) {
        Some(handles) => if handles.len() == SHADERTOY_UNIFORMS {
            Some(EngineView::fresh(handles))
        } else {
            None
        },
        None => None,
    }
}

pub struct ShaderToy {
    pub show_shadertoy: bool,
    previous_toy: String,
    current_toy: String,
    current_source: String,
    shader_toy_engine: Option<ShaderToyEngine>,
}

/// The toy window as plain values.
pub struct ShaderToyView {
    pub shown: bool,
    pub previous_toy: Seq<char>,
    pub current_toy: Seq<char>,
    pub current_source: Seq<char>,
    pub engine: Option<EngineView>,
}

impl View for ShaderToy {
    type V = ShaderToyView;

    closed spec fn view(&self) -> ShaderToyView {
        ShaderToyView {
            shown: self.show_shadertoy,
            previous_toy: self.previous_toy@,
            current_toy: self.current_toy@,
            current_source: self.current_source@,
            engine: match self.shader_toy_engine {
                Some(engine) => Some(engine@),
                None => None,
            },
        }
    }
}

/// The view of an optional engine.
pub open spec fn engine_view(engine: Option<ShaderToyEngine>) -> Option<EngineView> {
    match engine {
        Some(e) => Some(e@),
        None => None,
    }
}

impl ShaderToy {
    /// The toy window around the engine of the default toy: there is one
    /// exactly where there is an engine. It starts hidden, with the default
    /// toy selected and built.
    pub fn new(engine: Option<ShaderToyEngine>) -> (toy: Option<ShaderToy>)
        ensures
            toy is Some <==> engine is Some,
            toy matches Some(t) ==> t@ == (ShaderToyView {
                shown: false,
                previous_toy: Seq::empty(),
                current_toy: Seq::empty(),
                current_source: Seq::empty(),
                engine: engine_view(engine),
            }),
    {
        match engine {
            Some(e) => Some(
                ShaderToy {
                    show_shadertoy: false,
                    previous_toy: String::new(),
                    current_toy: String::new(),
                    current_source: String::new(),
                    shader_toy_engine: Some(e),
                },
            ),
            None => None,
        }
    }

    /// Whether the window is shown.
    pub fn shown(&self) -> (shown: bool)
        ensures
            shown == self@.shown,
    {
        self.show_shadertoy
    }

    /// The key of the selected toy; empty for the default toy.
    pub fn current_toy(&self) -> (key: &String)
        ensures
            key@ == self@.current_toy,
    {
        &self.current_toy
    }

    /// The text shown in the source editor.
    pub fn current_source(&self) -> (source: &String)
        ensures
            source@ == self@.current_source,
    {
        &self.current_source
    }

    /// One frame of the window: it counts as shown, unless it was closed;
    /// a toy picked from the menu becomes the selected toy.
    pub fn update(&mut self, menu: ToyMenu)
        ensures
            final(self)@ == (ShaderToyView {
                shown: !(menu is Close),
                current_toy: match toy_key(menu) {
                    Some(key) => key,
                    None => old(self)@.current_toy,
                },
                ..old(self)@
            }),
    {
        self.show_shadertoy = true;
        match menu {
            ToyMenu::Nothing => {},
            ToyMenu::Close => {
                self.show_shadertoy = false;
            },
            ToyMenu::Artificial => {
                self.current_toy = String::from_str("4ljGW1");
            },
            ToyMenu::CombustibleVoronoiLayers => {
                self.current_toy = String::from_str("4tlSzl");
            },
            ToyMenu::Seascape => {
                self.current_toy = String::from_str("Ms2SD1");
            },
            ToyMenu::StarNest => {
                self.current_toy = String::from_str("XlfGRj");
            },
            ToyMenu::SunSurface => {
                self.current_toy = String::from_str("XlSSzK");
            },
        }
    }

    /// Whether the selection changed since the program was last built.
    pub fn needs_rebuild(&self) -> (stale: bool)
        ensures
            stale == (self@.current_toy != self@.previous_toy),
    {
        self.current_toy != self.previous_toy
    }

    /// One frame of the toy. Where the selection is the one that was built,
    /// nothing changes and the result holds the frame's commands: size the
    /// renderbuffer, then paint; none without an engine. Where the
    /// selection changed, the slot is emptied and the result holds the
    /// commands that destroy the engine that was in it, together with what
    /// to build the selected toy's program from; the selection counts as
    /// built from here on, whatever the build leads to.
    pub fn render_toy(&mut self, screen_width: i64, screen_height: i64) -> (frame: ToyFrame)
        ensures
            frame is Rebuild <==> old(self)@.current_toy != old(self)@.previous_toy,
            match frame {
                ToyFrame::Rebuild { destroy, config } => {
                    &&& final(self)@ == (ShaderToyView {
                        engine: None,
                        previous_toy: old(self)@.current_toy,
                        ..old(self)@
                    })
                    &&& destroy@ == slot_destroy(old(self)@.engine)
                    &&& old(self)@.engine matches Some(engine) ==> run(destroy@, engine.model())
                        == Some(GpuModel::empty())
                    &&& config@ == toy_config(old(self)@.current_toy)
                },
                ToyFrame::Paint(commands) => {
                    &&& final(self)@ == old(self)@
                    &&& commands@ == slot_frame(old(self)@.engine, screen_width, screen_height)
                },
            },
    {
        if self.needs_rebuild() {
            self.previous_toy = self.current_toy.clone();
            match self.shader_toy_engine.take() {
                Some(engine) => {
                    let (destroy, config) = engine.reload_shadertoy(self.current_toy.as_str());
                    ToyFrame::Rebuild { destroy, config }
                },
                None => ToyFrame::Rebuild {
                    destroy: Vec::new(),
                    config: ShaderToyEngine::program_config(self.current_toy.as_str()),
                },
            }
        } else {
            let commands = match &self.shader_toy_engine {
                Some(engine) => engine.frame(screen_width, screen_height),
                None => Vec::new(),
            };
            ToyFrame::Paint(commands)
        }
    }

    /// The second half of a rebuild: puts the engine around the finished
    /// build into the slot and returns the commands that create its
    /// geometry and targets, followed by the frame's commands. Where the
    /// build made no engine, or the slot is taken, nothing changes and
    /// there is nothing to replay.
    pub fn finish_rebuild(
        &mut self,
        built: Result<ShaderProgram, GpuError>,
        screen_width: i64,
        screen_height: i64,
    ) -> (commands: Vec<GpuCommand>)
        ensures
            old(self)@.engine is None && engine_of(built) is Some ==> final(self)@ == (
            ShaderToyView { engine: engine_of(built), ..old(self)@ }) && commands@ == engine_of(
                built,
            ).unwrap().create_commands() + engine_of(built).unwrap().frame_commands(
                screen_width,
                screen_height,
            ),
            old(self)@.engine is Some || engine_of(built) is None ==> final(self)@ == old(self)@
                && commands@ == Seq::<GpuCommand>::empty(),
    {
        if self.shader_toy_engine.is_some() {
            return Vec::new();
        }
        match ShaderToyEngine::compile_shadertoy(built) {
            Some(engine) => {
                let mut commands = engine.create_commands();
                let mut frame = engine.frame(screen_width, screen_height);
                commands.append(&mut frame);
                self.shader_toy_engine = Some(engine);
                commands
            },
            None => Vec::new(),
        }
    }

    /// The commands that destroy the engine in the slot, if there is one.
    pub fn on_exit(&mut self) -> (commands: Vec<GpuCommand>)
        ensures
            final(self)@ == (ShaderToyView { engine: None, ..old(self)@ }),
            commands@ == slot_destroy(old(self)@.engine),
    {
        match self.shader_toy_engine.take() {
            Some(engine) => engine.destroy(),
            None => Vec::new(),
        }
    }
}

} // verus!

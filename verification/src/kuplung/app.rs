//! The shell's top level: the menu state and the three demo windows.
//!
//! A demo that could not be brought up is simply absent. Its window is
//! never drawn, and asking for it from the menu switches the entry off
//! again at the end of the frame.

use vstd::prelude::*;
use crate::fractals::fractals_manager::FractalsManager;
use crate::rendering::gpu::GpuCommand;
use crate::rendering::rendering_manager::RenderingManager;
use crate::shadertoy::shadertoy_manager::{slot_destroy, ShaderToy, ShaderToyView};
use crate::settings::kuplung_logger::{add_log, logged, LogBuffer};
use crate::ui::ui_manager::{UIManager, UiFlags};

verus! {

/// Which demo windows to draw this frame.
#[derive(Clone, Copy, Debug, PartialEq, Eq, Structural)]
pub struct ShownWindows {
    pub viewer: bool,
    pub fractals: bool,
    pub toys: bool,
}

/// What the shell says once it stands.
pub const LOG_EGUI_INITIALIZED: &'static str = "[Kuplung] egui initialized.";

pub struct KuplungApp {
    pub manager_ui: UIManager,
    pub manager_rendering: Option<RenderingManager>,
    pub manager_fractals: Option<FractalsManager>,
    pub manager_shadertoy: Option<ShaderToy>,
}

/// Whether the fractal window is there and still open.
pub open spec fn fractals_open(manager: Option<FractalsManager>) -> bool {
    match manager {
        Some(m) => m@.shown,
        None => false,
    }
}

/// Whether the toy window is there and still open.
pub open spec fn toys_open(manager: Option<ShaderToy>) -> bool {
    match manager {
        Some(m) => m@.shown,
        None => false,
    }
}

impl KuplungApp {
    /// The shell around its menu state and the demos that could be brought
    /// up. Once it stands, it says so in the log.
    pub fn new(
        manager_ui: UIManager,
        manager_rendering: Option<RenderingManager>,
        manager_fractals: Option<FractalsManager>,
        manager_shadertoy: Option<ShaderToy>,
        log: &mut LogBuffer,
    ) -> (app: KuplungApp)
        ensures
            app.manager_ui == manager_ui,
            app.manager_rendering == manager_rendering,
            app.manager_fractals == manager_fractals,
            app.manager_shadertoy == manager_shadertoy,
            logged(old(log)@, final(log)@, LOG_EGUI_INITIALIZED@),
    {
        add_log(log, LOG_EGUI_INITIALIZED);
        KuplungApp { manager_ui, manager_rendering, manager_fractals, manager_shadertoy }
    }

    /// The demo windows to draw this frame: those the menu has switched on
    /// and whose demo exists.
    pub fn update(&self) -> (shown: ShownWindows)
        ensures
            shown.viewer == (self.manager_ui@.show_viewer && self.manager_rendering is Some),
            shown.fractals == (self.manager_ui@.show_fractals && self.manager_fractals is Some),
            shown.toys == (self.manager_ui@.show_toys && self.manager_shadertoy is Some),
    {
        ShownWindows {
            viewer: self.manager_ui.show_viewer && self.manager_rendering.is_some(),
            fractals: self.manager_ui.show_fractals && self.manager_fractals.is_some(),
            toys: self.manager_ui.show_toys && self.manager_shadertoy.is_some(),
        }
    }

    /// The end of a frame: a window that closed itself, or whose demo does
    /// not exist, is switched off in the menu. Nothing else changes.
    pub fn end_of_frame(&mut self)
        ensures
            final(self).manager_ui@ == (UiFlags {
                show_viewer: old(self).manager_ui@.show_viewer && old(self).manager_rendering
                    is Some,
                show_fractals: old(self).manager_ui@.show_fractals && fractals_open(
                    old(self).manager_fractals,
                ),
                show_toys: old(self).manager_ui@.show_toys && toys_open(
                    old(self).manager_shadertoy,
                ),
                ..old(self).manager_ui@
            }),
            final(self).manager_rendering == old(self).manager_rendering,
            final(self).manager_fractals == old(self).manager_fractals,
            final(self).manager_shadertoy == old(self).manager_shadertoy,
    {
        let viewer = self.manager_rendering.is_some();
        let fractals = match &self.manager_fractals {
            Some(manager) => manager.show_fractals(),
            None => false,
        };
        let toys = match &self.manager_shadertoy {
            Some(manager) => manager.shown(),
            None => false,
        };
        self.manager_ui.keep_windows(viewer, fractals, toys);
    }

    /// Leaving the program: the commands that destroy the toy engine, if
    /// the toy window holds one.
    pub fn on_exit(&mut self) -> (commands: Vec<GpuCommand>)
        ensures
            final(self).manager_ui@ == old(self).manager_ui@,
            final(self).manager_rendering == old(self).manager_rendering,
            final(self).manager_fractals == old(self).manager_fractals,
            match (old(self).manager_shadertoy, final(self).manager_shadertoy) {
                (Some(before), Some(after)) => after@ == (ShaderToyView {
                    engine: None,
                    ..before@
                }),
                (None, None) => true,
                _ => false,
            },
            commands@ == match old(self).manager_shadertoy {
                Some(toy) => slot_destroy(toy@.engine),
                None => Seq::empty(),
            },
    {
        self.manager_ui.on_exit();
        match &mut self.manager_shadertoy {
            Some(toy) => toy.on_exit(),
            None => Vec::new(),
        }
    }
}

} // verus!

//! The state behind the backend panel.

use vstd::prelude::*;

verus! {

/// How often the shell repaints.
#[derive(Clone, Copy, Debug, PartialEq, Eq, Structural)]
pub enum RunMode {
    /// Repaint on input and while something animates.
    Reactive,
    /// Repaint every frame.
    Continuous,
}

/// What the backend panel can ask the shell to do.
#[derive(Clone, Copy, Debug, PartialEq, Eq, Structural)]
#[must_use]
pub enum Command {
    Nothing,
    ResetEverything,
}

/// Which of the inspection windows are open.
#[derive(Clone, Copy, Debug, PartialEq, Eq, Structural)]
pub struct EguiWindows {
    pub settings: bool,
    pub inspection: bool,
    pub memory: bool,
    pub output_events: bool,
}

impl EguiWindows {
    /// Every window closed.
    pub fn none() -> (windows: EguiWindows)
        ensures
            windows == (EguiWindows {
                settings: false,
                inspection: false,
                memory: false,
                output_events: false,
            }),
    {
        EguiWindows { settings: false, inspection: false, memory: false, output_events: false }
    }
}

/// The most output events the panel remembers.
pub const OUTPUT_EVENT_LIMIT: usize = 1000;

/// How many of the oldest events to forget so that a history of `length`
/// events is back within the limit.
pub fn history_excess(length: usize) -> (excess: usize)
    ensures
        excess == if length > OUTPUT_EVENT_LIMIT {
            length - OUTPUT_EVENT_LIMIT
        } else {
            0
        },
        length - excess <= OUTPUT_EVENT_LIMIT,
{
    if length > OUTPUT_EVENT_LIMIT {
        length - OUTPUT_EVENT_LIMIT
    } else {
        0
    }
}

pub struct PanelBackend {
    pub open: bool,
    pub run_mode: RunMode,
    pub egui_windows: EguiWindows,
}

impl PanelBackend {
    /// The panel as first created: closed, reactive, no window open.
    pub fn new() -> (panel: PanelBackend)
        ensures
            !panel.open,
            panel.run_mode == RunMode::Reactive,
            panel.egui_windows == (EguiWindows {
                settings: false,
                inspection: false,
                memory: false,
                output_events: false,
            }),
    {
        PanelBackend { open: false, run_mode: RunMode::Reactive, egui_windows: EguiWindows::none() }
    }

    /// One frame of the panel: says whether to ask for another repaint,
    /// which the continuous mode does and the reactive mode does not.
    pub fn update(&mut self) -> (repaint: bool)
        ensures
            repaint == (old(self).run_mode == RunMode::Continuous),
            *final(self) == *old(self),
    {
        match self.run_mode {
            RunMode::Continuous => true,
            RunMode::Reactive => false,
        }
    }
}

} // verus!

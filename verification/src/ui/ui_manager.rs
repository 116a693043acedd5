//! Which windows of the shell are open, and what the menu does to them.

use vstd::prelude::*;
use crate::settings::kuplung_logger::{add_log, logged, logged_two, LogBuffer};
use crate::ui::components::log::{ComponentLog, LOG_INITIALIZED, LOG_INITIALIZING};
use crate::ui::panel_backend::{Command, EguiWindows, PanelBackend, RunMode};

verus! {

/// What the shell must do after a key or a menu entry was handled.
#[derive(Clone, Copy, Debug, PartialEq, Eq, Structural)]
pub enum UiAction {
    /// Close the open menu.
    CloseMenu,
    /// Close the open menu and leave the program.
    Exit,
    /// Nothing.
    Stay,
}

pub struct UIManager {
    pub dark_mode: bool,
    pub show_backend: bool,
    pub panel_backend: PanelBackend,
    pub show_options: bool,
    pub show_about: bool,
    pub show_component_log: bool,
    pub component_log: ComponentLog,
    pub show_viewer: bool,
    pub show_fractals: bool,
    pub show_toys: bool,
}

/// The shell as plain values: its switches, the state of the backend
/// panel, and the filter typed into the log window.
pub struct UiFlags {
    pub dark_mode: bool,
    pub show_backend: bool,
    pub show_options: bool,
    pub show_about: bool,
    pub show_component_log: bool,
    pub show_viewer: bool,
    pub show_fractals: bool,
    pub show_toys: bool,
    pub panel_open: bool,
    pub run_mode: RunMode,
    pub egui_windows: EguiWindows,
    pub buffer_filter: Seq<char>,
}

impl UiFlags {
    /// The shell as first shown: light, with only the log window open.
    pub open spec fn initial() -> UiFlags {
        UiFlags {
            dark_mode: false,
            show_backend: false,
            show_options: false,
            show_about: false,
            show_component_log: true,
            show_viewer: false,
            show_fractals: false,
            show_toys: false,
            panel_open: false,
            run_mode: RunMode::Reactive,
            egui_windows: EguiWindows {
                settings: false,
                inspection: false,
                memory: false,
                output_events: false,
            },
            buffer_filter: Seq::empty(),
        }
    }
}

impl View for UIManager {
    type V = UiFlags;

    open spec fn view(&self) -> UiFlags {
        UiFlags {
            dark_mode: self.dark_mode,
            show_backend: self.show_backend,
            show_options: self.show_options,
            show_about: self.show_about,
            show_component_log: self.show_component_log,
            show_viewer: self.show_viewer,
            show_fractals: self.show_fractals,
            show_toys: self.show_toys,
            panel_open: self.panel_backend.open,
            run_mode: self.panel_backend.run_mode,
            egui_windows: self.panel_backend.egui_windows,
            buffer_filter: self.component_log.buffer_filter@,
        }
    }
}

impl UIManager {
    /// The shell as first shown: light, with only the log window open.
    /// The log window writes its two lines to the log as it comes up.
    pub fn new(log: &mut LogBuffer) -> (manager: UIManager)
        ensures
            manager@ == UiFlags::initial(),
            logged_two(old(log)@, final(log)@, LOG_INITIALIZING@, LOG_INITIALIZED@),
    {
        UIManager {
            dark_mode: false,
            show_backend: false,
            panel_backend: PanelBackend::new(),
            show_options: false,
            show_about: false,
            show_component_log: true,
            component_log: ComponentLog::new(log),
            show_viewer: false,
            show_fractals: false,
            show_toys: false,
        }
    }

    /// Leaving the program changes nothing here: the shell owns no resource.
    pub fn on_exit(&mut self)
        ensures
            final(self)@ == old(self)@,
    {
    }

    /// Logs `message` to the buffer the log window shows, stamped with the
    /// current time of day.
    pub fn log_info(&mut self, log: &mut LogBuffer, message: &str)
        ensures
            final(self)@ == old(self)@,
            logged(old(log)@, final(log)@, message@),
    {
        add_log(log, message);
    }

    /// Whether the command asks to forget everything the windows remember.
    pub fn run_cmd(&mut self, cmd: Command) -> (reset: bool)
        ensures
            reset == (cmd == Command::ResetEverything),
            final(self)@ == old(self)@,
    {
        match cmd {
            Command::Nothing => false,
            Command::ResetEverything => true,
        }
    }

    /// Escape closes the about box if it is open and leaves the program
    /// if it is not.
    pub fn handle_key_escape(&mut self) -> (action: UiAction)
        ensures
            old(self)@.show_about ==> action == UiAction::Stay && final(self)@ == (UiFlags {
                show_about: false,
                ..old(self)@
            }),
            !old(self)@.show_about ==> action == UiAction::Exit && final(self)@ == old(self)@,
    {
        if self.show_about {
            self.show_about = false;
            UiAction::Stay
        } else {
            self.exit_kuplung()
        }
    }

    /// The theme button was pressed: switch between light and dark, and
    /// say whether the shell is dark now.
    pub fn show_theme(&mut self) -> (dark: bool)
        ensures
            dark == !old(self)@.dark_mode,
            final(self)@ == (UiFlags { dark_mode: dark, ..old(self)@ }),
    {
        self.dark_mode = !self.dark_mode;
        self.dark_mode
    }

    pub fn toggle_backend(&mut self) -> (action: UiAction)
        ensures
            action == UiAction::CloseMenu,
            final(self)@ == (UiFlags { show_backend: !old(self)@.show_backend, ..old(self)@ }),
    {
        self.show_backend = !self.show_backend;
        UiAction::CloseMenu
    }

    pub fn toggle_dialog_new(&mut self) -> (action: UiAction)
        ensures
            action == UiAction::CloseMenu,
            final(self)@ == old(self)@,
    {
        UiAction::CloseMenu
    }

    pub fn toggle_dialog_open(&mut self) -> (action: UiAction)
        ensures
            action == UiAction::CloseMenu,
            final(self)@ == old(self)@,
    {
        UiAction::CloseMenu
    }

    pub fn toggle_dialog_save(&mut self) -> (action: UiAction)
        ensures
            action == UiAction::CloseMenu,
            final(self)@ == old(self)@,
    {
        UiAction::CloseMenu
    }

    pub fn toggle_window_viewer(&mut self) -> (action: UiAction)
        ensures
            action == UiAction::CloseMenu,
            final(self)@ == (UiFlags { show_viewer: !old(self)@.show_viewer, ..old(self)@ }),
    {
        self.show_viewer = !self.show_viewer;
        UiAction::CloseMenu
    }

    pub fn toggle_window_fractals(&mut self) -> (action: UiAction)
        ensures
            action == UiAction::CloseMenu,
            final(self)@ == (UiFlags { show_fractals: !old(self)@.show_fractals, ..old(self)@ }),
    {
        self.show_fractals = !self.show_fractals;
        UiAction::CloseMenu
    }

    pub fn toggle_window_toys(&mut self) -> (action: UiAction)
        ensures
            action == UiAction::CloseMenu,
            final(self)@ == (UiFlags { show_toys: !old(self)@.show_toys, ..old(self)@ }),
    {
        self.show_toys = !self.show_toys;
        UiAction::CloseMenu
    }

    pub fn toggle_options(&mut self) -> (action: UiAction)
        ensures
            action == UiAction::CloseMenu,
            final(self)@ == (UiFlags { show_options: !old(self)@.show_options, ..old(self)@ }),
    {
        self.show_options = !self.show_options;
        UiAction::CloseMenu
    }

    pub fn toggle_component_log(&mut self) -> (action: UiAction)
        ensures
            action == UiAction::CloseMenu,
            final(self)@ == (UiFlags {
                show_component_log: !old(self)@.show_component_log,
                ..old(self)@
            }),
    {
        self.show_component_log = !self.show_component_log;
        UiAction::CloseMenu
    }

    pub fn toggle_about(&mut self) -> (action: UiAction)
        ensures
            action == UiAction::CloseMenu,
            final(self)@ == (UiFlags { show_about: !old(self)@.show_about, ..old(self)@ }),
    {
        self.show_about = !self.show_about;
        UiAction::CloseMenu
    }

    /// Switches off the demo windows that cannot stay open: each of the
    /// three stays on only if it is on and may stay.
    pub fn keep_windows(&mut self, viewer: bool, fractals: bool, toys: bool)
        ensures
            final(self)@ == (UiFlags {
                show_viewer: old(self)@.show_viewer && viewer,
                show_fractals: old(self)@.show_fractals && fractals,
                show_toys: old(self)@.show_toys && toys,
                ..old(self)@
            }),
    {
        self.show_viewer = self.show_viewer && viewer;
        self.show_fractals = self.show_fractals && fractals;
        self.show_toys = self.show_toys && toys;
    }

    /// Quit was chosen: close the menu and leave the program.
    pub fn exit_kuplung(&mut self) -> (action: UiAction)
        ensures
            action == UiAction::Exit,
            final(self)@ == old(self)@,
    {
        UiAction::Exit
    }
}

} // verus!

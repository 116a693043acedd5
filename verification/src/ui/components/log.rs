//! The state behind the log window.

use vstd::prelude::*;
use crate::settings::kuplung_logger::{add_log, clear_log, logged_two, LogBuffer};

verus! {

/// What the log window says when it starts to come up.
pub const LOG_INITIALIZING: &'static str = "[Kuplung] [UI] [Component] Initializing Log...";

/// What the log window says once it is up.
pub const LOG_INITIALIZED: &'static str = "[Kuplung] [UI] [Component] Log initialized.";

pub struct ComponentLog {
    pub buffer_filter: String,
}

impl ComponentLog {
    /// The log window with an empty filter. Coming up, it writes two lines
    /// to the log: that it is initializing, and that it is initialized.
    pub fn new(log: &mut LogBuffer) -> (component: ComponentLog)
        ensures
            component.buffer_filter@ == Seq::<char>::empty(),
            logged_two(old(log)@, final(log)@, LOG_INITIALIZING@, LOG_INITIALIZED@),
    {
        add_log(log, LOG_INITIALIZING);
        let this = ComponentLog { buffer_filter: String::new() };
        add_log(log, LOG_INITIALIZED);
        this
    }

    /// The window's Clear button: empties the log and keeps the filter.
    pub fn clear_log_text(&mut self, log: &mut LogBuffer)
        ensures
            final(log)@ == Seq::<char>::empty(),
            final(self).buffer_filter@ == old(self).buffer_filter@,
    {
        clear_log(log);
    }

    /// The window's Filter button: the filter text stays as typed and the
    /// log is shown in full.
    pub fn filter_log(&mut self)
        ensures
            final(self).buffer_filter@ == old(self).buffer_filter@,
    {
    }
}

} // verus!

use vstd::prelude::*;

verus! {

/// The state of the debug overlay: whether the log panel is open.
pub struct DebugGui {
    show_debug_log: bool,
}

impl DebugGui {
    pub closed spec fn shows_log(&self) -> bool {
        self.show_debug_log
    }

    /// An overlay with the log panel open.
    pub fn new() -> (r: DebugGui)
        ensures
            r.shows_log(),
    {
        DebugGui { show_debug_log: true }
    }

    pub fn show_debug_log(&self) -> (r: bool)
        ensures
            r == self.shows_log(),
    {
        self.show_debug_log
    }

    /// The label of the button that opens or closes the log panel.
    pub fn toggle_label(&self) -> (r: &'static str)
        ensures
            self.shows_log() ==> r@ == "Hide Debug Log"@,
            !self.shows_log() ==> r@ == "Show Debug Log"@,
    {
        if self.show_debug_log {
            "Hide Debug Log"
        } else {
            "Show Debug Log"
        }
    }

    /// Opens the log panel when closed, closes it when open.
    pub fn toggle_debug_log(&mut self)
        ensures
            final(self).shows_log() == !old(self).shows_log(),
    {
        self.show_debug_log = !self.show_debug_log;
    }
}

} // verus!

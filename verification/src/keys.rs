//! The UI's focus and tab state.  Key decoding and dispatch belong to the
//! terminal layer outside this crate; what lives here is the state those
//! handlers steer.

use vstd::prelude::*;

verus! {

/// Which pane has the keyboard focus.
#[derive(Clone, Copy, Eq, PartialEq, Structural)]
pub enum InputMode {
    Browser,
    Queue,
    HelpControls,
}

/// Which top-level tab is shown.
#[derive(Debug, Clone, Copy)]
pub enum AppTab {
    FileBrowser,
    Help,
}

impl AppTab {
    /// The tab's place in the top bar, in display order.
    pub open spec fn spec_index(self) -> int {
        match self {
            AppTab::FileBrowser => 0,
            AppTab::Help => 1,
        }
    }

    pub fn index(self) -> (i: usize)
        ensures
            i as int == self.spec_index(),
    {
        match self {
            AppTab::FileBrowser => 0,
            AppTab::Help => 1,
        }
    }
}

/// What the Tab key does on the file-browser tab: flips the focus between
/// the browser pane and the queue pane; help focus is kept as it is.
pub fn toggle_focus(mode: InputMode) -> (m: InputMode)
    ensures
        m == (match mode {
            InputMode::Browser => InputMode::Queue,
            InputMode::Queue => InputMode::Browser,
            InputMode::HelpControls => InputMode::HelpControls,
        }),
{
    match mode {
        InputMode::Browser => InputMode::Queue,
        InputMode::Queue => InputMode::Browser,
        InputMode::HelpControls => InputMode::HelpControls,
    }
}

} // verus!

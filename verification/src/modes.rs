//! The modes of the user-facing loop.

use vstd::prelude::*;
use vstd::string::StringExecFns;

verus! {

/// What the keyboard currently drives.
#[derive(Debug)]
pub enum InputMode {
    Normal,
    Typing,
    Command,
    Help,
    /// Shows a notice until the next key.
    Info(String),
}

/// An `InputMode`, as plain values.
pub enum InputModeView {
    Normal,
    Typing,
    Command,
    Help,
    Info(Seq<char>),
}

impl View for InputMode {
    type V = InputModeView;

    open spec fn view(&self) -> InputModeView {
        match self {
            InputMode::Normal => InputModeView::Normal,
            InputMode::Typing => InputModeView::Typing,
            InputMode::Command => InputModeView::Command,
            InputMode::Help => InputModeView::Help,
            InputMode::Info(notice) => InputModeView::Info(notice@),
        }
    }
}

/// The title that the text box carries in each mode. A notice is read in
/// normal mode.
pub open spec fn mode_label(mode: InputModeView) -> Seq<char> {
    match mode {
        InputModeView::Normal | InputModeView::Info(_) => " Normal Mode "@,
        InputModeView::Typing => " Typing Mode "@,
        InputModeView::Command => " Command Mode "@,
        InputModeView::Help => " Help "@,
    }
}

impl Default for InputMode {
    /// A session opens on the help screen.
    fn default() -> (mode: InputMode)
        ensures
            mode@ == InputModeView::Help,
    {
        InputMode::Help
    }
}

impl InputMode {
    /// Replaces this mode by `state`.
    pub fn set(&mut self, state: InputMode)
        ensures
            *final(self) == state,
    {
        *self = state;
    }

    /// The title that the text box carries in this mode.
    pub fn label(&self) -> (title: String)
        ensures
            title@ == mode_label(self@),
    {
        match self {
            InputMode::Normal | InputMode::Info(_) => String::from_str(" Normal Mode "),
            InputMode::Typing => String::from_str(" Typing Mode "),
            InputMode::Command => String::from_str(" Command Mode "),
            InputMode::Help => String::from_str(" Help "),
        }
    }
}

} // verus!

//! What each key means in each mode.

use crate::modes::InputMode;
use crate::modes::InputModeView;
use vstd::prelude::*;

verus! {

/// A key press, as far as the modes tell keys apart.
#[derive(Clone, Copy, Debug, PartialEq, Eq, Structural)]
pub enum Key {
    Char(char),
    Esc,
    Enter,
    Other,
}

/// What a key press asks of the loop.
#[derive(Debug)]
pub enum KeyAction {
    /// Enter this mode.
    Switch(InputMode),
    /// End the loop.
    Quit,
    /// Carry out the command in the buffer.
    Execute,
    /// Send the text in the buffer.
    Send,
    /// Hand the key to the buffer.
    Edit,
    /// Nothing.
    Ignore,
}

/// A `KeyAction`, as plain values.
pub enum KeyActionView {
    Switch(InputModeView),
    Quit,
    Execute,
    Send,
    Edit,
    Ignore,
}

impl View for KeyAction {
    type V = KeyActionView;

    open spec fn view(&self) -> KeyActionView {
        match self {
            KeyAction::Switch(mode) => KeyActionView::Switch(mode@),
            KeyAction::Quit => KeyActionView::Quit,
            KeyAction::Execute => KeyActionView::Execute,
            KeyAction::Send => KeyActionView::Send,
            KeyAction::Edit => KeyActionView::Edit,
            KeyAction::Ignore => KeyActionView::Ignore,
        }
    }
}

/// What `key` asks for in `mode`.
///
/// Outside the two editing modes `:` opens the command line, `t` the text
/// line and `Q` ends the loop; `h` shows the help from normal mode, and any
/// other key dismisses the help or a notice. In an editing mode the escape key
/// goes back to normal mode, the enter key submits the buffer, and every
/// other key edits it.
pub open spec fn key_action(mode: InputModeView, key: Key) -> KeyActionView {
    match mode {
        InputModeView::Help | InputModeView::Info(_) => match key {
            Key::Char(':') => KeyActionView::Switch(InputModeView::Command),
            Key::Char('t') => KeyActionView::Switch(InputModeView::Typing),
            Key::Char('Q') => KeyActionView::Quit,
            _ => KeyActionView::Switch(InputModeView::Normal),
        },
        InputModeView::Normal => match key {
            Key::Char(':') => KeyActionView::Switch(InputModeView::Command),
            Key::Char('t') => KeyActionView::Switch(InputModeView::Typing),
            Key::Char('h') => KeyActionView::Switch(InputModeView::Help),
            Key::Char('Q') => KeyActionView::Quit,
            _ => KeyActionView::Ignore,
        },
        InputModeView::Command => match key {
            Key::Esc => KeyActionView::Switch(InputModeView::Normal),
            Key::Enter => KeyActionView::Execute,
            _ => KeyActionView::Edit,
        },
        InputModeView::Typing => match key {
            Key::Esc => KeyActionView::Switch(InputModeView::Normal),
            Key::Enter => KeyActionView::Send,
            _ => KeyActionView::Edit,
        },
    }
}

/// Decides what `key` asks for in `mode`.
pub fn on_key(mode: &InputMode, key: Key) -> (action: KeyAction)
    ensures
        action@ == key_action(mode@, key),
{
    match mode {
        InputMode::Help | InputMode::Info(_) => match key {
            Key::Char(':') => KeyAction::Switch(InputMode::Command),
            Key::Char('t') => KeyAction::Switch(InputMode::Typing),
            Key::Char('Q') => KeyAction::Quit,
            _ => KeyAction::Switch(InputMode::Normal),
        },
        InputMode::Normal => match key {
            Key::Char(':') => KeyAction::Switch(InputMode::Command),
            Key::Char('t') => KeyAction::Switch(InputMode::Typing),
            Key::Char('h') => KeyAction::Switch(InputMode::Help),
            Key::Char('Q') => KeyAction::Quit,
            _ => KeyAction::Ignore,
        },
        InputMode::Command => match key {
            Key::Esc => KeyAction::Switch(InputMode::Normal),
            Key::Enter => KeyAction::Execute,
            _ => KeyAction::Edit,
        },
        InputMode::Typing => match key {
            Key::Esc => KeyAction::Switch(InputMode::Normal),
            Key::Enter => KeyAction::Send,
            _ => KeyAction::Edit,
        },
    }
}

} // verus!

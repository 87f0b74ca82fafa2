//! The pending-input buffer of a session: `tui_input::Input`.

use tui_input::Input;
use vstd::prelude::*;

verus! {

/// `tui_input::Input`, a line of text with a cursor.
#[verifier::external_type_specification]
#[verifier::external_body]
pub struct ExInput(Input);

/// The text that `input` holds.
pub uninterp spec fn input_text(input: Input) -> Seq<char>;

/// `Input::default`: a new buffer. The contract claims that it holds no
/// text.
#[verifier::external_body]
pub(crate) fn empty_input() -> (input: Input)
    ensures
        input_text(input) == Seq::<char>::empty(),
{
    Input::default()
}

/// `Input::value`: the text of the buffer, copied into a `String`. The
/// contract names that text.
#[verifier::external_body]
pub(crate) fn input_value(input: &Input) -> (text: String)
    ensures
        text@ == input_text(*input),
{
    input.value().to_string()
}

/// `Input::reset`: puts the buffer back to its default. The contract claims
/// that no text is left in it.
#[verifier::external_body]
pub(crate) fn reset_input(input: &mut Input)
    ensures
        input_text(*final(input)) == Seq::<char>::empty(),
{
    input.reset()
}

} // verus!

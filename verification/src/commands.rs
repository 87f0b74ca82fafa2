//! The command language of the session: `quit`, `inv`, `run` and
//! `join <address>`.

use crate::text::lemma_words_are_words;
use crate::text::split_words;
use crate::text::words;
use vstd::prelude::*;
use vstd::string::StrSliceExecFns;
use vstd::string::StringExecFns;

verus! {

/// What a line of the command buffer asks for.
#[derive(Debug)]
pub enum Command {
    Quit,
    Invite,
    Run,
    Join(String),
    Unknown,
}

/// A `Command`, as plain values.
pub enum CommandView {
    Quit,
    Invite,
    Run,
    Join(Seq<char>),
    Unknown,
}

impl View for Command {
    type V = CommandView;

    open spec fn view(&self) -> CommandView {
        match self {
            Command::Quit => CommandView::Quit,
            Command::Invite => CommandView::Invite,
            Command::Run => CommandView::Run,
            Command::Join(address) => CommandView::Join(address@),
            Command::Unknown => CommandView::Unknown,
        }
    }
}

/// Whether `link` can name a room: any text that is not empty.
pub open spec fn is_join_link(link: Seq<char>) -> bool {
    link.len() > 0
}

/// The command that a line made of `words` asks for. The first word selects
/// it; `join` takes exactly one more word, the address.
pub open spec fn command_of(words: Seq<Seq<char>>) -> CommandView {
    if words.len() == 0 {
        CommandView::Unknown
    } else if words[0] == "quit"@ {
        CommandView::Quit
    } else if words[0] == "inv"@ {
        CommandView::Invite
    } else if words[0] == "run"@ {
        CommandView::Run
    } else if words[0] == "join"@ && words.len() == 2 && is_join_link(words[1]) {
        CommandView::Join(words[1])
    } else {
        CommandView::Unknown
    }
}

/// The command that the line `text` asks for.
pub open spec fn parse(text: Seq<char>) -> CommandView {
    command_of(words(text))
}

/// A line of two words that starts with `join` is always a join: a word is
/// never empty, so the second word can name a room.
pub proof fn lemma_join_takes_any_word(text: Seq<char>)
    requires
        words(text).len() == 2,
        words(text)[0] == "join"@,
    ensures
        parse(text) == CommandView::Join(words(text)[1]),
{
    lemma_words_are_words(text);
    reveal_strlit("join");
    reveal_strlit("quit");
    reveal_strlit("inv");
    reveal_strlit("run");
    assert("join"@[0] != "quit"@[0]);
}

/// Whether `word` reads `literal`.
fn reads(word: &String, literal: &str) -> (same: bool)
    ensures
        same == (word@ == literal@),
{
    let expected = String::from_str(literal);
    *word == expected
}

/// Hands `link` back if it can name a room.
pub fn verify_join_link(link: String) -> (checked: Option<String>)
    ensures
        checked == if is_join_link(link@) {
            Some(link)
        } else {
            None
        },
{
    if link.as_str().unicode_len() > 0 {
        Some(link)
    } else {
        None
    }
}

/// Reads one line of the command buffer.
pub fn parse_cmd(cmd: &str) -> (command: Command)
    ensures
        command@ == parse(cmd@),
{
    let mut words = split_words(cmd);
    if words.len() == 0 {
        return Command::Unknown;
    }
    if reads(&words[0], "quit") {
        Command::Quit
    } else if reads(&words[0], "inv") {
        Command::Invite
    } else if reads(&words[0], "run") {
        Command::Run
    } else if reads(&words[0], "join") && words.len() == 2 {
        let link = words.pop().unwrap();
        match verify_join_link(link) {
            Some(address) => Command::Join(address),
            None => Command::Unknown,
        }
    } else {
        Command::Unknown
    }
}

} // verus!

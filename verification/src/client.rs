//! The line protocol of a client connection, and the link that invites a
//! peer.

use crate::text::is_space;
use crate::text::is_whitespace;
use vstd::prelude::*;
use vstd::string::StrSliceExecFns;
use vstd::string::StringExecFns;

verus! {

/// What a line from a client asks for.
#[derive(Clone, Copy, Debug, PartialEq, Eq, Structural)]
pub enum ClientCommand {
    Join,
    PrivMsg,
    Unknown,
}

/// How many whitespace characters `s` starts with.
pub open spec fn leading_whitespace(s: Seq<char>) -> nat
    decreases s.len(),
{
    if s.len() > 0 && is_whitespace(s.first()) {
        1 + leading_whitespace(s.drop_first())
    } else {
        0
    }
}

/// How many whitespace characters `s` ends with.
pub open spec fn trailing_whitespace(s: Seq<char>) -> nat
    decreases s.len(),
{
    if s.len() > 0 && is_whitespace(s.last()) {
        1 + trailing_whitespace(s.drop_last())
    } else {
        0
    }
}

/// `s` without the whitespace at its start and at its end.
pub open spec fn trimmed(s: Seq<char>) -> Seq<char> {
    let rest = s.skip(leading_whitespace(s) as int);
    rest.take(rest.len() - trailing_whitespace(rest))
}

/// The characters of `s` before its first space: all of `s` if it has none.
pub open spec fn first_field(s: Seq<char>) -> Seq<char>
    decreases s.len(),
{
    if s.len() == 0 || s.first() == ' ' {
        Seq::empty()
    } else {
        seq![s.first()] + first_field(s.drop_first())
    }
}

/// The command of a line: the first field of the trimmed line names it.
pub open spec fn client_command(line: Seq<char>) -> ClientCommand {
    let name = first_field(trimmed(line));
    if name == "JOIN"@ {
        ClientCommand::Join
    } else if name == "PRIVMSG"@ {
        ClientCommand::PrivMsg
    } else {
        ClientCommand::Unknown
    }
}

/// `s` starts with exactly `count` whitespace characters where its first
/// `count` characters are whitespace and the next one, if any, is not.
proof fn lemma_leading_whitespace(s: Seq<char>, count: int)
    requires
        0 <= count <= s.len(),
        forall|i: int| 0 <= i < count ==> is_whitespace(#[trigger] s[i]),
        count < s.len() ==> !is_whitespace(s[count]),
    ensures
        leading_whitespace(s) == count,
    decreases count,
{
    if count > 0 {
        let rest = s.drop_first();
        assert(forall|i: int| 0 <= i < count - 1 ==> is_whitespace(#[trigger] rest[i]));
        lemma_leading_whitespace(rest, count - 1);
    }
}

/// `s` ends with exactly `count` whitespace characters where its last
/// `count` characters are whitespace and the one before them, if any, is not.
proof fn lemma_trailing_whitespace(s: Seq<char>, count: int)
    requires
        0 <= count <= s.len(),
        forall|i: int| s.len() - count <= i < s.len() ==> is_whitespace(#[trigger] s[i]),
        count < s.len() ==> !is_whitespace(s[s.len() - count - 1]),
    ensures
        trailing_whitespace(s) == count,
    decreases count,
{
    if count > 0 {
        let rest = s.drop_last();
        assert(forall|i: int|
            rest.len() - (count - 1) <= i < rest.len() ==> is_whitespace(#[trigger] rest[i]));
        lemma_trailing_whitespace(rest, count - 1);
    }
}

/// The first field of `s` is its first `count` characters where none of them
/// is a space and the next one, if any, is.
proof fn lemma_first_field(s: Seq<char>, count: int)
    requires
        0 <= count <= s.len(),
        forall|i: int| 0 <= i < count ==> #[trigger] s[i] != ' ',
        count < s.len() ==> s[count] == ' ',
    ensures
        first_field(s) == s.take(count),
    decreases count,
{
    if count > 0 {
        let rest = s.drop_first();
        assert(forall|i: int| 0 <= i < count - 1 ==> #[trigger] rest[i] != ' ');
        lemma_first_field(rest, count - 1);
    }
}

/// Reads the command of one line from a client.
pub fn parse_client_command(line: &str) -> (command: ClientCommand)
    ensures
        command == client_command(line@),
{
    let n = line.unicode_len();
    let mut start: usize = 0;
    while start < n && is_space(line.get_char(start))
        invariant
            n == line@.len(),
            start <= n,
            forall|i: int| 0 <= i < start ==> is_whitespace(#[trigger] line@[i]),
        decreases n - start,
    {
        start += 1;
    }
    let mut end: usize = n;
    while end > start && is_space(line.get_char(end - 1))
        invariant
            n == line@.len(),
            start <= end <= n,
            forall|i: int| end <= i < n ==> is_whitespace(#[trigger] line@[i]),
        decreases end,
    {
        end -= 1;
    }
    let mut stop: usize = start;
    while stop < end && line.get_char(stop) != ' '
        invariant
            n == line@.len(),
            start <= stop <= end <= n,
            forall|i: int| start <= i < stop ==> #[trigger] line@[i] != ' ',
        decreases end - stop,
    {
        stop += 1;
    }
    let name = String::from_str(line.substring_char(start, stop));
    proof {
        let rest = line@.skip(start as int);
        let visible = line@.subrange(start as int, end as int);
        lemma_leading_whitespace(line@, start as int);
        lemma_trailing_whitespace(rest, n - end);
        assert(trimmed(line@) =~= visible);
        lemma_first_field(visible, stop - start);
        assert(visible.take(stop - start) =~= line@.subrange(start as int, stop as int));
    }
    if name == String::from_str("JOIN") {
        ClientCommand::Join
    } else if name == String::from_str("PRIVMSG") {
        ClientCommand::PrivMsg
    } else {
        ClientCommand::Unknown
    }
}

/// The link that invites a peer into the room in use. No room gives one yet,
/// so it is empty.
pub fn get_invite_link() -> (link: String)
    ensures
        link@ == Seq::<char>::empty(),
{
    String::new()
}

} // verus!

//! The people whose lines a session shows.

use vstd::prelude::*;
use vstd::string::StringExecFns;

verus! {

/// The display tag of a user or of a message.
#[derive(Clone, Copy, Debug, PartialEq, Eq, Structural)]
pub enum Color {
    LightBlue,
    LightYellow,
}

/// The identity of the local user.
pub const ROOT_USER_ID: usize = 0;

/// The identity that stands for every peer on the network: the wire carries
/// no sender.
pub const NETWORK_USER_ID: usize = 1;

/// A participant of the chat.
#[derive(Debug)]
pub struct User {
    pub id: usize,
    pub name: String,
    pub color: Color,
}

/// What a `User` holds, as plain values.
pub struct UserView {
    pub id: usize,
    pub name: Seq<char>,
    pub color: Color,
}

impl View for User {
    type V = UserView;

    open spec fn view(&self) -> UserView {
        UserView { id: self.id, name: self.name@, color: self.color }
    }
}

/// The local user, as every session starts with it.
pub open spec fn root_user_view() -> UserView {
    UserView { id: ROOT_USER_ID, name: "You"@, color: Color::LightBlue }
}

impl Default for User {
    fn default() -> (user: User)
        ensures
            user@ == root_user_view(),
    {
        User { id: ROOT_USER_ID, name: String::from_str("You"), color: Color::LightBlue }
    }
}

} // verus!

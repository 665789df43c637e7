//! The roster's view of a player: a display name and a connectivity flag.

use vstd::prelude::*;

verus! {

/// A member of the session's roster. The record persists after a
/// disconnect, so a player may rejoin under the same id; only the
/// connectivity flag is cleared.
#[derive(Debug, Clone)]
pub struct Player {
    pub name: String,
    pub connected: bool,
}

/// The mathematical image of a [`Player`]: the display name as a
/// sequence of characters beside the connectivity flag.
#[verifier::ext_equal]
pub struct PlayerView {
    pub name: Seq<char>,
    pub connected: bool,
}

impl View for Player {
    type V = PlayerView;

    open spec fn view(&self) -> PlayerView {
        PlayerView { name: self.name@, connected: self.connected }
    }
}

impl Player {
    /// A freshly joined player carries the given name and is connected.
    pub fn new(name: String) -> (p: Player)
        ensures
            p@ == (PlayerView { name: name@, connected: true }),
    {
        Player { name, connected: true }
    }
}

} // verus!

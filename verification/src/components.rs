//! The values the surrounding user interface exchanges with the game: the
//! query that selects a session and role, and the messages of the driving
//! component's event loop.

use vstd::prelude::*;

verus! {

/// The parameters a game page is opened with: which session to join and
/// whether this peer is the authoritative host.
pub struct GameQuery {
    pub session_id: String,
    pub is_host: bool,
}

impl GameQuery {
    /// Builds a query from its parts.
    pub fn new(session_id: String, is_host: bool) -> (r: Self)
        ensures
            r.session_id == session_id,
            r.is_host == is_host,
    {
        GameQuery { session_id, is_host }
    }
}

/// The events driving the game component: copying the invite link, the
/// one-time game setup, and the per-frame tick.
pub enum GameMsg {
    CopyLink,
    Init,
    Tick,
}

} // verus!

//! The role-independent game interface: a peer is either the authoritative
//! host or a displaying client, and the surrounding event loop drives both
//! through the same three hooks.

use vstd::prelude::*;
use crate::client::ClientGame;
use crate::host::{check_timer_spec, tick_spec, HostGame};

verus! {

/// What the per-frame driver needs of a game, host or client: a one-time
/// start hook, a per-frame tick, and the end-of-match test that stops the
/// loop. `inv` is the well-formedness every tick preserves.
pub trait Game {
    /// The well-formedness this game's ticks rely on and preserve.
    spec fn inv(&self) -> bool;

    /// One-time start-of-game hook.
    fn init(&mut self)
        requires
            old(self).inv(),
        ensures
            final(self).inv(),
    ;

    /// One frame of work.
    fn tick(&mut self)
        requires
            old(self).inv(),
        ensures
            final(self).inv(),
    ;

    /// Whether the match is over, stopping the driver.
    fn ended(&self) -> bool;
}

impl Game for HostGame {
    /// A host game is well formed in the sense of [`HostGame::wf`].
    open spec fn inv(&self) -> bool {
        self.wf()
    }

    /// Nothing to do: the host's world is complete from construction.
    /// (Accepting connections is the surrounding application's work.)
    fn init(&mut self)
        ensures
            *final(self) == *old(self),
    {
    }

    /// One authoritative frame: the match-state check, then the simulation
    /// tick. (Broadcasting is a separate step, `HostGame::host_send_state`.)
    fn tick(&mut self)
        ensures
            ({
                let c = check_timer_spec(old(self).roster(), old(self).host_player,
                    old(self).ball, old(self).arbiter);
                let t = tick_spec(c.0, c.1, c.2);
                &&& final(self).roster() == t.0
                &&& final(self).host_player == t.1
                &&& final(self).ball == t.2
                &&& final(self).arbiter == c.3
            }),
            final(self).edges == old(self).edges,
            final(self).goal_posts == old(self).goal_posts,
            final(self).ended_announced == old(self).ended_announced,
    {
        self.check_timer();
        self.tick();
    }

    /// Whether the arbiter ended the match.
    fn ended(&self) -> (r: bool)
        ensures
            r == self.arbiter.game_ended,
    {
        self.get_game_ended()
    }
}

impl Game for ClientGame {
    /// A client view has no internal invariant: every message is applied
    /// verbatim.
    open spec fn inv(&self) -> bool {
        true
    }

    /// Nothing to do: the client starts empty and fills on the first
    /// snapshot. (Subscribing to the host is the surrounding application's
    /// work.)
    fn init(&mut self)
        ensures
            *final(self) == *old(self),
    {
    }

    /// One display frame: the celebration timer counts down.
    fn tick(&mut self)
        ensures
            old(self).timer == 0 ==> *final(self) == (ClientGame {
                red_scored: false,
                blue_scored: false,
                ..*old(self)
            }),
            old(self).timer > 0 ==> *final(self) == (ClientGame {
                timer: (old(self).timer - 1) as u32,
                ..*old(self)
            }),
    {
        self.tick();
    }

    /// Whether the host announced the end of the match.
    fn ended(&self) -> (r: bool)
        ensures
            r == self.game_ended,
    {
        self.game_ended
    }
}

/// A peer's game, by role.
pub enum FootballersGame {
    Host(HostGame),
    Client(ClientGame),
}

impl Game for FootballersGame {
    /// The wrapped game's invariant.
    open spec fn inv(&self) -> bool {
        match self {
            FootballersGame::Host(game) => game.inv(),
            FootballersGame::Client(game) => game.inv(),
        }
    }

    /// Starts the wrapped game, which changes nothing.
    fn init(&mut self)
        ensures
            (*old(self)) matches FootballersGame::Host(g) ==> *final(self) == (
            FootballersGame::Host(g)),
            (*old(self)) matches FootballersGame::Client(c) ==> *final(self) == (
            FootballersGame::Client(c)),
    {
        match self {
            FootballersGame::Host(game) => game.init(),
            FootballersGame::Client(game) => game.init(),
        }
    }

    /// Ticks the wrapped game: a host runs the match-state check and the
    /// simulation tick; a client counts its celebration timer down.
    fn tick(&mut self)
        ensures
            (*old(self)) matches FootballersGame::Host(g) ==> (*final(self) matches
                FootballersGame::Host(g2) && {
                let c = check_timer_spec(g.roster(), g.host_player, g.ball, g.arbiter);
                let t = tick_spec(c.0, c.1, c.2);
                &&& g2.roster() == t.0
                &&& g2.host_player == t.1
                &&& g2.ball == t.2
                &&& g2.arbiter == c.3
                &&& g2.edges == g.edges
                &&& g2.goal_posts == g.goal_posts
                &&& g2.ended_announced == g.ended_announced
            }),
            (*old(self)) matches FootballersGame::Client(c) ==> (*final(self) matches
                FootballersGame::Client(c2) && {
                &&& c.timer == 0 ==> c2 == (ClientGame {
                    red_scored: false,
                    blue_scored: false,
                    ..c
                })
                &&& c.timer > 0 ==> c2 == (ClientGame { timer: (c.timer - 1) as u32, ..c })
            }),
    {
        match self {
            FootballersGame::Host(game) => Game::tick(game),
            FootballersGame::Client(game) => Game::tick(game),
        }
    }

    /// Whether the wrapped game ended.
    fn ended(&self) -> (r: bool)
        ensures
            self matches FootballersGame::Host(g) ==> r == g.arbiter.game_ended,
            self matches FootballersGame::Client(c) ==> r == c.game_ended,
    {
        match self {
            FootballersGame::Host(game) => Game::ended(game),
            FootballersGame::Client(game) => Game::ended(game),
        }
    }
}

} // verus!

//! Authoritative simulation core of a two-team, physics-based ball game.
//!
//! One peer (the host) owns the only true copy of the world: it applies
//! player inputs, steps the simulation, resolves scoring, and broadcasts
//! results to clients, who only contribute directional/shoot intent.
//! This crate holds that core — pitch geometry, the per-tick update
//! (input application, speed governance, shooting, goal detection),
//! the match-state arbiter, and the host/client message protocol — over
//! integer coordinates, so that every rule is stated and proved.
//! Rendering, keyboard capture, peer connections, and the rigid-body
//! engine are external collaborators kept outside the library.

pub mod arbiter;
pub mod client;
pub mod components;
pub mod constants;
pub mod entities;
pub mod game;
pub mod geometry;
pub mod host;
pub mod input;
pub mod laws;
pub mod math;
pub mod protocol;

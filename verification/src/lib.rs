//! Verified core of a 2D survival arcade game: the mode state machine, the
//! experience and level rules, enemy spawning policy, nearest-target fire
//! control and the collision resolver, all on plain integer values.

pub mod assets;
pub mod components;
pub mod events;
pub mod fire;
pub mod movement;
pub mod session;
pub mod states;
pub mod tutorial;
pub mod ui;

//! Game-loop core of a side-scrolling "flap to ascend" arcade game: the phase
//! machine, the scrolling tile pools, the obstacle spawner, the player
//! controller and the contact resolver that turns physics contacts into score
//! and death.
//!
//! Units: positions are integers in thousandths of a world unit, velocities in
//! thousandths of a world unit per second, time in milliseconds and angles in
//! thousandths of a degree.

pub mod animation;
pub mod state;
pub mod controller;
pub mod tiles;
pub mod pipes;
pub mod score;
pub mod run;

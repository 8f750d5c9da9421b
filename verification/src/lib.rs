//! A falling-sand world: a square grid of materials, a tick that lets sand
//! fall and water flow, and a round brush to put material into the grid.

pub mod grid;
pub mod paintbrush;
pub mod physics;
pub mod text;
pub mod world;

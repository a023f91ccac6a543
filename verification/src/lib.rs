//! A small turn-based tile game: actors move on a grid of world tiles,
//! bump into walls, doors and each other, and fight when they collide.
//! The game rules live here with their contracts; the terminal front end
//! that draws the grid and reads keys stands apart from them.

pub mod types;
pub mod text;
pub mod world;
pub mod actor;
pub mod decide;
pub mod act;
pub mod turn;
pub mod update;
pub mod setup;
pub mod laws;

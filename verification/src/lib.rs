//! A maze game on a grid of tiles, without the terminal around it.
//!
//! - `grid`: the tiles and the rectangular grid that holds them.
//! - `maze`: the generation of a maze on a grid: the wall ring and the lattice
//!   of rooms, the carving, the goal.
//! - `game`: a game in progress: the grid, the player, the win flag, and the
//!   rule by which the player moves.
//! - `render`: the colour of each cell, as commands for whoever paints.
//! - `session`: what a key means and what each intent makes of a session.
//!
//! Nothing here reads a key or paints a cell. Every function says in its
//! contract what it returns or changes, and the general facts about mazes,
//! moves and sessions are stated and proved as lemmas beside them.

pub mod grid;
pub mod maze;
pub mod game;
pub mod render;
pub mod session;

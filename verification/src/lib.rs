//! Simulation core of a side-scrolling platformer.
//!
//! The crate holds the collision and behaviour rules of the game: the
//! axis-aligned hit test, the reactions of the player, the mobs and the
//! interactive blocks to a resolved collision, and the frame driver that
//! runs them in a fixed three-phase order. Rendering, input and timing are
//! left to the program around it, which hands in plain values and reads the
//! resolved positions and animation frames back.
//!
//! All coordinates are fixed-point integers, see [`units`]. Every function
//! that moves something says in its contract what the thing is afterwards,
//! by way of a spec function of the same state.
//!
//! - [`units`]: the fixed-point units, the constants of motion, the grid.
//! - [`collision`]: rectangles, the hit test, and the behaviour protocol.
//! - [`spirit`], [`mobs`]: the player, the goombas and the troopas.
//! - [`objects`]: mystery blocks, the goal, pipes, the objects of a tile.
//! - [`worlds`], [`background`]: the tiles and rooms, and the level.
//! - [`game`]: blocks, and the game with its frame driver.
//! - [`frame`]: the bookkeeping of one frame.
//! - [`meetings`]: what a whole frame makes of a player that meets one
//!   thing.
//! - [`render`]: what the renderer has to know of an object, and the text
//!   of the status line.

pub mod units;
pub mod collision;
pub mod objects;
pub mod render;
pub mod game;
pub mod spirit;
pub mod mobs;
pub mod frame;
pub mod meetings;
pub mod background;
pub mod worlds;

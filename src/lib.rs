//! Simulation of a programmable mining robot ("turtle") acting on a sparse
//! voxel world, with a uniform `(success, payload)` reply shape for script
//! hosts that drive it.
//!
//! - [`world`]: coordinates, facings and the sparse block store.
//! - [`block`], [`blocks`], [`item`]: identities compared by their text.
//! - [`dig_rules`]: the tool/block table that digging consults.
//! - [`turtle`]: the turtle's record and its operations.
//! - [`bridge`]: the session state and the replies scripts receive.
//! - [`simple`]: a compact simulator over a fixed palette of block kinds.

pub mod block;
pub mod blocks;
pub mod bridge;
pub mod dig_rules;
pub mod item;
pub mod simple;
pub mod turtle;
pub mod world;

pub use block::{Block, BlockId};
pub use bridge::{SimulatorState, TurtleResultExt};
pub use item::{ItemId, ItemStack};
pub use turtle::{
    InspectData, InteractDirection, ItemDetail, Turtle, TurtleDigError, TurtleInspectError,
    TurtleKind, TurtleMoveError, TurtlePlaceError, TurtleSide,
};
pub use world::{Direction, Position, World};

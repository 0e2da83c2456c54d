//! Elevation tiles for terrain models: degree-minute-second coordinates,
//! dataset and tile addressing, the tile acquisition state machine and the
//! elevation grid.
//!
//! The library touches no file and no network. A request for a grid is a
//! state machine: it says what to ask of the world, is told the answer, and
//! moves on. Whoever drives it hands the way it ended to `get_1dem`, which
//! makes a grid only of a request that went through.
//!
//! Angles are exact. The unit of every angle in this crate is one hundredth of
//! an arc-second, so a degree is 360 000 units and no value is ever rounded.

pub mod acquisition;
pub mod coordinate;
pub mod dataset;
pub mod decimal;
pub mod dem;
pub mod error;
pub mod request;
pub mod tile;

pub use acquisition::{AcquisitionState, Action};
pub use coordinate::{Coordinate, Location};
pub use dataset::Dataset;
pub use dem::{Dem, DemIndex};
pub use error::DemError;
pub use request::Request;
pub use tile::Tile;

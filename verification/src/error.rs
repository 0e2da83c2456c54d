use vstd::prelude::*;

verus! {

/// What can go wrong between a pair of corner points and an elevation grid.
/// None of these is recovered from: the request that met one is given up.
#[derive(Clone, Copy, Debug, PartialEq, Eq, Structural)]
pub enum DemError {
    /// A decimal angle could not be read.
    InvalidCoordinate,
    /// The dataset's catalog does not list the tile.
    TileUnavailable,
    /// The archive of a tile could not be downloaded.
    FetchFailed,
    /// The archive of a tile could not be unpacked.
    ExtractFailed,
    /// A grid was read at a row or column that it does not have.
    IndexOutOfBounds,
}

} // verus!

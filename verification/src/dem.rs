use nalgebra::DMatrix;
use vstd::prelude::*;
use crate::coordinate::{Coordinate, Location};
use crate::dataset::{dataset_resolution, Dataset};
use crate::error::DemError;
use crate::tile::{resolve_tiles, Tile};

verus! {

/// The samples of a grid, held in a dynamically sized matrix of nalgebra.
#[verifier::external_body]
#[derive(Debug)]
pub struct Raster {
    cells: DMatrix<i16>,
}

/// The samples that a raster holds, each under its row and its column, both
/// counted from zero. The keys are the places of the matrix and no others.
pub uninterp spec fn raster_cells(raster: Raster) -> Map<(int, int), i16>;

/// The places of a grid of `rows` rows and `cols` columns.
pub open spec fn grid_places(rows: nat, cols: nat) -> Set<(int, int)> {
    Set::new(|place: (int, int)| 0 <= place.0 < rows && 0 <= place.1 < cols)
}

/// Calls `DMatrix::from_row_slice` of nalgebra, which fills a matrix of `rows`
/// rows and `cols` columns from samples given row by row, and panics unless
/// there are as many samples as places. Trusted: that the matrix has those
/// places and holds sample `row * cols + col` at `(row, col)`.
#[verifier::external_body]
fn raster_from_row_slice(rows: usize, cols: usize, samples: &[i16]) -> (raster: Raster)
    requires
        samples@.len() == rows * cols,
    ensures
        raster_cells(raster).dom() == grid_places(rows as nat, cols as nat),
        forall|row: int, col: int|
            0 <= row < rows && 0 <= col < cols ==> #[trigger] raster_cells(raster)[(row, col)]
                == samples@[row * cols + col],
{
    Raster { cells: DMatrix::from_row_slice(rows, cols, samples) }
}

/// Reads the matrix through `Index<(usize, usize)>` of nalgebra's `Matrix`,
/// which panics for a row or a column that the matrix does not have. Trusted:
/// that the sample at a place of the matrix is returned.
#[verifier::external_body]
fn raster_at(raster: &Raster, row: usize, col: usize) -> (sample: i16)
    requires
        raster_cells(*raster).dom().contains((row as int, col as int)),
    ensures
        sample == raster_cells(*raster)[(row as int, col as int)],
{
    raster.cells[(row, col)]
}

/// A row and a column of a grid, both counted from zero.
pub type DemIndex = (usize, usize);

/// A digital elevation model: a grid of elevation samples whose first sample
/// lies at a known location and whose neighbours lie one resolution apart.
/// Rows run southward and columns eastward.
#[derive(Debug)]
pub struct Dem {
    data: Raster,
    res: Coordinate,
    loc: Location,
    size: (usize, usize),
}

impl Dem {
    #[verifier::type_invariant]
    spec fn dimensions_agree(self) -> bool {
        raster_cells(self.data).dom() == grid_places(self.size.0 as nat, self.size.1 as nat)
    }

    /// How many rows the grid has.
    pub closed spec fn rows(self) -> nat {
        self.size.0 as nat
    }

    /// How many columns the grid has.
    pub closed spec fn cols(self) -> nat {
        self.size.1 as nat
    }

    /// The elevation at a row and a column of the grid.
    pub closed spec fn sample(self, row: int, col: int) -> i16 {
        raster_cells(self.data)[(row, col)]
    }

    /// Where the sample of row 0 and column 0 lies.
    pub closed spec fn origin(self) -> Location {
        self.loc
    }

    /// The angle between two neighbouring samples.
    pub closed spec fn resolution(self) -> Coordinate {
        self.res
    }

    /// Latitude and longitude of the sample at `row` and `col`, in units: one
    /// resolution south of the origin for each row, one east for each column.
    pub open spec fn spec_position(self, row: int, col: int) -> (int, int) {
        (
            self.origin().lat.decimal() - row * self.resolution().decimal(),
            self.origin().lon.decimal() + col * self.resolution().decimal(),
        )
    }

    /// A grid of `rows` rows and `cols` columns whose samples are given row by
    /// row, with its first sample at `loc` and its samples `res` apart; `None`
    /// unless there are as many samples as places.
    pub fn from_samples(
        loc: Location,
        res: Coordinate,
        rows: usize,
        cols: usize,
        samples: &[i16],
    ) -> (dem: Option<Dem>)
        ensures
            dem.is_some() <==> samples@.len() == rows * cols,
            dem matches Some(d) ==> {
                &&& d.rows() == rows
                &&& d.cols() == cols
                &&& d.origin() == loc
                &&& d.resolution() == res
                &&& forall|row: int, col: int|
                    0 <= row < rows && 0 <= col < cols ==> #[trigger] d.sample(row, col)
                        == samples@[row * cols + col]
            },
    {
        let given = samples.len();
        match rows.checked_mul(cols) {
            Some(places) => {
                if places == given {
                    Some(Dem::filled(loc, res, rows, cols, samples))
                } else {
                    None
                }
            },
            None => None,
        }
    }

    fn filled(loc: Location, res: Coordinate, rows: usize, cols: usize, samples: &[i16]) -> (dem: Dem)
        requires
            samples@.len() == rows * cols,
        ensures
            dem.rows() == rows,
            dem.cols() == cols,
            dem.origin() == loc,
            dem.resolution() == res,
            forall|row: int, col: int|
                0 <= row < rows && 0 <= col < cols ==> #[trigger] dem.sample(row, col)
                    == samples@[row * cols + col],
    {
        Dem { data: raster_from_row_slice(rows, cols, samples), res, loc, size: (rows, cols) }
    }

    /// Rows and columns of the grid.
    pub fn size(&self) -> (size: (usize, usize))
        ensures
            size.0 == self.rows(),
            size.1 == self.cols(),
    {
        self.size
    }

    /// The angle between two neighbouring samples.
    pub fn res(&self) -> (res: Coordinate)
        ensures
            res == self.resolution(),
    {
        self.res
    }

    /// Where the sample of row 0 and column 0 lies.
    pub fn loc(&self) -> (loc: Location)
        ensures
            loc == self.origin(),
    {
        self.loc
    }

    /// The elevation at a row and a column; `IndexOutOfBounds` for a row or a
    /// column that the grid does not have.
    pub fn index(&self, index: DemIndex) -> (elevation: Result<i16, DemError>)
        ensures
            elevation == if index.0 < self.rows() && index.1 < self.cols() {
                Ok::<i16, DemError>(self.sample(index.0 as int, index.1 as int))
            } else {
                Err::<i16, DemError>(DemError::IndexOutOfBounds)
            },
    {
        proof {
            use_type_invariant(self);
        }
        if index.0 < self.size.0 && index.1 < self.size.1 {
            assert(grid_places(self.size.0 as nat, self.size.1 as nat).contains(
                (index.0 as int, index.1 as int),
            ));
            Ok(raster_at(&self.data, index.0, index.1))
        } else {
            Err(DemError::IndexOutOfBounds)
        }
    }

    /// Latitude and longitude of the sample at `row` and `col`, in units. The
    /// result is exact for every row and column, of the grid or beyond it.
    pub fn position(&self, row: usize, col: usize) -> (position: (i128, i128))
        ensures
            position.0 == self.spec_position(row as int, col as int).0,
            position.1 == self.spec_position(row as int, col as int).1,
    {
        let step: i128 = self.res.to_decimal() as i128;
        let lat: i128 = self.loc.lat.to_decimal() as i128;
        let lon: i128 = self.loc.lon.to_decimal() as i128;
        assert(-0x1_0000_0000_0000 < step < 0x1_0000_0000_0000);
        assert(-0x1_0000_0000_0000_0000_0000_0000_0000 < row * step
            < 0x1_0000_0000_0000_0000_0000_0000_0000) by (nonlinear_arith)
            requires
                0 <= row <= 0xffff_ffff_ffff_ffff,
                -0x1_0000_0000_0000 < step < 0x1_0000_0000_0000,
        ;
        assert(-0x1_0000_0000_0000_0000_0000_0000_0000 < col * step
            < 0x1_0000_0000_0000_0000_0000_0000_0000) by (nonlinear_arith)
            requires
                0 <= col <= 0xffff_ffff_ffff_ffff,
                -0x1_0000_0000_0000 < step < 0x1_0000_0000_0000,
        ;
        (lat - (row as i128) * step, lon + (col as i128) * step)
    }
}

/// Why a request for the one arc-second grid between two corner points
/// fails, if it does: a corner tile that the catalog does not list comes
/// first, then the error that ended the acquisition of the corner tiles.
pub open spec fn request_failure(
    point_1: Location,
    point_2: Location,
    acquired: Result<(), DemError>,
) -> Option<DemError> {
    if !Tile::containing(point_1, Dataset::Dem1).listed() || !Tile::containing(
        point_2,
        Dataset::Dem1,
    ).listed() {
        Some(DemError::TileUnavailable)
    } else {
        match acquired {
            Ok(_) => None,
            Err(error) => Some(error),
        }
    }
}

/// The one arc-second grid between two corner points, once the acquisition
/// of both corner tiles has ended as `acquired` says.
///
/// There is a grid only if the catalog lists the tiles of both corners and
/// their acquisition succeeded. A corner whose tile is not listed gives
/// `TileUnavailable`, whatever `acquired` holds; a failed acquisition gives
/// its own error. No grid is made of a part of the request.
///
/// The grid has three rows and two columns of sea-level elevation, with the
/// first sample at `point_1`. The files of the tiles are not read.
pub fn get_1dem(point_1: &Location, point_2: &Location, acquired: Result<(), DemError>) -> (dem:
    Result<Dem, DemError>)
    ensures
        dem.is_ok() <==> Tile::containing(*point_1, Dataset::Dem1).listed() && Tile::containing(
            *point_2,
            Dataset::Dem1,
        ).listed() && acquired.is_ok(),
        dem matches Err(error) ==> request_failure(*point_1, *point_2, acquired) == Some(error),
        dem matches Ok(d) ==> {
            &&& d.rows() == 3
            &&& d.cols() == 2
            &&& d.origin() == *point_1
            &&& d.resolution() == (Coordinate { deg: 0, min: 0, sec: 100 })
            &&& forall|row: int, col: int|
                0 <= row < 3 && 0 <= col < 2 ==> #[trigger] d.sample(row, col) == 0
        },
{
    match resolve_tiles(Dataset::Dem1, point_1, point_2) {
        Err(error) => Err(error),
        Ok(_) => match acquired {
            Err(error) => Err(error),
            Ok(_) => {
                let samples: [i16; 6] = [0, 0, 0, 0, 0, 0];
                let res = dataset_resolution(&Dataset::Dem1);
                Ok(Dem::filled(*point_1, res, 3, 2, samples.as_slice()))
            },
        },
    }
}

} // verus!

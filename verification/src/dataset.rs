use vstd::prelude::*;
use vstd::string::StringExecFns;
use crate::coordinate::{Coordinate, UNITS_PER_SECOND};

verus! {

/// The elevation datasets, named by the arc-seconds between two samples.
#[derive(Clone, Copy, Debug, PartialEq, Eq, Structural)]
pub enum Dataset {
    Dem1,
    Dem3,
    Dem15,
}

/// The tiles that exist at one arc-second: the whole degrees of latitude and
/// of longitude of each, and the name of its archive where that is not the
/// tile's own.
pub const DEM1_TILES: [((i16, i16), Option<&'static str>); 39] = [
    // Central Spain
    ((40, -6), None),
    ((40, -5), None),
    ((40, -4), None),
    // Alps
    ((43, 5), None),
    ((43, 6), None),
    ((43, 7), None),
    ((44, 5), None),
    ((44, 6), None),
    ((44, 7), None),
    ((45, 5), None),
    ((45, 6), None),
    ((45, 7), None),
    ((45, 8), None),
    ((45, 9), None),
    ((45, 10), None),
    ((45, 11), None),
    ((46, 5), None),
    ((46, 6), None),
    ((46, 7), None),
    ((46, 8), None),
    ((45, 9), None),
    ((46, 10), None),
    ((46, 11), None),
    ((45, 12), None),
    ((46, 13), None),
    ((46, 14), None),
    ((46, 15), None),
    ((47, 6), None),
    ((47, 7), None),
    ((47, 8), None),
    ((46, 9), None),
    ((47, 10), None),
    ((47, 11), None),
    ((46, 12), None),
    ((47, 13), None),
    ((47, 14), None),
    ((47, 15), None),
    // Slovakia/Poland
    ((49, 19), None),
    ((49, 20), None),
];

impl Dataset {
    /// Arc-seconds between two neighbouring samples.
    pub open spec fn arc_seconds(self) -> int {
        match self {
            Dataset::Dem1 => 1,
            Dataset::Dem3 => 3,
            Dataset::Dem15 => 15,
        }
    }

    /// Where the archives of the dataset are downloaded from.
    pub open spec fn url(self) -> Seq<char> {
        "http://viewfinderpanoramas.org/"@ + match self {
            Dataset::Dem1 => "dem1/"@,
            Dataset::Dem3 => "dem3/"@,
            Dataset::Dem15 => "DEM/TIF15/"@,
        }
    }

    /// The tiles that the dataset is known to have, as pairs of latitude and
    /// longitude. Only the one arc-second dataset has a list.
    pub open spec fn catalog(self) -> Seq<(i16, i16)> {
        match self {
            Dataset::Dem1 => Seq::new(
                DEM1_TILES@.len(),
                |i: int| DEM1_TILES@[i].0,
            ),
            Dataset::Dem3 => Seq::empty(),
            Dataset::Dem15 => Seq::empty(),
        }
    }

    /// The catalog lists a tile at these whole degrees.
    pub open spec fn lists(self, lat: i16, lon: i16) -> bool {
        self.catalog().contains((lat, lon))
    }
}

/// The address under which the archives of `dataset` lie.
pub fn dataset_url(dataset: &Dataset) -> (url: String)
    ensures
        url@ == dataset.url(),
{
    let base_url = "http://viewfinderpanoramas.org/";
    let end_url = match *dataset {
        Dataset::Dem1 => "dem1/",
        Dataset::Dem3 => "dem3/",
        Dataset::Dem15 => "DEM/TIF15/",
    };
    String::from_str(base_url).concat(end_url)
}

/// The angle between two neighbouring samples of `dataset`: one, three or
/// fifteen arc-seconds.
pub fn dataset_resolution(dataset: &Dataset) -> (res: Coordinate)
    ensures
        res.deg == 0,
        res.min == 0,
        res.sec == dataset.arc_seconds() * UNITS_PER_SECOND,
        res.decimal() == dataset.arc_seconds() * UNITS_PER_SECOND,
        res.well_formed(),
{
    match *dataset {
        Dataset::Dem1 => Coordinate { deg: 0, min: 0, sec: 100 },
        Dataset::Dem3 => Coordinate { deg: 0, min: 0, sec: 300 },
        Dataset::Dem15 => Coordinate { deg: 0, min: 0, sec: 1_500 },
    }
}

/// Whether the catalog of `dataset` lists a tile at these whole degrees. A
/// tile that it does not list cannot be had: asking for it is an error, and
/// nothing is downloaded to find out.
pub fn is_available(dataset: &Dataset, lat: i16, lon: i16) -> (listed: bool)
    ensures
        listed == dataset.lists(lat, lon),
{
    match *dataset {
        Dataset::Dem1 => {
            let mut i: usize = 0;
            while i < 39
                invariant
                    i <= 39,
                    *dataset == Dataset::Dem1,
                    forall|j: int| 0 <= j < i ==> (#[trigger] DEM1_TILES@[j]).0 != (lat, lon),
                decreases 39 - i,
            {
                let key = DEM1_TILES[i].0;
                if key.0 == lat && key.1 == lon {
                    assert(dataset.catalog()[i as int] == (lat, lon));
                    return true;
                }
                i = i + 1;
            }
            assert forall|j: int| 0 <= j < dataset.catalog().len() implies dataset.catalog()[j] != (
                lat,
                lon,
            ) by {
                assert(DEM1_TILES@[j].0 != (lat, lon));
            }
            false
        },
        Dataset::Dem3 => false,
        Dataset::Dem15 => false,
    }
}

} // verus!

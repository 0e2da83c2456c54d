use vstd::prelude::*;
use vstd::string::{StrSliceExecFns, StringExecFns};
use crate::coordinate::Location;
use crate::dataset::{is_available, Dataset};
use crate::decimal::{
    append_padded, append_signed, decimal_digits, digit_value, digits_value, is_digit,
    lemma_padded_digits, pad_left, signed_decimal,
};
use crate::error::DemError;

verus! {

/// One unit of elevation data: the part of `dataset` that covers the
/// locations whose whole degrees are `lat` and `lon`. The three together are
/// the key of the tile.
#[derive(Clone, Copy, Debug, PartialEq, Eq, Structural)]
pub struct Tile {
    pub dataset: Dataset,
    pub lat: i16,
    pub lon: i16,
}

/// The largest number of degrees that a file name may write.
pub const MAX_DEGREES: u32 = 32_768;

/// The magnitude of `v`.
pub open spec fn magnitude(v: int) -> nat {
    if v < 0 {
        (-v) as nat
    } else {
        v as nat
    }
}

/// The file name of a tile of the one arc-second dataset: `N` or `S`, the
/// degrees of latitude on two digits at least, `E` or `W`, the degrees of
/// longitude on three digits at least, a dot and the extension. North and
/// east are the positive degrees; zero goes with south and with west.
pub open spec fn dem1_filename(lat: int, lon: int, ext: Seq<char>) -> Seq<char> {
    seq![if lat > 0 {
        'N'
    } else {
        'S'
    }] + pad_left(decimal_digits(magnitude(lat)), 2, '0') + seq![if lon > 0 {
        'E'
    } else {
        'W'
    }] + pad_left(decimal_digits(magnitude(lon)), 3, '0') + seq!['.'] + ext
}

/// `dir` and the relative `name` as one path, with one `/` between the two
/// unless `dir` is empty or brings its own.
pub open spec fn join_path(dir: Seq<char>, name: Seq<char>) -> Seq<char> {
    if dir.len() == 0 {
        name
    } else if dir.last() == '/' {
        dir + name
    } else {
        dir + seq!['/'] + name
    }
}

/// Where the digits that start at `from` end: the first place at or after
/// `from` that holds no digit, or the end of `s`.
pub open spec fn digit_run(s: Seq<char>, from: int) -> int
    decreases s.len() - from,
{
    if 0 <= from < s.len() && is_digit(s[from]) {
        digit_run(s, from + 1)
    } else {
        from
    }
}

/// The tile key that a file name writes, whatever its extension: a
/// hemisphere letter, digits, a second hemisphere letter, digits and a dot.
/// `None` for any other text, and where the degrees do not fit a tile key.
pub open spec fn parse_filename(name: Seq<char>) -> Option<(i16, i16)> {
    let lat_end = digit_run(name, 1);
    let lon_end = digit_run(name, lat_end + 1);
    if name.len() >= 1 && (name[0] == 'N' || name[0] == 'S') && lat_end > 1 && lat_end < name.len()
        && (name[lat_end] == 'E' || name[lat_end] == 'W') && lon_end > lat_end + 1 && lon_end
        < name.len() && name[lon_end] == '.' {
        let lat_digits = digits_value(name.subrange(1, lat_end));
        let lon_digits = digits_value(name.subrange(lat_end + 1, lon_end));
        let lat = if name[0] == 'N' {
            lat_digits as int
        } else {
            -(lat_digits as int)
        };
        let lon = if name[lat_end] == 'E' {
            lon_digits as int
        } else {
            -(lon_digits as int)
        };
        if i16::MIN <= lat <= i16::MAX && i16::MIN <= lon <= i16::MAX {
            Some((lat as i16, lon as i16))
        } else {
            None
        }
    } else {
        None
    }
}

impl Tile {
    /// The tile that holds `location` in `dataset`.
    pub open spec fn containing(location: Location, dataset: Dataset) -> Tile {
        Tile { dataset, lat: location.lat.deg, lon: location.lon.deg }
    }

    /// The file name of the tile with extension `ext`. Only the one
    /// arc-second dataset names its files; the others have the empty name.
    pub open spec fn filename(self, ext: Seq<char>) -> Seq<char> {
        match self.dataset {
            Dataset::Dem1 => dem1_filename(self.lat as int, self.lon as int, ext),
            Dataset::Dem3 => Seq::empty(),
            Dataset::Dem15 => Seq::empty(),
        }
    }

    /// Where the file of the tile with extension `ext` lies under `data_dir`.
    pub open spec fn path(self, data_dir: Seq<char>, ext: Seq<char>) -> Seq<char> {
        join_path(data_dir, self.filename(ext))
    }

    /// The catalog of the tile's dataset lists the tile.
    pub open spec fn listed(self) -> bool {
        self.dataset.lists(self.lat, self.lon)
    }

    /// The tile as it is written in messages.
    pub open spec fn spec_render(self) -> Seq<char> {
        "Tile::[lat: "@ + signed_decimal(self.lat as int) + ", lon: "@ + signed_decimal(
            self.lon as int,
        ) + "]"@
    }

    /// Writes the tile for a message, such as `Tile::[lat: 45, lon: 6]`.
    pub fn render(&self) -> (text: String)
        ensures
            text@ == self.spec_render(),
    {
        let mut text = String::from_str("Tile::[lat: ");
        append_signed(&mut text, self.lat as i32, 0);
        text.append(", lon: ");
        append_signed(&mut text, self.lon as i32, 0);
        text.append("]");
        text
    }
}

/// The tile of `dataset` that holds `location`: its key is the whole degrees
/// of the latitude and of the longitude. Minutes and seconds play no part.
pub fn tile_from_location(location: &Location, dataset: Dataset) -> (tile: Tile)
    ensures
        tile == Tile::containing(*location, dataset),
{
    Tile { dataset, lat: location.lat.deg, lon: location.lon.deg }
}

/// Whether the catalog of the tile's dataset lists the tile.
pub fn tile_available(tile: &Tile) -> (listed: bool)
    ensures
        listed == tile.listed(),
{
    is_available(&tile.dataset, tile.lat, tile.lon)
}

fn degrees_magnitude(v: i16) -> (m: u32)
    ensures
        m == magnitude(v as int),
        m <= MAX_DEGREES,
{
    let wide: i32 = v as i32;
    if wide < 0 {
        (-wide) as u32
    } else {
        wide as u32
    }
}

/// The file name of `tile` in the one arc-second dataset, with extension
/// `ext`: `N45E006.hgt` for the tile at 45 and 6 degrees.
pub fn dem1_tile_filename(tile: &Tile, ext: &str) -> (name: String)
    ensures
        name@ == dem1_filename(tile.lat as int, tile.lon as int, ext@),
{
    proof {
        reveal_strlit("N");
        reveal_strlit("S");
        reveal_strlit("E");
        reveal_strlit("W");
        reveal_strlit(".");
    }
    let mut name = String::from_str(
        if tile.lat > 0 {
            "N"
        } else {
            "S"
        },
    );
    append_padded(&mut name, degrees_magnitude(tile.lat), 2);
    name.append(
        if tile.lon > 0 {
            "E"
        } else {
            "W"
        },
    );
    append_padded(&mut name, degrees_magnitude(tile.lon), 3);
    name.append(".");
    name.append(ext);
    assert(name@ =~= dem1_filename(tile.lat as int, tile.lon as int, ext@));
    name
}

/// The file name of `tile` with extension `ext`, as its dataset names files.
pub fn tile_filename(tile: &Tile, ext: &str) -> (name: String)
    ensures
        name@ == tile.filename(ext@),
{
    match tile.dataset {
        Dataset::Dem1 => dem1_tile_filename(tile, ext),
        Dataset::Dem3 => String::new(),
        Dataset::Dem15 => String::new(),
    }
}

/// The path of the file of `tile` with extension `ext` under the directory
/// `data_dir`, which is where the data of every tile is kept.
pub fn tile_path(data_dir: &str, tile: &Tile, ext: &str) -> (path: String)
    ensures
        path@ == tile.path(data_dir@, ext@),
{
    proof {
        reveal_strlit("/");
    }
    let filename = tile_filename(tile, ext);
    let len = data_dir.unicode_len();
    let mut path = String::from_str(data_dir);
    if len > 0 && data_dir.get_char(len - 1) != '/' {
        path.append("/");
    }
    path.append(filename.as_str());
    assert(path@ =~= tile.path(data_dir@, ext@));
    path
}

/// The two corner tiles of a request, the tile of `loc_1` first, if the
/// catalog of `dataset` lists both. A tile that it does not list fails the
/// whole request: there is no grid of a part of it.
pub fn resolve_tiles(dataset: Dataset, loc_1: &Location, loc_2: &Location) -> (tiles: Result<
    (Tile, Tile),
    DemError,
>)
    ensures
        tiles == if Tile::containing(*loc_1, dataset).listed() && Tile::containing(
            *loc_2,
            dataset,
        ).listed() {
            Ok::<(Tile, Tile), DemError>(
                (Tile::containing(*loc_1, dataset), Tile::containing(*loc_2, dataset)),
            )
        } else {
            Err::<(Tile, Tile), DemError>(DemError::TileUnavailable)
        },
{
    let first = tile_from_location(loc_1, dataset);
    let second = tile_from_location(loc_2, dataset);
    if tile_available(&first) && tile_available(&second) {
        Ok((first, second))
    } else {
        Err(DemError::TileUnavailable)
    }
}

fn as_digit(c: char) -> (d: Option<u32>)
    ensures
        d == if is_digit(c) {
            Some(digit_value(c) as u32)
        } else {
            None
        },
        is_digit(c) ==> digit_value(c) <= 9,
{
    let code: u32 = c as u32;
    if '0' as u32 <= code && code <= '9' as u32 {
        Some(code - '0' as u32)
    } else {
        None
    }
}

proof fn lemma_digit_run(s: Seq<char>, from: int, end: int)
    requires
        0 <= from <= end <= s.len(),
        forall|i: int| from <= i < end ==> is_digit(#[trigger] s[i]),
        end < s.len() ==> !is_digit(s[end]),
    ensures
        digit_run(s, from) == end,
    decreases end - from,
{
    if from < end {
        lemma_digit_run(s, from + 1, end);
    }
}

proof fn lemma_digits_value_step(s: Seq<char>, from: int, to: int)
    requires
        0 <= from <= to < s.len(),
    ensures
        digits_value(s.subrange(from, to + 1)) == digits_value(s.subrange(from, to)) * 10
            + digit_value(s[to]),
{
    assert(s.subrange(from, to + 1).drop_last() =~= s.subrange(from, to));
}

/// Reads the digits that start at `from`: where they end, and the number they
/// write unless it is more than any tile key can hold.
fn scan_degrees(name: &str, len: usize, from: usize) -> (found: (usize, Option<u32>))
    requires
        len == name@.len(),
        from <= len,
    ensures
        found.0 == digit_run(name@, from as int),
        from <= found.0 <= len,
        found.1 == if digits_value(name@.subrange(from as int, found.0 as int)) <= MAX_DEGREES {
            Some(digits_value(name@.subrange(from as int, found.0 as int)) as u32)
        } else {
            None
        },
{
    let mut at: usize = from;
    let mut value: u32 = 0;
    let mut fits: bool = true;
    let mut digit: Option<u32> = if at < len {
        as_digit(name.get_char(at))
    } else {
        None
    };
    assert(name@.subrange(from as int, from as int) =~= Seq::<char>::empty());
    while digit.is_some()
        invariant
            len == name@.len(),
            from <= at <= len,
            digit_run(name@, from as int) == digit_run(name@, at as int),
            digit == if at < len && is_digit(name@[at as int]) {
                Some(digit_value(name@[at as int]) as u32)
            } else {
                None
            },
            value <= MAX_DEGREES,
            fits ==> value == digits_value(name@.subrange(from as int, at as int)),
            !fits ==> digits_value(name@.subrange(from as int, at as int)) > MAX_DEGREES,
        decreases len - at,
    {
        proof {
            lemma_digits_value_step(name@, from as int, at as int);
        }
        let d: u32 = digit.unwrap();
        if fits && value * 10 + d <= MAX_DEGREES {
            value = value * 10 + d;
        } else {
            fits = false;
        }
        at = at + 1;
        digit = if at < len {
            as_digit(name.get_char(at))
        } else {
            None
        };
    }
    (at, if fits {
        Some(value)
    } else {
        None
    })
}

fn signed_degrees(positive: bool, digits: u32) -> (degrees: Option<i16>)
    requires
        digits <= MAX_DEGREES,
    ensures
        degrees == if positive && digits > i16::MAX {
            None
        } else if positive {
            Some(digits as i16)
        } else {
            Some((-(digits as int)) as i16)
        },
{
    if positive {
        if digits > 32_767 {
            None
        } else {
            Some(digits as i16)
        }
    } else {
        Some((-(digits as i32)) as i16)
    }
}

/// Reads the tile key back from a file name, whatever the extension is.
/// `N45E006.hgt` gives 45 and 6, `S06W071.zip` gives -6 and -71.
pub fn parse_tile_filename(name: &str) -> (key: Option<(i16, i16)>)
    ensures
        key == parse_filename(name@),
{
    let len = name.unicode_len();
    if len == 0 {
        return None;
    }
    let first = name.get_char(0);
    if first != 'N' && first != 'S' {
        return None;
    }
    let (lat_end, lat_digits) = scan_degrees(name, len, 1);
    if lat_end <= 1 || lat_end >= len {
        return None;
    }
    let second = name.get_char(lat_end);
    if second != 'E' && second != 'W' {
        return None;
    }
    let (lon_end, lon_digits) = scan_degrees(name, len, lat_end + 1);
    if lon_end <= lat_end + 1 || lon_end >= len {
        return None;
    }
    if name.get_char(lon_end) != '.' {
        return None;
    }
    match (lat_digits, lon_digits) {
        (Some(lat_digits), Some(lon_digits)) => {
            match (signed_degrees(first == 'N', lat_digits), signed_degrees(second == 'E', lon_digits)) {
                (Some(lat), Some(lon)) => Some((lat, lon)),
                _ => None,
            }
        },
        _ => None,
    }
}

/// The file name of a tile of the one arc-second dataset gives the tile key
/// back, for every key and every extension.
pub proof fn lemma_dem1_filename_round_trip(lat: i16, lon: i16, ext: Seq<char>)
    ensures
        parse_filename(dem1_filename(lat as int, lon as int, ext)) == Some((lat, lon)),
{
    let lat_digits = pad_left(decimal_digits(magnitude(lat as int)), 2, '0');
    let lon_digits = pad_left(decimal_digits(magnitude(lon as int)), 3, '0');
    let name = dem1_filename(lat as int, lon as int, ext);
    let lat_end: int = 1 + lat_digits.len() as int;
    let lon_end: int = lat_end + 1 + lon_digits.len() as int;
    lemma_padded_digits(magnitude(lat as int), 2);
    lemma_padded_digits(magnitude(lon as int), 3);
    assert(name.len() == lon_end + 1 + ext.len());
    assert forall|i: int| 1 <= i < lat_end implies is_digit(#[trigger] name[i]) by {
        assert(name[i] == lat_digits[i - 1]);
    }
    assert(name[lat_end] == 'E' || name[lat_end] == 'W');
    lemma_digit_run(name, 1, lat_end);
    assert forall|i: int| lat_end + 1 <= i < lon_end implies is_digit(#[trigger] name[i]) by {
        assert(name[i] == lon_digits[i - lat_end - 1]);
    }
    assert(name[lon_end] == '.');
    lemma_digit_run(name, lat_end + 1, lon_end);
    assert(name.subrange(1, lat_end) =~= lat_digits);
    assert(name.subrange(lat_end + 1, lon_end) =~= lon_digits);
}

/// The file name of a tile that its dataset's catalog lists gives the tile
/// key back, whatever the extension.
pub proof fn lemma_listed_filename_round_trip(tile: Tile, ext: Seq<char>)
    requires
        tile.listed(),
    ensures
        parse_filename(tile.filename(ext)) == Some((tile.lat, tile.lon)),
{
    lemma_dem1_filename_round_trip(tile.lat, tile.lon, ext);
}

/// Two tiles of the one arc-second dataset with the same file name are the
/// same tile: a file on disk belongs to one tile only.
pub proof fn lemma_filename_names_one_tile(a: Tile, b: Tile, ext: Seq<char>)
    requires
        a.dataset == Dataset::Dem1,
        b.dataset == Dataset::Dem1,
        a.filename(ext) == b.filename(ext),
    ensures
        a == b,
{
    lemma_dem1_filename_round_trip(a.lat, a.lon, ext);
    lemma_dem1_filename_round_trip(b.lat, b.lon, ext);
}

/// Two locations with the same whole degrees lie in the same tile, whatever
/// their minutes and seconds are.
pub proof fn lemma_tile_ignores_minutes_and_seconds(a: Location, b: Location, dataset: Dataset)
    requires
        a.lat.deg == b.lat.deg,
        a.lon.deg == b.lon.deg,
    ensures
        Tile::containing(a, dataset) == Tile::containing(b, dataset),
{
}

} // verus!

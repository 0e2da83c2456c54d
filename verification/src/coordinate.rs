use vstd::prelude::*;
use vstd::string::StringExecFns;
use crate::decimal::{append_hundredths, append_signed, hundredths, pad_left, signed_decimal};

verus! {

/// Units in one arc-second.
pub const UNITS_PER_SECOND: i32 = 100;

/// Units in one arc-minute.
pub const UNITS_PER_MINUTE: i32 = 6_000;

/// Units in one degree.
pub const UNITS_PER_DEGREE: i32 = 360_000;

/// The whole degrees of an angle of `val` units, truncated toward zero.
pub open spec fn degrees_of(val: int) -> int {
    if val >= 0 {
        val / (UNITS_PER_DEGREE as int)
    } else {
        -((-val) / (UNITS_PER_DEGREE as int))
    }
}

/// What an angle of `val` units has beyond its whole degrees, as a magnitude:
/// never negative and always under one degree.
pub open spec fn remainder_of(val: int) -> int {
    if val >= 0 {
        val % (UNITS_PER_DEGREE as int)
    } else {
        (-val) % (UNITS_PER_DEGREE as int)
    }
}

/// The whole minutes in the remainder of an angle of `val` units.
pub open spec fn minutes_of(val: int) -> int {
    remainder_of(val) / (UNITS_PER_MINUTE as int)
}

/// What is left of the remainder after its whole minutes: seconds, in units.
pub open spec fn seconds_of(val: int) -> int {
    remainder_of(val) % (UNITS_PER_MINUTE as int)
}

/// An angle in degrees, minutes and seconds.
///
/// `sec` counts hundredths of an arc-second, so `sec == 150` is 1.5". The
/// fields are independent: nothing carries from one into the next.
#[derive(Clone, Copy, Debug, PartialEq, Eq, Structural)]
pub struct Coordinate {
    pub deg: i16,
    pub min: i8,
    pub sec: i32,
}

impl Coordinate {
    /// Minutes and seconds are a proper base-60 remainder: neither is
    /// negative, and neither reaches sixty.
    pub open spec fn well_formed(self) -> bool {
        &&& 0 <= self.min < 60
        &&& 0 <= self.sec < UNITS_PER_MINUTE
    }

    /// The angle in units: `deg + min/60 + sec/3600` degrees.
    pub open spec fn decimal(self) -> int {
        self.deg * UNITS_PER_DEGREE + self.min * UNITS_PER_MINUTE + self.sec
    }

    /// The decomposition of an angle of `val` units.
    pub open spec fn spec_new(val: i32) -> Coordinate {
        Coordinate {
            deg: degrees_of(val as int) as i16,
            min: minutes_of(val as int) as i8,
            sec: seconds_of(val as int) as i32,
        }
    }

    /// Decomposes an angle of `val` units into whole degrees, truncated toward
    /// zero, whole minutes of the remainder, and the seconds that are left.
    ///
    /// The sign of the angle is carried by `deg` alone. Minutes and seconds
    /// measure how far the angle lies from `deg`, away from zero.
    pub fn new(val: &i32) -> (c: Coordinate)
        ensures
            c == Coordinate::spec_new(*val),
            c.deg == degrees_of(*val as int),
            c.min == minutes_of(*val as int),
            c.sec == seconds_of(*val as int),
            c.well_formed(),
    {
        let wide: i64 = *val as i64;
        let magnitude: u64 = if wide < 0 {
            (-wide) as u64
        } else {
            wide as u64
        };
        let whole: u64 = magnitude / (UNITS_PER_DEGREE as u64);
        let rest: u64 = magnitude % (UNITS_PER_DEGREE as u64);
        let deg: i16 = if wide < 0 {
            -(whole as i16)
        } else {
            whole as i16
        };
        Coordinate {
            deg,
            min: (rest / (UNITS_PER_MINUTE as u64)) as i8,
            sec: (rest % (UNITS_PER_MINUTE as u64)) as i32,
        }
    }

    /// The coordinate as it is written: degrees and minutes at least two
    /// characters wide, seconds with two decimals and at least six wide, each
    /// filled with spaces on the left.
    pub open spec fn spec_render(self) -> Seq<char> {
        pad_left(signed_decimal(self.deg as int), 2, ' ') + seq!['°', ' '] + pad_left(
            signed_decimal(self.min as int),
            2,
            ' ',
        ) + seq!['\'', ' '] + pad_left(hundredths(self.sec as int), 6, ' ') + seq!['"']
    }

    /// Writes the coordinate as degrees, minutes and seconds, such as
    /// `45° 30'   0.00"`.
    pub fn render(&self) -> (text: String)
        ensures
            text@ == self.spec_render(),
    {
        proof {
            reveal_strlit("° ");
            reveal_strlit("' ");
            reveal_strlit("\"");
        }
        let mut text = String::new();
        append_signed(&mut text, self.deg as i32, 2);
        text.append("° ");
        append_signed(&mut text, self.min as i32, 2);
        text.append("' ");
        append_hundredths(&mut text, self.sec, 6);
        text.append("\"");
        assert(text@ =~= self.spec_render());
        text
    }

    /// The angle in units. No input overflows the result.
    pub fn to_decimal(&self) -> (d: i64)
        ensures
            d == self.decimal(),
    {
        (self.deg as i64) * (UNITS_PER_DEGREE as i64) + (self.min as i64) * (UNITS_PER_MINUTE as i64)
            + (self.sec as i64)
    }
}

/// The value nearest to `v` that lies between `lo` and `hi`.
pub open spec fn clamp(v: int, lo: int, hi: int) -> int {
    if v < lo {
        lo
    } else if v > hi {
        hi
    } else {
        v
    }
}

fn clamp_i16(v: i32) -> (r: i16)
    ensures
        r == clamp(v as int, i16::MIN as int, i16::MAX as int),
{
    if v < -32_768 {
        -32_768
    } else if v > 32_767 {
        32_767
    } else {
        v as i16
    }
}

fn clamp_i8(v: i32) -> (r: i8)
    ensures
        r == clamp(v as int, i8::MIN as int, i8::MAX as int),
{
    if v < -128 {
        -128
    } else if v > 127 {
        127
    } else {
        v as i8
    }
}

fn clamp_i32(v: i64) -> (r: i32)
    ensures
        r == clamp(v as int, i32::MIN as int, i32::MAX as int),
{
    if v < -2_147_483_648 {
        -2_147_483_648
    } else if v > 2_147_483_647 {
        2_147_483_647
    } else {
        v as i32
    }
}

impl Coordinate {
    /// `self + other`: each field is the sum of the two, kept within the range
    /// of its type.
    pub open spec fn sum(self, other: Coordinate) -> Coordinate {
        Coordinate {
            deg: clamp(self.deg + other.deg, i16::MIN as int, i16::MAX as int) as i16,
            min: clamp(self.min + other.min, i8::MIN as int, i8::MAX as int) as i8,
            sec: clamp(self.sec + other.sec, i32::MIN as int, i32::MAX as int) as i32,
        }
    }

    /// `self - other`: each field is the difference of the two, kept within
    /// the range of its type.
    pub open spec fn difference(self, other: Coordinate) -> Coordinate {
        Coordinate {
            deg: clamp(self.deg - other.deg, i16::MIN as int, i16::MAX as int) as i16,
            min: clamp(self.min - other.min, i8::MIN as int, i8::MAX as int) as i8,
            sec: clamp(self.sec - other.sec, i32::MIN as int, i32::MAX as int) as i32,
        }
    }

    /// No field of `self + other` leaves the range of its type.
    pub open spec fn sum_fits(self, other: Coordinate) -> bool {
        &&& i16::MIN <= self.deg + other.deg <= i16::MAX
        &&& i8::MIN <= self.min + other.min <= i8::MAX
        &&& i32::MIN <= self.sec + other.sec <= i32::MAX
    }

    /// No field of `self - other` leaves the range of its type.
    pub open spec fn difference_fits(self, other: Coordinate) -> bool {
        &&& i16::MIN <= self.deg - other.deg <= i16::MAX
        &&& i8::MIN <= self.min - other.min <= i8::MAX
        &&& i32::MIN <= self.sec - other.sec <= i32::MAX
    }
}

/// Field by field, with nothing carried from seconds to minutes or from
/// minutes to degrees: the sum of two well-formed coordinates need not be
/// well-formed. A field whose sum would leave the range of its type stays at
/// the end of that range.
impl core::ops::Add for Coordinate {
    type Output = Coordinate;

    fn add(self, other: Coordinate) -> (sum: Coordinate)
        ensures
            sum == self.sum(other),
    {
        Coordinate {
            deg: clamp_i16(self.deg as i32 + other.deg as i32),
            min: clamp_i8(self.min as i32 + other.min as i32),
            sec: clamp_i32(self.sec as i64 + other.sec as i64),
        }
    }
}

impl vstd::std_specs::ops::AddSpecImpl for Coordinate {
    open spec fn obeys_add_spec() -> bool {
        true
    }

    open spec fn add_req(self, other: Coordinate) -> bool {
        true
    }

    open spec fn add_spec(self, other: Coordinate) -> Coordinate {
        self.sum(other)
    }
}

/// Field by field, as the sum is: nothing is borrowed from degrees or minutes,
/// so a difference may hold negative minutes or seconds. A field whose
/// difference would leave the range of its type stays at the end of that range.
impl core::ops::Sub for Coordinate {
    type Output = Coordinate;

    fn sub(self, other: Coordinate) -> (difference: Coordinate)
        ensures
            difference == self.difference(other),
    {
        Coordinate {
            deg: clamp_i16(self.deg as i32 - other.deg as i32),
            min: clamp_i8(self.min as i32 - other.min as i32),
            sec: clamp_i32(self.sec as i64 - other.sec as i64),
        }
    }
}

impl vstd::std_specs::ops::SubSpecImpl for Coordinate {
    open spec fn obeys_sub_spec() -> bool {
        true
    }

    open spec fn sub_req(self, other: Coordinate) -> bool {
        true
    }

    open spec fn sub_spec(self, other: Coordinate) -> Coordinate {
        self.difference(other)
    }
}

/// Every angle that `new` decomposes is well-formed, and its degrees have the
/// sign of the angle or are zero.
pub proof fn lemma_new_well_formed(val: i32)
    ensures
        Coordinate::spec_new(val).well_formed(),
        Coordinate::spec_new(val).deg == degrees_of(val as int),
        Coordinate::spec_new(val).min == minutes_of(val as int),
        Coordinate::spec_new(val).sec == seconds_of(val as int),
        val >= 0 ==> Coordinate::spec_new(val).deg >= 0,
        val <= 0 ==> Coordinate::spec_new(val).deg <= 0,
{
}

/// How far the angle of `new(val)` lies from `val`: nothing for an angle that
/// is not negative, twice the remainder for a negative one, whose minutes and
/// seconds count away from zero while `decimal` adds them.
pub proof fn lemma_round_trip_offset(val: i32)
    ensures
        val >= 0 ==> Coordinate::spec_new(val).decimal() == val,
        val < 0 ==> Coordinate::spec_new(val).decimal() == val + 2 * remainder_of(val as int),
{
}

/// Decomposing an angle and putting it together again gives an angle less than
/// one arc-second from the first, for every angle that is not negative and for
/// every negative one whose remainder is under half an arc-second.
pub proof fn lemma_round_trip(val: i32)
    requires
        val >= 0 || 2 * remainder_of(val as int) < UNITS_PER_SECOND,
    ensures
        -UNITS_PER_SECOND < Coordinate::spec_new(val).decimal() - val < UNITS_PER_SECOND,
{
    lemma_round_trip_offset(val);
}

/// Where no field saturates, the angle of a sum is the sum of the angles.
pub proof fn lemma_add_decimal(a: Coordinate, b: Coordinate)
    requires
        a.sum_fits(b),
    ensures
        a.sum(b).decimal() == a.decimal() + b.decimal(),
{
}

/// Where no field saturates, the angle of a difference is the difference of
/// the angles.
pub proof fn lemma_sub_decimal(a: Coordinate, b: Coordinate)
    requires
        a.difference_fits(b),
    ensures
        a.difference(b).decimal() == a.decimal() - b.decimal(),
{
}

/// A location on Earth: a latitude and a longitude.
#[derive(Clone, Copy, Debug, PartialEq, Eq, Structural)]
pub struct Location {
    pub lat: Coordinate,
    pub lon: Coordinate,
}

impl Location {
    /// The location as it is written: latitude, then longitude.
    pub open spec fn spec_render(self) -> Seq<char> {
        "Lat: "@ + self.lat.spec_render() + " // Lon: "@ + self.lon.spec_render()
    }

    /// Writes the location, such as
    /// `Lat: 45° 30'   0.00" // Lon:  6° 30'   0.00"`.
    pub fn render(&self) -> (text: String)
        ensures
            text@ == self.spec_render(),
    {
        let lat = self.lat.render();
        let lon = self.lon.render();
        let mut text = String::from_str("Lat: ");
        text.append(lat.as_str());
        text.append(" // Lon: ");
        text.append(lon.as_str());
        text
    }
}

} // verus!

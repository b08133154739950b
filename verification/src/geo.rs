//! Geographic points and the visibility-distance test.
//!
//! Coordinates are kept in microdegrees (millionths of a degree) so the
//! whole comparison stays in integer arithmetic. One degree of latitude is
//! taken as 69.0 miles and one degree of longitude as 54.6 miles — an
//! equirectangular approximation good enough at mid-latitudes — and the
//! distance is the Euclidean norm of the two scaled deltas. Instead of a
//! square root, ranges are compared on squared distances: both sides are
//! expressed in the common unit of tenths of a mile times one million
//! (`690 * microdegrees` of latitude, `546 * microdegrees` of longitude,
//! `10_000_000 * miles` for a range), then squared.

use vstd::prelude::*;

verus! {

/// Miles per degree of latitude, in tenths of a mile.
pub const LAT_TENTH_MILES_PER_DEGREE: i128 = 690;

/// Miles per degree of longitude, in tenths of a mile.
pub const LON_TENTH_MILES_PER_DEGREE: i128 = 546;

/// One mile, in the scaled unit (tenths of a mile times one million).
pub const SCALE_PER_MILE: i128 = 10_000_000;

/// A geographic point, latitude and longitude in microdegrees.
#[derive(Clone, Copy, PartialEq, Eq, Structural)]
pub struct LatLonPos {
    pub lat_micro: i32,
    pub lon_micro: i32,
}

/// Squared distance between two points in the scaled unit: the Euclidean
/// norm squared of the latitude delta scaled by 69.0 miles per degree and
/// the longitude delta scaled by 54.6 miles per degree.
pub open spec fn scaled_dist_sq(a: LatLonPos, b: LatLonPos) -> int {
    let dlat = 690 * (a.lat_micro - b.lat_micro);
    let dlon = 546 * (a.lon_micro - b.lon_micro);
    dlat * dlat + dlon * dlon
}

/// Whether `b` lies strictly closer to `a` than `range_miles` miles under
/// the scaled metric.
pub open spec fn spec_within_range(a: LatLonPos, b: LatLonPos, range_miles: u32) -> bool {
    scaled_dist_sq(a, b) < ((range_miles as int) * 10_000_000) * ((range_miles as int) * 10_000_000)
}

impl LatLonPos {
    /// Builds a point from latitude and longitude in microdegrees.
    pub fn new(lat_micro: i32, lon_micro: i32) -> (p: Self)
        ensures
            p.lat_micro == lat_micro,
            p.lon_micro == lon_micro,
    {
        LatLonPos { lat_micro, lon_micro }
    }

    /// Distance test against another point: true exactly when the scaled
    /// squared distance is below the squared range.
    pub fn within_range_miles(&self, other: &LatLonPos, range_miles: u32) -> (r: bool)
        ensures
            r == spec_within_range(*self, *other, range_miles),
    {
        let dlat: i64 = (self.lat_micro as i64) - (other.lat_micro as i64);
        let dlon: i64 = (self.lon_micro as i64) - (other.lon_micro as i64);
        let slat: i128 = LAT_TENTH_MILES_PER_DEGREE * (dlat as i128);
        let slon: i128 = LON_TENTH_MILES_PER_DEGREE * (dlon as i128);
        proof {
            assert(-5000000000000i128 <= slat <= 5000000000000i128);
            assert(-5000000000000i128 <= slon <= 5000000000000i128);
            assert(slat * slat <= 5000000000000i128 * 5000000000000i128) by (nonlinear_arith)
                requires
                    -5000000000000i128 <= slat <= 5000000000000i128,
            ;
            assert(slon * slon <= 5000000000000i128 * 5000000000000i128) by (nonlinear_arith)
                requires
                    -5000000000000i128 <= slon <= 5000000000000i128,
            ;
            assert(slat * slat >= 0) by (nonlinear_arith);
            assert(slon * slon >= 0) by (nonlinear_arith);
        }
        let d2: i128 = slat * slat + slon * slon;
        let scaled_range: i128 = (range_miles as i128) * SCALE_PER_MILE;
        proof {
            assert(0i128 <= scaled_range <= 50000000000000000i128);
            assert(scaled_range * scaled_range <= 50000000000000000i128 * 50000000000000000i128)
                by (nonlinear_arith)
                requires
                    0i128 <= scaled_range <= 50000000000000000i128,
            ;
            assert(scaled_range * scaled_range >= 0) by (nonlinear_arith);
        }
        d2 < scaled_range * scaled_range
    }
}

} // verus!

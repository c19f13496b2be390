//! Points in fixed-point coordinates and their validation.
//!
//! The library holds no floating-point number. A longitude or latitude is a
//! whole number of ten-millionths of a degree, an altitude a whole number of
//! millimetres, both as links to aircraft carry them. Every point is in the
//! geographic reference system [`DEFAULT_SRID`].

use vstd::prelude::*;

verus! {

/// The spatial reference system of every stored geometry: WGS84.
pub const DEFAULT_SRID: i32 = 4326;

/// One degree, in the unit of longitudes and latitudes.
pub const DEGREE: i32 = 10_000_000;

/// One metre, in the unit of altitudes.
pub const METER: i32 = 1_000;

/// The largest latitude, 90 degrees.
pub const MAX_LATITUDE: i32 = 900_000_000;

/// The largest longitude, 180 degrees.
pub const MAX_LONGITUDE: i32 = 1_800_000_000;

/// Why a point was refused.
#[derive(Debug, Copy, Clone, PartialEq, Eq)]
pub enum PointError {
    /// The latitude or the longitude is outside the globe.
    OutOfBounds,
}

/// A position as requests carry it.
#[derive(Debug, Copy, Clone, PartialEq, Eq)]
pub struct GrpcPointZ {
    /// Latitude, in ten-millionths of a degree.
    pub latitude: i32,
    /// Longitude, in ten-millionths of a degree.
    pub longitude: i32,
    /// Altitude, in millimetres.
    pub altitude: i32,
}

/// A three-dimensional point of a stored geometry.
#[derive(Debug, Copy, Clone, PartialEq, Eq)]
pub struct PointZ {
    /// Longitude, in ten-millionths of a degree.
    pub x: i32,
    /// Latitude, in ten-millionths of a degree.
    pub y: i32,
    /// Altitude, in millimetres.
    pub z: i32,
}

/// A two-dimensional point: a corner of a query window.
#[derive(Debug, Copy, Clone, PartialEq, Eq)]
pub struct Point {
    /// Longitude, in ten-millionths of a degree.
    pub x: i32,
    /// Latitude, in ten-millionths of a degree.
    pub y: i32,
}

/// Whether `p` lies on the globe: its latitude within 90 degrees of the
/// equator, its longitude within 180 degrees of the prime meridian. Every
/// altitude that the type can hold is finite.
pub open spec fn valid_pointz(p: PointZ) -> bool {
    &&& -MAX_LATITUDE <= p.y <= MAX_LATITUDE
    &&& -MAX_LONGITUDE <= p.x <= MAX_LONGITUDE
}

/// Whether every point of `points` lies on the globe.
pub open spec fn valid_points(points: Seq<PointZ>) -> bool {
    forall|i: int| 0 <= i < points.len() ==> valid_pointz(#[trigger] points[i])
}

impl GrpcPointZ {
    /// The stored point that this position stands for.
    pub open spec fn point(self) -> PointZ {
        PointZ { x: self.longitude, y: self.latitude, z: self.altitude }
    }
}

impl PointZ {
    /// The position that requests would carry for this point.
    pub open spec fn position(self) -> GrpcPointZ {
        GrpcPointZ { latitude: self.y, longitude: self.x, altitude: self.z }
    }

    /// Converts a position of a request, and refuses one outside the globe.
    pub fn try_from(position: GrpcPointZ) -> (r: Result<PointZ, PointError>)
        ensures
            valid_pointz(position.point()) ==> r == Ok::<PointZ, PointError>(position.point()),
            !valid_pointz(position.point()) ==> r == Err::<PointZ, PointError>(
                PointError::OutOfBounds,
            ),
    {
        let point = PointZ {
            x: position.longitude,
            y: position.latitude,
            z: position.altitude,
        };
        match validate_pointz(&point) {
            Ok(()) => Ok(point),
            Err(e) => Err(e),
        }
    }

    /// Converts this point for a response.
    pub fn to_position(&self) -> (position: GrpcPointZ)
        ensures
            position == self.position(),
            position.point() == *self,
    {
        GrpcPointZ { latitude: self.y, longitude: self.x, altitude: self.z }
    }
}

/// Checks that a point lies on the globe.
pub fn validate_pointz(point: &PointZ) -> (r: Result<(), PointError>)
    ensures
        r is Ok <==> valid_pointz(*point),
        r is Err ==> r == Err::<(), PointError>(PointError::OutOfBounds),
{
    if point.y < -MAX_LATITUDE || point.y > MAX_LATITUDE {
        return Err(PointError::OutOfBounds);
    }
    if point.x < -MAX_LONGITUDE || point.x > MAX_LONGITUDE {
        return Err(PointError::OutOfBounds);
    }
    Ok(())
}

/// A latitude beyond 90 degrees or a longitude beyond 180 degrees, on either
/// side, makes a point invalid.
pub proof fn lemma_out_of_range_rejected(p: PointZ)
    requires
        p.y < -90 * DEGREE || p.y > 90 * DEGREE || p.x < -180 * DEGREE || p.x > 180 * DEGREE,
    ensures
        !valid_pointz(p),
{
}

} // verus!

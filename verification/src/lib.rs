//! Geospatial and temporal logic for a fleet of unmanned aircraft.
//!
//! The library validates what a telemetry and flight-path service receives,
//! converts it to the records that a spatial store keeps, cuts flight paths
//! into segments of bounded length with their windows of time, and words the
//! statements and queries that the service sends to the store. It opens no
//! connection: the service around it executes what the library words and
//! hands the answers back.
//!
//! Conventions, throughout:
//!
//! - A longitude or latitude is a whole number of ten-millionths of a degree,
//!   an altitude or a length over ground a whole number of millimetres.
//!   Geometries are in the reference system [`geometry::DEFAULT_SRID`].
//! - A speed or a track angle, which the library stores and forwards but
//!   never reads, is the bit pattern of a 32-bit floating-point number.
//! - An instant is a count of seconds since the start of 1970 with the
//!   nanoseconds into the second, within the years 1 to 9999.
//!
//! The modules, from the leaves up: [`error`], [`identifier`], [`types`],
//! [`geometry`] and [`time`] hold the common vocabulary; [`measure`],
//! [`segment`] and [`tiling`] the segmentizer and what holds of its output;
//! [`store`] and [`schema`] what the store is told about itself;
//! [`aircraft`], [`flight`] and [`routing`] the three subsystems;
//! [`client`] the addresses of other services.

pub mod error;
pub mod identifier;
pub mod types;
pub mod geometry;
pub mod time;
pub mod measure;
pub mod segment;
pub mod tiling;
pub mod store;
pub mod aircraft;
pub mod flight;
pub mod routing;
pub mod schema;
pub mod client;

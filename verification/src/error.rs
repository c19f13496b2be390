//! Error taxonomy, one enumeration per subsystem under one umbrella.
//!
//! Each enumeration offers `to_string`, whose text is what `message` of the
//! same type says.

use vstd::prelude::*;
use vstd::string::*;

verus! {

/// Why a string was refused by the identifier grammar.
#[derive(Debug, Copy, Clone, PartialEq, Eq)]
pub enum StringError {
    /// The string holds a reserved word.
    ContainsForbidden,
    /// The string does not match the grammar.
    Mismatch,
}

/// Possible errors with aircraft requests.
#[derive(Debug, Copy, Clone, PartialEq, Eq)]
pub enum AircraftError {
    /// No aircraft were provided.
    NoAircraft,
    /// Invalid aircraft identification.
    AircraftId,
    /// Invalid location.
    Location,
    /// Invalid time provided.
    Time,
    /// Invalid label.
    Label,
    /// Could not get a store session.
    Client,
    /// The store refused a statement or the commit.
    DBError,
}

/// Possible errors with flight-path requests.
#[derive(Debug, Copy, Clone, PartialEq, Eq)]
pub enum FlightError {
    /// Invalid aircraft identification.
    AircraftId,
    /// Invalid aircraft type.
    AircraftType,
    /// Invalid location.
    Location,
    /// Invalid time provided.
    Time,
    /// Invalid label.
    Label,
    /// Could not get a store session.
    Client,
    /// The store refused a statement or the commit.
    DBError,
    /// The path could not be cut into segments.
    Segments,
}

/// Possible errors with path requests.
#[derive(Debug, Copy, Clone, PartialEq, Eq)]
pub enum PathError {
    /// No path was found.
    NoPath,
    /// Invalid start node.
    InvalidStartNode,
    /// Invalid end node.
    InvalidEndNode,
    /// Invalid start time.
    InvalidStartTime,
    /// Invalid end time.
    InvalidEndTime,
    /// Invalid time window.
    InvalidTimeWindow,
    /// Could not get a store session.
    Client,
    /// Unknown error.
    Unknown,
}

/// The umbrella error: one variant per subsystem, each carrying that
/// subsystem's own taxonomy.
#[derive(Debug, Copy, Clone, PartialEq, Eq)]
pub enum PostgisError {
    /// The telemetry writer failed.
    Aircraft(AircraftError),
    /// The flight writer failed.
    FlightPath(FlightError),
    /// The routing layer failed.
    Routing(PathError),
}

impl StringError {
    /// The text shown for this error.
    pub open spec fn message(self) -> Seq<char> {
        match self {
            StringError::ContainsForbidden => "String contains a forbidden word."@,
            StringError::Mismatch => "String does not match the expected pattern."@,
        }
    }

    /// Renders the error for a reader.
    pub fn to_string(&self) -> (text: String)
        ensures
            text@ == self.message(),
    {
        match self {
            StringError::ContainsForbidden => String::from_str("String contains a forbidden word."),
            StringError::Mismatch => String::from_str(
                "String does not match the expected pattern.",
            ),
        }
    }
}

impl AircraftError {
    /// The text shown for this error.
    pub open spec fn message(self) -> Seq<char> {
        match self {
            AircraftError::NoAircraft => "No aircraft were provided."@,
            AircraftError::AircraftId => "Invalid aircraft ID provided."@,
            AircraftError::Location => "Invalid location provided."@,
            AircraftError::Time => "Invalid time provided."@,
            AircraftError::Label => "Invalid label provided."@,
            AircraftError::Client => "Could not get backend client."@,
            AircraftError::DBError => "Unknown backend error."@,
        }
    }

    /// Renders the error for a reader.
    pub fn to_string(&self) -> (text: String)
        ensures
            text@ == self.message(),
    {
        match self {
            AircraftError::NoAircraft => String::from_str("No aircraft were provided."),
            AircraftError::AircraftId => String::from_str("Invalid aircraft ID provided."),
            AircraftError::Location => String::from_str("Invalid location provided."),
            AircraftError::Time => String::from_str("Invalid time provided."),
            AircraftError::Label => String::from_str("Invalid label provided."),
            AircraftError::Client => String::from_str("Could not get backend client."),
            AircraftError::DBError => String::from_str("Unknown backend error."),
        }
    }
}

impl FlightError {
    /// The text shown for this error.
    pub open spec fn message(self) -> Seq<char> {
        match self {
            FlightError::AircraftId => "Invalid aircraft ID provided."@,
            FlightError::AircraftType => "Invalid aircraft type provided."@,
            FlightError::Location => "Invalid location provided."@,
            FlightError::Time => "Invalid time provided."@,
            FlightError::Label => "Invalid label provided."@,
            FlightError::Client => "Could not get backend client."@,
            FlightError::DBError => "Unknown backend error."@,
            FlightError::Segments => "Could not segmentize path."@,
        }
    }

    /// Renders the error for a reader.
    pub fn to_string(&self) -> (text: String)
        ensures
            text@ == self.message(),
    {
        match self {
            FlightError::AircraftId => String::from_str("Invalid aircraft ID provided."),
            FlightError::AircraftType => String::from_str("Invalid aircraft type provided."),
            FlightError::Location => String::from_str("Invalid location provided."),
            FlightError::Time => String::from_str("Invalid time provided."),
            FlightError::Label => String::from_str("Invalid label provided."),
            FlightError::Client => String::from_str("Could not get backend client."),
            FlightError::DBError => String::from_str("Unknown backend error."),
            FlightError::Segments => String::from_str("Could not segmentize path."),
        }
    }
}

impl PathError {
    /// The text shown for this error.
    pub open spec fn message(self) -> Seq<char> {
        match self {
            PathError::NoPath => "No path was found."@,
            PathError::InvalidStartNode => "Invalid start node."@,
            PathError::InvalidEndNode => "Invalid end node."@,
            PathError::InvalidStartTime => "Invalid start time."@,
            PathError::InvalidEndTime => "Invalid end time."@,
            PathError::InvalidTimeWindow => "Invalid time window."@,
            PathError::Client => "Could not get client."@,
            PathError::Unknown => "Unknown error."@,
        }
    }

    /// Renders the error for a reader.
    pub fn to_string(&self) -> (text: String)
        ensures
            text@ == self.message(),
    {
        match self {
            PathError::NoPath => String::from_str("No path was found."),
            PathError::InvalidStartNode => String::from_str("Invalid start node."),
            PathError::InvalidEndNode => String::from_str("Invalid end node."),
            PathError::InvalidStartTime => String::from_str("Invalid start time."),
            PathError::InvalidEndTime => String::from_str("Invalid end time."),
            PathError::InvalidTimeWindow => String::from_str("Invalid time window."),
            PathError::Client => String::from_str("Could not get client."),
            PathError::Unknown => String::from_str("Unknown error."),
        }
    }
}

impl PostgisError {
    /// The text shown for this error: that of the subsystem's own error.
    pub open spec fn message(self) -> Seq<char> {
        match self {
            PostgisError::Aircraft(e) => e.message(),
            PostgisError::FlightPath(e) => e.message(),
            PostgisError::Routing(e) => e.message(),
        }
    }

    /// Renders the error for a reader.
    pub fn to_string(&self) -> (text: String)
        ensures
            text@ == self.message(),
    {
        match self {
            PostgisError::Aircraft(e) => e.to_string(),
            PostgisError::FlightPath(e) => e.to_string(),
            PostgisError::Routing(e) => e.to_string(),
        }
    }
}

} // verus!

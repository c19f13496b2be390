//! Flight paths: the request that submits one, its validation, the row and
//! the segments that replace what the store holds of the flight, and the
//! statements that write them.

use vstd::prelude::*;
use vstd::string::*;
pub use crate::error::FlightError;
use crate::error::{PostgisError, StringError};
use crate::geometry::{
    valid_points, valid_pointz, GrpcPointZ, Point, PointZ, MAX_LATITUDE, MAX_LONGITUDE,
};
use crate::identifier::{
    check_string, check_string_spec, hazardous, lemma_hazardous_strings_rejected,
    valid_identifier,
};
use crate::measure::distance_squared;
use crate::segment::{limit_units, segmentize, segmentize_error, segments_of, Segment};
use crate::tiling::{
    contiguous, lemma_segment_lengths_bounded, lemma_segments_tile_flight, LENGTH_TOLERANCE,
};
use crate::store::StoreFailure;
use crate::time::{convert_timestamp, usable_timestamp, Timestamp, UtcTime};
use crate::types::{label_views, AircraftType, OperationalStatus};

verus! {

/// The pattern of a flight identifier, for those who show it. An identifier
/// must also not spell `null`.
pub const FLIGHT_IDENTIFIER_REGEX: &'static str = r"^[\-0-9A-Za-z_\.]{1,255}$";

/// The largest length of a flight segment, in metres.
pub const MAX_FLIGHT_SEGMENT_LENGTH_METERS: u32 = 40;

/// Writes the row of a flight, new or in place of the one that the store
/// holds. The store computes the envelope from the path in the same
/// statement, so that the two cannot differ.
pub const UPSERT_FLIGHT: &'static str =
    r#"INSERT INTO "arrow"."flights" (
            "flight_identifier",
            "aircraft_identifier",
            "aircraft_type",
            "simulated",
            "time_start",
            "time_end",
            "geom",
            "isa"
        )
        VALUES ($1, $2, $3, $4, $5, $6, $7, ST_Envelope($7))
        ON CONFLICT ("flight_identifier") DO UPDATE
            SET "aircraft_identifier" = EXCLUDED."aircraft_identifier",
                "aircraft_type" = EXCLUDED."aircraft_type",
                "simulated" = EXCLUDED."simulated",
                "geom" = EXCLUDED."geom",
                "isa" = EXCLUDED."isa",
                "time_start" = EXCLUDED."time_start",
                "time_end" = EXCLUDED."time_end";"#;

/// Removes every segment of a flight.
pub const DELETE_FLIGHT_SEGMENTS: &'static str =
    r#"DELETE FROM "arrow"."flight_segments" WHERE "flight_identifier" = $1;"#;

/// Writes one segment of a flight.
pub const INSERT_FLIGHT_SEGMENT: &'static str =
    r#"INSERT INTO "arrow"."flight_segments" (
            "flight_identifier",
            "geom",
            "time_start",
            "time_end"
        ) VALUES ($1, $2, $3, $4);"#;

/// Creates the table of flight segments, unless it exists.
pub const CREATE_FLIGHT_SEGMENTS_TABLE: &'static str =
    r#"CREATE TABLE IF NOT EXISTS "arrow"."flight_segments" (
            "flight_identifier" VARCHAR(20) NOT NULL,
            "geom" GEOMETRY(LINESTRINGZ, 4326),
            "time_start" TIMESTAMPTZ,
            "time_end" TIMESTAMPTZ,
            PRIMARY KEY ("flight_identifier", "time_start")
        );"#;

/// Creates the index on the envelopes of flights, unless it exists.
pub const CREATE_FLIGHTS_INDEX: &'static str =
    r#"CREATE INDEX IF NOT EXISTS "flights_geom_idx" ON "arrow"."flights" USING GIST ("isa");"#;

/// Creates the index on the segments in the Earth-centred frame, unless it
/// exists.
pub const CREATE_FLIGHT_SEGMENTS_INDEX: &'static str =
    r#"CREATE INDEX IF NOT EXISTS "flight_segments_geom_idx" ON "arrow"."flight_segments" USING GIST (ST_Transform("geom", 4978));"#;

/// Finds one flight that is not simulated, whose time overlaps the window
/// from `$3` to `$4`, and one of whose segments comes within `$2` metres of
/// the geometry `$1`, both taken in the Earth-centred frame.
pub const FLIGHT_INTERSECTION_QUERY: &'static str =
    r#"WITH "segments" AS (
            SELECT
                "flight_identifier",
                "geom",
                "time_start",
                "time_end"
            FROM "arrow"."flight_segments"
            WHERE
                ("time_start" <= $4 OR "time_start" IS NULL)
                AND ("time_end" >= $3 OR "time_end" IS NULL)
                AND ST_3DDWithin(
                    ST_Transform("geom", 4978),
                    ST_Transform($1, 4978),
                    $2
                )
        ) SELECT
            "flight_identifier",
            "aircraft_identifier",
            "geom",
            "time_start",
            "time_end"
        FROM "arrow"."flights"
        WHERE "flight_identifier" IN (SELECT "flight_identifier" FROM "segments")
            AND "simulated" = FALSE
        LIMIT 1;"#;

/// Finds the aircraft last seen inside the envelope of `$1` between `$2` and
/// `$3`, and the flights whose path meets that envelope and whose time
/// overlaps that window, each with its aircraft.
pub const FLIGHTS_QUERY: &'static str =
    r#"SELECT
            "flights"."flight_identifier" AS "flight_identifier",
            "aircraft"."identifier" AS "aircraft_identifier",
            "aircraft"."aircraft_type" AS "aircraft_type",
            "aircraft"."simulated" AS "simulated"
        FROM "arrow"."aircraft" AS "aircraft"
        LEFT JOIN "arrow"."flights" AS "flights"
            ON (
                "flights"."aircraft_identifier" = "aircraft"."identifier"
                OR "flights"."flight_identifier" = "aircraft"."session_id"
            )
        WHERE
            (
                ST_Intersects(ST_Envelope($1), "aircraft"."geom")
                AND "aircraft"."last_position_update" >= $2
                AND "aircraft"."last_position_update" <= $3
            ) OR (
                "flights"."geom" IS NOT NULL
                AND ST_Intersects(ST_Envelope($1), "flights"."geom")
                AND "flights"."time_end" >= $2
                AND "flights"."time_start" <= $3
            );"#;

/// Reads what is known of the aircraft of the session `$1` or with the
/// identifier `$2`.
pub const TELEMETRY_QUERY: &'static str =
    r#"SELECT
            "identifier",
            "session_id",
            "geom",
            "velocity_horizontal_ground_mps",
            "velocity_vertical_mps",
            "track_angle_degrees",
            "last_position_update",
            "op_status"
        FROM "arrow"."aircraft"
        WHERE
            "session_id" = $1
            OR "identifier" = $2
        LIMIT 1;"#;

/// A flight path, as requests carry it.
#[derive(Debug, Clone, PartialEq, Eq, Default)]
pub struct UpdateFlightPathRequest {
    /// The identifier of the flight.
    pub flight_identifier: Option<String>,
    /// The identifier of the aircraft that flies it.
    pub aircraft_identifier: Option<String>,
    /// The wire code of the kind of aircraft.
    pub aircraft_type: i32,
    /// Whether the flight is simulated.
    pub simulated: bool,
    /// When the flight starts.
    pub timestamp_start: Option<Timestamp>,
    /// When the flight ends.
    pub timestamp_end: Option<Timestamp>,
    /// The points of the path, in the order flown.
    pub path: Vec<GrpcPointZ>,
}

/// A validated flight: the row to store and the segments of its path.
#[derive(Debug, Clone, PartialEq, Eq)]
pub struct FlightPath {
    /// The identifier of the flight.
    pub flight_identifier: String,
    /// The identifier of the aircraft that flies it.
    pub aircraft_identifier: Option<String>,
    /// The kind of aircraft.
    pub aircraft_type: AircraftType,
    /// Whether the flight is simulated.
    pub simulated: bool,
    /// When the flight starts.
    pub time_start: UtcTime,
    /// When the flight ends.
    pub time_end: UtcTime,
    /// The points of the path, in the order flown.
    pub geom: Vec<PointZ>,
    /// The path cut into segments.
    pub segments: Vec<Segment>,
}

/// A request for the flights in a window of space and time.
#[derive(Debug, Copy, Clone, PartialEq, Eq, Default)]
pub struct GetFlightsRequest {
    /// The least longitude of the window.
    pub window_min_x: i32,
    /// The least latitude of the window.
    pub window_min_y: i32,
    /// The greatest longitude of the window.
    pub window_max_x: i32,
    /// The greatest latitude of the window.
    pub window_max_y: i32,
    /// When the window opens.
    pub time_start: Option<Timestamp>,
    /// When the window closes.
    pub time_end: Option<Timestamp>,
}

/// The arguments of the query for the flights in a window.
#[derive(Debug, Copy, Clone, PartialEq, Eq)]
pub struct FlightsWindow {
    /// The corner of the window with the least coordinates.
    pub low: Point,
    /// The corner of the window with the greatest coordinates.
    pub high: Point,
    /// When the window opens.
    pub time_start: UtcTime,
    /// When the window closes.
    pub time_end: UtcTime,
}

/// A position with the time at which the aircraft was there.
#[derive(Debug, Copy, Clone, PartialEq, Eq)]
pub struct TimePosition {
    /// Where the aircraft was.
    pub position: Option<GrpcPointZ>,
    /// When it was there.
    pub timestamp: Option<Timestamp>,
}

/// The state of an aircraft, as responses carry it.
#[derive(Debug, Copy, Clone, PartialEq, Eq)]
pub struct AircraftState {
    /// When the state was reported.
    pub timestamp: Option<Timestamp>,
    /// Speed over ground in metres per second, as a bit pattern.
    pub ground_speed_mps: u32,
    /// Vertical speed in metres per second, as a bit pattern.
    pub vertical_speed_mps: u32,
    /// Track angle in degrees, as a bit pattern.
    pub track_angle_degrees: u32,
    /// Where the aircraft is.
    pub position: Option<GrpcPointZ>,
    /// The wire code of what the aircraft is doing.
    pub status: i32,
}

/// A flight, as responses carry it.
#[derive(Debug, Clone, PartialEq, Eq)]
pub struct Flight {
    /// The identifier of the flight.
    pub session_id: Option<String>,
    /// The identifier of the aircraft.
    pub aircraft_id: Option<String>,
    /// Whether the flight is simulated.
    pub simulated: bool,
    /// Where the aircraft was, and when.
    pub positions: Vec<TimePosition>,
    /// The state of the aircraft.
    pub state: Option<AircraftState>,
    /// The wire code of the kind of aircraft.
    pub aircraft_type: i32,
}

/// A row of the answer to the query for flights.
#[derive(Debug, Clone, PartialEq, Eq)]
pub struct FlightRow {
    /// The identifier of the flight, if the aircraft has one.
    pub session_id: Option<String>,
    /// The identifier of the aircraft.
    pub aircraft_id: Option<String>,
    /// The kind of aircraft.
    pub aircraft_type: AircraftType,
    /// Whether the aircraft is simulated.
    pub simulated: bool,
}

/// A row of the answer to the query for what is known of an aircraft.
#[derive(Debug, Clone, PartialEq, Eq)]
pub struct TelemetryRow {
    /// The identifier of the aircraft.
    pub identifier: Option<String>,
    /// The identifier of its flight.
    pub session_id: Option<String>,
    /// Where the aircraft was last seen.
    pub geom: PointZ,
    /// Speed over ground in metres per second, as a bit pattern.
    pub velocity_horizontal_ground_mps: u32,
    /// Vertical speed in metres per second, as a bit pattern.
    pub velocity_vertical_mps: u32,
    /// Track angle in degrees, as a bit pattern.
    pub track_angle_degrees: u32,
    /// When the aircraft was last seen.
    pub last_position_update: UtcTime,
    /// What the aircraft is doing.
    pub status: OperationalStatus,
}

/// One step of the transaction that replaces a flight.
#[derive(Debug, Copy, Clone, PartialEq, Eq)]
pub enum FlightStatement {
    /// Write the row of the flight.
    UpsertFlight,
    /// Remove the segments that the store holds of the flight.
    DeleteSegments,
    /// Write the segment at this position.
    InsertSegment(usize),
}

/// The stored points of the positions of `path`.
pub open spec fn path_points(path: Seq<GrpcPointZ>) -> Seq<PointZ> {
    Seq::new(path.len(), |i: int| path[i].point())
}

/// The views of an identifier that may be missing.
pub open spec fn optional_text(text: Option<String>) -> Option<Seq<char>> {
    match text {
        Some(t) => Some(t@),
        None => None,
    }
}

/// The steps of the transaction that replaces a flight with `n` segments:
/// the row, then the removal of the old segments, then each new segment in
/// its order.
pub open spec fn replacement_plan(n: nat) -> Seq<FlightStatement> {
    seq![FlightStatement::UpsertFlight, FlightStatement::DeleteSegments] + Seq::new(
        n,
        |k: int| FlightStatement::InsertSegment(k as usize),
    )
}

impl UpdateFlightPathRequest {
    /// Whether the request names its flight by an identifier.
    pub open spec fn labelled(self) -> bool {
        self.flight_identifier matches Some(id) && valid_identifier(id@)
    }

    /// Why this request is refused, if it is: its flight identifier is
    /// missing or not valid; a time is missing or malformed; its kind of aircraft
    /// is unknown; a point of its path lies outside the globe; or its path
    /// cannot be cut into segments; the first of these that holds.
    pub open spec fn error(self) -> Option<FlightError> {
        if !self.labelled() {
            Some(FlightError::Label)
        } else if !usable_timestamp(self.timestamp_start) || !usable_timestamp(
            self.timestamp_end,
        ) {
            Some(FlightError::Time)
        } else if AircraftType::of_code(self.aircraft_type as int) is None {
            Some(FlightError::AircraftType)
        } else if !valid_points(path_points(self.path@)) {
            Some(FlightError::Location)
        } else {
            segmentize_error(
                path_points(self.path@),
                self.timestamp_start->0.instant(),
                self.timestamp_end->0.instant(),
                MAX_FLIGHT_SEGMENT_LENGTH_METERS,
            )
        }
    }
}

impl FlightPath {
    /// Whether this flight says what `request` says, and holds the segments
    /// of its path.
    pub open spec fn represents(self, request: UpdateFlightPathRequest) -> bool {
        &&& Some(self.flight_identifier@) == optional_text(request.flight_identifier)
        &&& optional_text(self.aircraft_identifier) == optional_text(request.aircraft_identifier)
        &&& Some(self.aircraft_type) == AircraftType::of_code(request.aircraft_type as int)
        &&& self.simulated == request.simulated
        &&& request.timestamp_start == Some(self.time_start.stamp())
        &&& request.timestamp_end == Some(self.time_end.stamp())
        &&& self.geom@ == path_points(request.path@)
        &&& self.segments@ == segments_of(
            self.geom@,
            self.time_start,
            self.time_end,
            MAX_FLIGHT_SEGMENT_LENGTH_METERS,
        )
    }

    /// Whether this flight may be stored: it has an identifier, it does not
    /// end before it starts, its path lies on the globe, and it has a
    /// segment.
    pub open spec fn wf(self) -> bool {
        &&& valid_identifier(self.flight_identifier@)
        &&& self.time_start.wf()
        &&& self.time_end.wf()
        &&& !self.time_end.before(self.time_start)
        &&& valid_points(self.geom@)
        &&& self.segments@.len() >= 1
    }

    /// The steps of the transaction that replaces what the store holds of
    /// this flight.
    pub fn statements(&self) -> (plan: Vec<FlightStatement>)
        ensures
            plan@ == replacement_plan(self.segments@.len()),
    {
        let mut plan: Vec<FlightStatement> = Vec::new();
        plan.push(FlightStatement::UpsertFlight);
        plan.push(FlightStatement::DeleteSegments);
        let mut k: usize = 0;
        while k < self.segments.len()
            invariant
                k <= self.segments@.len(),
                plan@ == replacement_plan(k as nat),
            decreases self.segments@.len() - k,
        {
            plan.push(FlightStatement::InsertSegment(k));
            k += 1;
        }
        plan
    }
}

/// Verifies that a flight identifier is valid.
pub fn check_flight_identifier(identifier: &str) -> (r: Result<(), StringError>)
    ensures
        r == check_string_spec(identifier@),
        r is Ok <==> valid_identifier(identifier@),
{
    check_string(identifier)
}

/// Validates the identification of a flight path.
pub fn validate_flight_path(item: &UpdateFlightPathRequest) -> (r: Result<(), PostgisError>)
    ensures
        item.labelled() ==> r is Ok,
        !item.labelled() ==> r == Err::<(), PostgisError>(
            PostgisError::FlightPath(FlightError::Label),
        ),
{
    match &item.flight_identifier {
        Some(identifier) => match check_flight_identifier(identifier.as_str()) {
            Ok(()) => Ok(()),
            Err(_) => Err(PostgisError::FlightPath(FlightError::Label)),
        },
        None => Err(PostgisError::FlightPath(FlightError::Label)),
    }
}

/// Converts the positions of a path, and refuses a path with a point
/// outside the globe.
pub fn convert_path(path: &Vec<GrpcPointZ>) -> (r: Option<Vec<PointZ>>)
    ensures
        r is Some <==> valid_points(path_points(path@)),
        r matches Some(points) ==> points@ == path_points(path@),
{
    let mut points: Vec<PointZ> = Vec::new();
    let mut i: usize = 0;
    while i < path.len()
        invariant
            i <= path@.len(),
            points@.len() == i,
            forall|k: int| 0 <= k < i ==> #[trigger] points@[k] == path@[k].point(),
            forall|k: int| 0 <= k < i ==> valid_pointz(#[trigger] path_points(path@)[k]),
        decreases path@.len() - i,
    {
        match PointZ::try_from(path[i]) {
            Ok(point) => {
                points.push(point);
            },
            Err(_) => {
                assert(!valid_pointz(path_points(path@)[i as int]));
                return None;
            },
        }
        i += 1;
    }
    Some(points)
}

/// Validates a flight path and cuts it into segments: the flight to store,
/// or the cause for which the request is refused.
pub fn flight_path(flight: UpdateFlightPathRequest) -> (r: Result<FlightPath, PostgisError>)
    ensures
        match r {
            Ok(record) => flight.error() is None && record.represents(flight) && record.wf(),
            Err(e) => flight.error() matches Some(cause) && e == PostgisError::FlightPath(cause),
        },
{
    match validate_flight_path(&flight) {
        Ok(()) => {},
        Err(e) => {
            return Err(e);
        },
    }
    let time_start = match convert_timestamp(flight.timestamp_start) {
        Some(instant) => instant,
        None => {
            return Err(PostgisError::FlightPath(FlightError::Time));
        },
    };
    let time_end = match convert_timestamp(flight.timestamp_end) {
        Some(instant) => instant,
        None => {
            return Err(PostgisError::FlightPath(FlightError::Time));
        },
    };
    let aircraft_type = match AircraftType::from_i32(flight.aircraft_type) {
        Some(kind) => kind,
        None => {
            return Err(PostgisError::FlightPath(FlightError::AircraftType));
        },
    };
    let geom = match convert_path(&flight.path) {
        Some(points) => points,
        None => {
            return Err(PostgisError::FlightPath(FlightError::Location));
        },
    };
    let segments = match segmentize(
        geom.clone(),
        time_start,
        time_end,
        MAX_FLIGHT_SEGMENT_LENGTH_METERS,
    ) {
        Ok(segments) => segments,
        Err(e) => {
            return Err(PostgisError::FlightPath(e));
        },
    };
    let flight_identifier = match flight.flight_identifier {
        Some(identifier) => identifier,
        None => {
            return Err(PostgisError::FlightPath(FlightError::Label));
        },
    };
    proof {
        lemma_segments_tile_flight(
            geom@,
            time_start,
            time_end,
            MAX_FLIGHT_SEGMENT_LENGTH_METERS,
        );
    }
    Ok(
        FlightPath {
            flight_identifier,
            aircraft_identifier: flight.aircraft_identifier,
            aircraft_type,
            simulated: flight.simulated,
            time_start,
            time_end,
            geom,
            segments,
        },
    )
}

/// The statement that creates the table of flights, unless it exists.
pub open spec fn flights_table_definition() -> Seq<char> {
    r#"CREATE TABLE IF NOT EXISTS "arrow"."flights" (
            "flight_identifier" VARCHAR(20) UNIQUE PRIMARY KEY NOT NULL,
            "aircraft_identifier" VARCHAR(20) NOT NULL,
            "aircraft_type" aircrafttype NOT NULL DEFAULT '"#@
        + AircraftType::Undeclared.label() + r#"',
            "simulated" BOOLEAN NOT NULL DEFAULT FALSE,
            "geom" GEOMETRY(LINESTRINGZ, 4326),
            "isa" GEOMETRY NOT NULL,
            "time_start" TIMESTAMPTZ,
            "time_end" TIMESTAMPTZ
        );"#@
}

/// The texts of the statements that set up the store for flights: the two
/// tables, then the index on each.
pub open spec fn init_texts() -> Seq<Seq<char>> {
    seq![
        flights_table_definition(),
        CREATE_FLIGHT_SEGMENTS_TABLE@,
        CREATE_FLIGHTS_INDEX@,
        CREATE_FLIGHT_SEGMENTS_INDEX@,
    ]
}

/// The statements that set up the store for flights, to be run in this
/// order within one transaction, after those for aircraft. Each leaves a
/// store that is set up as it is.
pub fn init_statements() -> (statements: Vec<String>)
    ensures
        label_views(statements@) == init_texts(),
{
    let mut table: String = String::from_str(
        r#"CREATE TABLE IF NOT EXISTS "arrow"."flights" (
            "flight_identifier" VARCHAR(20) UNIQUE PRIMARY KEY NOT NULL,
            "aircraft_identifier" VARCHAR(20) NOT NULL,
            "aircraft_type" aircrafttype NOT NULL DEFAULT '"#,
    );
    table.append(AircraftType::Undeclared.to_string().as_str());
    table.append(
        r#"',
            "simulated" BOOLEAN NOT NULL DEFAULT FALSE,
            "geom" GEOMETRY(LINESTRINGZ, 4326),
            "isa" GEOMETRY NOT NULL,
            "time_start" TIMESTAMPTZ,
            "time_end" TIMESTAMPTZ
        );"#,
    );
    let mut statements: Vec<String> = Vec::new();
    statements.push(table);
    statements.push(String::from_str(CREATE_FLIGHT_SEGMENTS_TABLE));
    statements.push(String::from_str(CREATE_FLIGHTS_INDEX));
    statements.push(String::from_str(CREATE_FLIGHT_SEGMENTS_INDEX));
    statements
}

impl GetFlightsRequest {
    /// Whether both ends of the window of time are there and well-formed.
    pub open spec fn timed(self) -> bool {
        usable_timestamp(self.time_start) && usable_timestamp(self.time_end)
    }
}

/// Validates a request for the flights in a window: the arguments of the
/// query, or `Time` where an end of the window of time is missing or
/// malformed.
pub fn flights_window(request: &GetFlightsRequest) -> (r: Result<FlightsWindow, FlightError>)
    ensures
        !request.timed() ==> r == Err::<FlightsWindow, FlightError>(FlightError::Time),
        request.timed() ==> r == Ok::<FlightsWindow, FlightError>(
            FlightsWindow {
                low: Point { x: request.window_min_x, y: request.window_min_y },
                high: Point { x: request.window_max_x, y: request.window_max_y },
                time_start: request.time_start->0.instant(),
                time_end: request.time_end->0.instant(),
            },
        ),
{
    let time_start = match convert_timestamp(request.time_start) {
        Some(instant) => instant,
        None => {
            return Err(FlightError::Time);
        },
    };
    let time_end = match convert_timestamp(request.time_end) {
        Some(instant) => instant,
        None => {
            return Err(FlightError::Time);
        },
    };
    Ok(
        FlightsWindow {
            low: Point { x: request.window_min_x, y: request.window_min_y },
            high: Point { x: request.window_max_x, y: request.window_max_y },
            time_start,
            time_end,
        },
    )
}

/// What a failure of the store means to the caller of a query for flights:
/// no pool or no session is `Client`, anything later `DBError`.
pub fn query_failure(failure: StoreFailure) -> (e: FlightError)
    ensures
        e == (if failure == StoreFailure::Pool || failure == StoreFailure::Session {
            FlightError::Client
        } else {
            FlightError::DBError
        }),
{
    match failure {
        StoreFailure::Pool => FlightError::Client,
        StoreFailure::Session => FlightError::Client,
        _ => FlightError::DBError,
    }
}

impl TelemetryRow {
    /// The position of this row with its time.
    pub open spec fn time_position(self) -> TimePosition {
        TimePosition {
            position: Some(self.geom.position()),
            timestamp: Some(self.last_position_update.stamp()),
        }
    }

    /// The state that this row describes.
    pub open spec fn state(self) -> AircraftState {
        AircraftState {
            timestamp: Some(self.last_position_update.stamp()),
            ground_speed_mps: self.velocity_horizontal_ground_mps,
            vertical_speed_mps: self.velocity_vertical_mps,
            track_angle_degrees: self.track_angle_degrees,
            position: Some(self.geom.position()),
            status: self.status.code() as i32,
        }
    }
}

impl Flight {
    /// Whether this flight is the flight that `row` describes, with no
    /// position and no state yet.
    pub open spec fn of_row(self, row: FlightRow) -> bool {
        &&& self.session_id == row.session_id
        &&& self.aircraft_id == row.aircraft_id
        &&& self.simulated == row.simulated
        &&& self.positions@.len() == 0
        &&& self.state is None
        &&& self.aircraft_type == row.aircraft_type.code()
    }

    /// Whether this flight is `before` with what `row` knows of its
    /// aircraft: the identifiers and the state of the row, and the row's
    /// position after those that `before` had.
    pub open spec fn with_telemetry(self, before: Flight, row: TelemetryRow) -> bool {
        &&& self.session_id == row.session_id
        &&& self.aircraft_id == row.identifier
        &&& self.simulated == before.simulated
        &&& self.positions@ == before.positions@.push(row.time_position())
        &&& self.state == Some(row.state())
        &&& self.aircraft_type == before.aircraft_type
    }

    /// Whether this flight holds what `other` holds.
    pub open spec fn same_as(self, other: Flight) -> bool {
        &&& self.session_id == other.session_id
        &&& self.aircraft_id == other.aircraft_id
        &&& self.simulated == other.simulated
        &&& self.positions@ == other.positions@
        &&& self.state == other.state
        &&& self.aircraft_type == other.aircraft_type
    }

    /// The flight that a row of the answer describes.
    pub fn from_row(row: FlightRow) -> (flight: Flight)
        ensures
            flight.of_row(row),
    {
        Flight {
            session_id: row.session_id,
            aircraft_id: row.aircraft_id,
            simulated: row.simulated,
            positions: Vec::new(),
            state: None,
            aircraft_type: row.aircraft_type.to_i32(),
        }
    }

    /// A copy of this flight.
    pub fn duplicate(&self) -> (copy: Flight)
        ensures
            copy.same_as(*self),
    {
        let session_id: Option<String> = match &self.session_id {
            Some(text) => Some(text.clone()),
            None => None,
        };
        let aircraft_id: Option<String> = match &self.aircraft_id {
            Some(text) => Some(text.clone()),
            None => None,
        };
        let mut positions: Vec<TimePosition> = Vec::new();
        let mut i: usize = 0;
        while i < self.positions.len()
            invariant
                i <= self.positions@.len(),
                positions@ == self.positions@.subrange(0, i as int),
            decreases self.positions@.len() - i,
        {
            positions.push(self.positions[i]);
            i += 1;
        }
        assert(positions@ =~= self.positions@);
        Flight {
            session_id,
            aircraft_id,
            simulated: self.simulated,
            positions,
            state: self.state,
            aircraft_type: self.aircraft_type,
        }
    }
}

/// Whether every row of `rows` could be read.
pub open spec fn all_read<T>(rows: Seq<Option<T>>) -> bool {
    forall|i: int| 0 <= i < rows.len() ==> (#[trigger] rows[i]) is Some
}

/// Turns the rows of the answer to the query for flights into flights, each
/// with no position and no state yet. A row that could not be read, `None`,
/// fails the whole answer with `DBError`.
pub fn flights_from_rows(rows: Vec<Option<FlightRow>>) -> (r: Result<Vec<Flight>, FlightError>)
    ensures
        match r {
            Ok(flights) => {
                &&& all_read(rows@)
                &&& flights@.len() == rows@.len()
                &&& forall|i: int|
                    0 <= i < rows@.len() ==> (#[trigger] flights@[i]).of_row(rows@[i]->0)
            },
            Err(e) => !all_read(rows@) && e == FlightError::DBError,
        },
{
    let ghost all = rows@;
    let mut flights: Vec<Flight> = Vec::new();
    for row in it: rows.into_iter()
        invariant
            it.seq() == all,
            flights@.len() == it.index(),
            forall|i: int| 0 <= i < it.index() ==> (#[trigger] all[i]) is Some,
            forall|i: int| 0 <= i < flights@.len() ==> (#[trigger] flights@[i]).of_row(all[i]->0),
    {
        match row {
            Some(row) => {
                flights.push(Flight::from_row(row));
            },
            None => {
                return Err(FlightError::DBError);
            },
        }
    }
    Ok(flights)
}

/// Adds to a flight what a row knows of its aircraft.
pub fn process_row(row: TelemetryRow, flight: &mut Flight)
    requires
        row.last_position_update.wf(),
    ensures
        final(flight).with_telemetry(*old(flight), row),
{
    let position = row.geom.to_position();
    let timestamp = row.last_position_update.to_timestamp();
    flight.session_id = row.session_id;
    flight.aircraft_id = row.identifier;
    flight.positions.push(TimePosition { position: Some(position), timestamp: Some(timestamp) });
    flight.state = Some(
        AircraftState {
            timestamp: Some(timestamp),
            ground_speed_mps: row.velocity_horizontal_ground_mps,
            vertical_speed_mps: row.velocity_vertical_mps,
            track_angle_degrees: row.track_angle_degrees,
            position: Some(position),
            status: row.status.to_i32(),
        },
    );
}

/// The rows among the first `n` of `rows` that could be read, in order.
pub open spec fn rows_read(rows: Seq<Option<TelemetryRow>>, n: int) -> Seq<TelemetryRow>
    decreases n,
{
    if n <= 0 {
        Seq::empty()
    } else if rows[n - 1] is Some {
        rows_read(rows, n - 1).push(rows[n - 1]->0)
    } else {
        rows_read(rows, n - 1)
    }
}

/// What is answered for one flight, given the answer to the query for what
/// is known of its aircraft: for each row that could be read, the flight
/// with what that row knows. A row that could not be read, `None`, is passed
/// over; so is the flight where the query itself failed, `rows` being
/// `None`.
pub fn flight_states(flight: &Flight, rows: Option<Vec<Option<TelemetryRow>>>) -> (states: Vec<
    Flight,
>)
    requires
        rows matches Some(all) ==> forall|i: int|
            0 <= i < all@.len() ==> ((#[trigger] all@[i]) matches Some(row)
                ==> row.last_position_update.wf()),
    ensures
        rows is None ==> states@.len() == 0,
        rows matches Some(all) ==> {
            let read = rows_read(all@, all@.len() as int);
            &&& states@.len() == read.len()
            &&& forall|j: int|
                0 <= j < read.len() ==> (#[trigger] states@[j]).with_telemetry(*flight, read[j])
        },
{
    let mut states: Vec<Flight> = Vec::new();
    let all = match rows {
        Some(all) => all,
        None => {
            return states;
        },
    };
    let ghost answer = all@;
    for row in it: all.into_iter()
        invariant
            it.seq() == answer,
            forall|i: int|
                0 <= i < answer.len() ==> ((#[trigger] answer[i]) matches Some(row)
                    ==> row.last_position_update.wf()),
            states@.len() == rows_read(answer, it.index() as int).len(),
            forall|j: int|
                0 <= j < states@.len() ==> (#[trigger] states@[j]).with_telemetry(
                    *flight,
                    rows_read(answer, it.index() as int)[j],
                ),
    {
        match row {
            Some(row) => {
                let mut state = flight.duplicate();
                process_row(row, &mut state);
                states.push(state);
            },
            None => {},
        }
    }
    states
}

/// A flight path whose flight identifier is missing, or holds a quote, a
/// double quote, a semicolon or a blank, or is longer than 255 characters,
/// is refused for its label, whatever else it holds.
pub proof fn lemma_hazardous_flight_identifier_refused(request: UpdateFlightPathRequest)
    requires
        request.flight_identifier matches Some(id) ==> hazardous(id@),
    ensures
        request.error() == Some(FlightError::Label),
{
    if request.flight_identifier is Some {
        lemma_hazardous_strings_rejected(request.flight_identifier->0@);
    }
}

/// A flight path that is labelled, timed and typed, one of whose points has
/// a latitude beyond 90 degrees or a longitude beyond 180 degrees, on either
/// side, is refused for its location.
pub proof fn lemma_path_off_globe_refused(request: UpdateFlightPathRequest, i: int)
    requires
        request.labelled(),
        usable_timestamp(request.timestamp_start),
        usable_timestamp(request.timestamp_end),
        AircraftType::of_code(request.aircraft_type as int) is Some,
        0 <= i < request.path@.len(),
        request.path@[i].latitude < -MAX_LATITUDE || request.path@[i].latitude > MAX_LATITUDE
            || request.path@[i].longitude < -MAX_LONGITUDE || request.path@[i].longitude
            > MAX_LONGITUDE,
    ensures
        request.error() == Some(FlightError::Location),
{
    assert(!valid_pointz(path_points(request.path@)[i]));
}

/// The segments of a flight that stands for a request follow the path of the
/// request from its first point to its last without a gap, none longer than
/// the limit and the tolerance, and their windows tile the time from the
/// start of the flight to its end.
pub proof fn lemma_flight_is_tiled(flight: FlightPath, request: UpdateFlightPathRequest)
    requires
        request.error() is None,
        flight.represents(request),
        flight.wf(),
    ensures
        ({
            let s = flight.segments@;
            let points = path_points(request.path@);
            &&& s.len() >= 1
            &&& s[0].geom.start == points[0]
            &&& s[s.len() - 1].geom.end == points[points.len() - 1]
            &&& s[0].time_start == flight.time_start
            &&& s[s.len() - 1].time_end == flight.time_end
            &&& contiguous(s)
            &&& forall|k: int|
                0 <= k < s.len() ==> {
                    &&& !(#[trigger] s[k]).time_end.before(s[k].time_start)
                    &&& distance_squared(s[k].geom.start, s[k].geom.end) <= (limit_units(
                        MAX_FLIGHT_SEGMENT_LENGTH_METERS,
                    ) + LENGTH_TOLERANCE) * (limit_units(MAX_FLIGHT_SEGMENT_LENGTH_METERS)
                        + LENGTH_TOLERANCE)
                }
        }),
{
    let points = path_points(request.path@);
    lemma_segments_tile_flight(
        points,
        flight.time_start,
        flight.time_end,
        MAX_FLIGHT_SEGMENT_LENGTH_METERS,
    );
    lemma_segment_lengths_bounded(
        points,
        flight.time_start,
        flight.time_end,
        MAX_FLIGHT_SEGMENT_LENGTH_METERS,
    );
}

/// Whether two requests say the same.
pub open spec fn same_request(a: UpdateFlightPathRequest, b: UpdateFlightPathRequest) -> bool {
    &&& optional_text(a.flight_identifier) == optional_text(b.flight_identifier)
    &&& optional_text(a.aircraft_identifier) == optional_text(b.aircraft_identifier)
    &&& a.aircraft_type == b.aircraft_type
    &&& a.simulated == b.simulated
    &&& a.timestamp_start == b.timestamp_start
    &&& a.timestamp_end == b.timestamp_end
    &&& a.path@ == b.path@
}

/// A request that is submitted again is refused again, for the same cause,
/// or gives the same row, the same segments and the same transaction again.
pub proof fn lemma_resubmission_gives_same_flight(
    first: UpdateFlightPathRequest,
    second: UpdateFlightPathRequest,
    stored: FlightPath,
    again: FlightPath,
)
    requires
        same_request(first, second),
        stored.represents(first),
        stored.wf(),
        again.represents(second),
        again.wf(),
    ensures
        first.error() == second.error(),
        stored.flight_identifier@ == again.flight_identifier@,
        optional_text(stored.aircraft_identifier) == optional_text(again.aircraft_identifier),
        stored.aircraft_type == again.aircraft_type,
        stored.simulated == again.simulated,
        stored.time_start == again.time_start,
        stored.time_end == again.time_end,
        stored.geom@ == again.geom@,
        stored.segments@ == again.segments@,
        replacement_plan(stored.segments@.len()) == replacement_plan(again.segments@.len()),
{
}

/// What a failure of the store means to the caller of a flight-path update:
/// no session or no transaction is `Client`, anything else `DBError`.
pub fn write_failure(failure: StoreFailure) -> (e: PostgisError)
    ensures
        e == PostgisError::FlightPath(
            if failure == StoreFailure::Session || failure == StoreFailure::Transaction {
                FlightError::Client
            } else {
                FlightError::DBError
            },
        ),
{
    match failure {
        StoreFailure::Session => PostgisError::FlightPath(FlightError::Client),
        StoreFailure::Transaction => PostgisError::FlightPath(FlightError::Client),
        _ => PostgisError::FlightPath(FlightError::DBError),
    }
}

} // verus!

//! Aircraft telemetry: the three streams of requests, identity, position and
//! velocity, their validated records, and the statements that merge each
//! stream into the one row that an aircraft has.
//!
//! A velocity or an angle of a request is a 32-bit floating-point number.
//! The library carries it by its IEEE 754 bit pattern and never reads it.

use vstd::prelude::*;
use vstd::string::*;
pub use crate::error::AircraftError;
use crate::error::PostgisError;
use crate::geometry::{valid_pointz, GrpcPointZ, PointZ, MAX_LATITUDE, MAX_LONGITUDE};
use crate::error::StringError;
use crate::identifier::{
    check_string, check_string_spec, hazardous, lemma_hazardous_strings_rejected,
    valid_identifier,
};
use crate::store::{enum_declaration, psql_enum_declaration, StoreFailure};
use crate::time::{convert_timestamp, usable_timestamp, Timestamp, UtcTime};
use crate::types::{label_views, AircraftType, OperationalStatus};

verus! {

/// The pattern of an identifier, for those who show it. An identifier must
/// also not spell `null`.
pub const IDENTIFIER_REGEX: &'static str = r"^[\-0-9A-Za-z_\.]{1,255}$";

/// Merges the identity of an aircraft into its row. On a row that exists
/// only the columns of this stream change.
pub const UPSERT_AIRCRAFT_ID: &'static str =
    r#"INSERT INTO "arrow"."aircraft" ("identifier", "aircraft_type", "last_identifier_update")
        VALUES ($1, $2, $3)
        ON CONFLICT ("identifier") DO UPDATE
            SET "aircraft_type" = EXCLUDED."aircraft_type",
                "last_identifier_update" = EXCLUDED."last_identifier_update";"#;

/// Merges the position of an aircraft into its row. On a row that exists
/// only the columns of this stream change.
pub const UPSERT_AIRCRAFT_POSITION: &'static str =
    r#"INSERT INTO "arrow"."aircraft" ("identifier", "geom", "last_position_update")
        VALUES ($1, $2, $3)
        ON CONFLICT ("identifier") DO UPDATE
            SET "geom" = EXCLUDED."geom",
                "last_position_update" = EXCLUDED."last_position_update";"#;

/// Merges the velocity of an aircraft into its row. On a row that exists
/// only the columns of this stream change.
pub const UPSERT_AIRCRAFT_VELOCITY: &'static str =
    r#"INSERT INTO "arrow"."aircraft" (
            "identifier",
            "velocity_horizontal_ground_mps",
            "velocity_vertical_mps",
            "track_angle_degrees",
            "last_velocity_update"
        ) VALUES ($1, $2, $3, $4, $5)
        ON CONFLICT ("identifier") DO UPDATE
            SET "velocity_horizontal_ground_mps" = EXCLUDED."velocity_horizontal_ground_mps",
                "velocity_vertical_mps" = EXCLUDED."velocity_vertical_mps",
                "track_angle_degrees" = EXCLUDED."track_angle_degrees",
                "last_velocity_update" = EXCLUDED."last_velocity_update";"#;

/// Reads the position of one aircraft.
pub const SELECT_AIRCRAFT_POINTZ: &'static str =
    r#"SELECT "geom" FROM "arrow"."aircraft" WHERE "identifier" = $1;"#;

/// Verifies that an aircraft identifier is valid.
pub fn check_identifier(identifier: &str) -> (r: Result<(), StringError>)
    ensures
        r == check_string_spec(identifier@),
        r is Ok <==> valid_identifier(identifier@),
{
    check_string(identifier)
}

/// The identity of an aircraft, as requests carry it.
#[derive(Debug, Clone, PartialEq, Eq, Default)]
pub struct ReqAircraftId {
    /// The identifier of the aircraft.
    pub identifier: String,
    /// The wire code of the kind of aircraft.
    pub aircraft_type: i32,
    /// When the network received the report.
    pub timestamp_network: Option<Timestamp>,
}

/// The position of an aircraft, as requests carry it.
#[derive(Debug, Clone, PartialEq, Eq, Default)]
pub struct ReqAircraftPos {
    /// The identifier of the aircraft.
    pub identifier: String,
    /// Where the aircraft is.
    pub geom: Option<GrpcPointZ>,
    /// When the network received the report.
    pub timestamp_network: Option<Timestamp>,
    /// When the aircraft made the report.
    pub timestamp_aircraft: Option<Timestamp>,
}

/// The velocity of an aircraft, as requests carry it.
#[derive(Debug, Clone, PartialEq, Eq, Default)]
pub struct ReqAircraftVelocity {
    /// The identifier of the aircraft.
    pub identifier: String,
    /// Speed over ground in metres per second, as a bit pattern.
    pub velocity_horizontal_ground_mps: u32,
    /// Vertical speed in metres per second, as a bit pattern.
    pub velocity_vertical_mps: u32,
    /// Track angle in degrees, as a bit pattern.
    pub track_angle_degrees: u32,
    /// When the network received the report.
    pub timestamp_network: Option<Timestamp>,
}

/// The validated identity of an aircraft.
#[derive(Debug, Clone, PartialEq, Eq)]
pub struct AircraftId {
    /// The identifier of the aircraft.
    pub identifier: String,
    /// The kind of aircraft.
    pub aircraft_type: AircraftType,
    /// When the identity was reported.
    pub timestamp: UtcTime,
}

/// The validated position of an aircraft.
#[derive(Debug, Clone, PartialEq, Eq)]
pub struct AircraftPosition {
    /// The identifier of the aircraft.
    pub identifier: String,
    /// Where the aircraft is.
    pub geom: PointZ,
    /// When the position was reported.
    pub timestamp: UtcTime,
}

/// The validated velocity of an aircraft.
#[derive(Debug, Clone, PartialEq, Eq)]
pub struct AircraftVelocity {
    /// The identifier of the aircraft.
    pub identifier: String,
    /// Speed over ground in metres per second, as a bit pattern.
    pub velocity_horizontal_ground_mps: u32,
    /// Vertical speed in metres per second, as a bit pattern.
    pub velocity_vertical_mps: u32,
    /// Track angle in degrees, as a bit pattern.
    pub track_angle_degrees: u32,
    /// When the velocity was reported.
    pub timestamp: UtcTime,
}

impl ReqAircraftId {
    /// Why this request is refused, if it is: its identifier is not valid, its
    /// kind of aircraft is unknown, or its time is missing or malformed; the
    /// first of these that holds.
    pub open spec fn error(self) -> Option<AircraftError> {
        if !valid_identifier(self.identifier@) {
            Some(AircraftError::Label)
        } else if AircraftType::of_code(self.aircraft_type as int) is None {
            Some(AircraftError::AircraftId)
        } else if !usable_timestamp(self.timestamp_network) {
            Some(AircraftError::Time)
        } else {
            None
        }
    }
}

impl ReqAircraftPos {
    /// Why this request is refused, if it is: its identifier is not valid, its
    /// position is missing or outside the globe, or its time is missing or
    /// malformed; the first of these that holds.
    pub open spec fn error(self) -> Option<AircraftError> {
        if !valid_identifier(self.identifier@) {
            Some(AircraftError::Label)
        } else if !(self.geom matches Some(g) && valid_pointz(g.point())) {
            Some(AircraftError::Location)
        } else if !usable_timestamp(self.timestamp_network) {
            Some(AircraftError::Time)
        } else {
            None
        }
    }
}

impl ReqAircraftVelocity {
    /// Why this request is refused, if it is: its identifier is not valid, or its
    /// time is missing or malformed; the first of these that holds.
    pub open spec fn error(self) -> Option<AircraftError> {
        if !valid_identifier(self.identifier@) {
            Some(AircraftError::Label)
        } else if !usable_timestamp(self.timestamp_network) {
            Some(AircraftError::Time)
        } else {
            None
        }
    }
}

impl AircraftId {
    /// Whether this record may be stored.
    pub open spec fn wf(self) -> bool {
        valid_identifier(self.identifier@) && self.timestamp.wf()
    }

    /// Whether this record says what `request` says.
    pub open spec fn represents(self, request: ReqAircraftId) -> bool {
        &&& self.identifier@ == request.identifier@
        &&& Some(self.aircraft_type) == AircraftType::of_code(request.aircraft_type as int)
        &&& request.timestamp_network == Some(self.timestamp.stamp())
    }

    /// Validates and converts a request.
    pub fn try_from(craft: ReqAircraftId) -> (r: Result<AircraftId, PostgisError>)
        ensures
            match r {
                Ok(record) => craft.error() is None && record.represents(craft) && record.wf(),
                Err(e) => craft.error() matches Some(cause) && e == PostgisError::Aircraft(cause),
            },
    {
        match check_identifier(craft.identifier.as_str()) {
            Ok(()) => {},
            Err(_) => {
                return Err(PostgisError::Aircraft(AircraftError::Label));
            },
        }
        let aircraft_type = match AircraftType::from_i32(craft.aircraft_type) {
            Some(kind) => kind,
            None => {
                return Err(PostgisError::Aircraft(AircraftError::AircraftId));
            },
        };
        let timestamp = match convert_timestamp(craft.timestamp_network) {
            Some(instant) => instant,
            None => {
                return Err(PostgisError::Aircraft(AircraftError::Time));
            },
        };
        Ok(AircraftId { identifier: craft.identifier, aircraft_type, timestamp })
    }
}

impl AircraftPosition {
    /// Whether this record may be stored.
    pub open spec fn wf(self) -> bool {
        valid_identifier(self.identifier@) && valid_pointz(self.geom) && self.timestamp.wf()
    }

    /// Whether this record says what `request` says.
    pub open spec fn represents(self, request: ReqAircraftPos) -> bool {
        &&& self.identifier@ == request.identifier@
        &&& request.geom == Some(self.geom.position())
        &&& request.timestamp_network == Some(self.timestamp.stamp())
    }

    /// Validates and converts a request.
    pub fn try_from(craft: ReqAircraftPos) -> (r: Result<AircraftPosition, PostgisError>)
        ensures
            match r {
                Ok(record) => craft.error() is None && record.represents(craft) && record.wf(),
                Err(e) => craft.error() matches Some(cause) && e == PostgisError::Aircraft(cause),
            },
    {
        match check_identifier(craft.identifier.as_str()) {
            Ok(()) => {},
            Err(_) => {
                return Err(PostgisError::Aircraft(AircraftError::Label));
            },
        }
        let position = match craft.geom {
            Some(position) => position,
            None => {
                return Err(PostgisError::Aircraft(AircraftError::Location));
            },
        };
        let geom = match PointZ::try_from(position) {
            Ok(point) => point,
            Err(_) => {
                return Err(PostgisError::Aircraft(AircraftError::Location));
            },
        };
        let timestamp = match convert_timestamp(craft.timestamp_network) {
            Some(instant) => instant,
            None => {
                return Err(PostgisError::Aircraft(AircraftError::Time));
            },
        };
        Ok(AircraftPosition { identifier: craft.identifier, geom, timestamp })
    }
}

impl AircraftVelocity {
    /// Whether this record may be stored.
    pub open spec fn wf(self) -> bool {
        valid_identifier(self.identifier@) && self.timestamp.wf()
    }

    /// Whether this record says what `request` says.
    pub open spec fn represents(self, request: ReqAircraftVelocity) -> bool {
        &&& self.identifier@ == request.identifier@
        &&& self.velocity_horizontal_ground_mps == request.velocity_horizontal_ground_mps
        &&& self.velocity_vertical_mps == request.velocity_vertical_mps
        &&& self.track_angle_degrees == request.track_angle_degrees
        &&& request.timestamp_network == Some(self.timestamp.stamp())
    }

    /// Validates and converts a request.
    pub fn try_from(craft: ReqAircraftVelocity) -> (r: Result<AircraftVelocity, PostgisError>)
        ensures
            match r {
                Ok(record) => craft.error() is None && record.represents(craft) && record.wf(),
                Err(e) => craft.error() matches Some(cause) && e == PostgisError::Aircraft(cause),
            },
    {
        match check_identifier(craft.identifier.as_str()) {
            Ok(()) => {},
            Err(_) => {
                return Err(PostgisError::Aircraft(AircraftError::Label));
            },
        }
        let timestamp = match convert_timestamp(craft.timestamp_network) {
            Some(instant) => instant,
            None => {
                return Err(PostgisError::Aircraft(AircraftError::Time));
            },
        };
        Ok(
            AircraftVelocity {
                identifier: craft.identifier,
                velocity_horizontal_ground_mps: craft.velocity_horizontal_ground_mps,
                velocity_vertical_mps: craft.velocity_vertical_mps,
                track_angle_degrees: craft.track_angle_degrees,
                timestamp,
            },
        )
    }
}

/// The first cause among `causes` from position `from` on; `None` where
/// there is none.
pub open spec fn first_refusal(causes: Seq<Option<AircraftError>>, from: int) -> Option<
    AircraftError,
>
    decreases causes.len() - from,
{
    if from < 0 || from >= causes.len() {
        None
    } else if causes[from] is Some {
        causes[from]
    } else {
        first_refusal(causes, from + 1)
    }
}

/// Why a batch is refused, if it is, given for each of its requests why that
/// one is refused, if it is: the batch is empty, or one of its requests is
/// refused, and then for the cause of the first such.
pub open spec fn batch_error(causes: Seq<Option<AircraftError>>) -> Option<AircraftError> {
    if causes.len() == 0 {
        Some(AircraftError::NoAircraft)
    } else {
        first_refusal(causes, 0)
    }
}

/// For each request of a batch of identities, why it is refused, if it is.
pub open spec fn id_causes(requests: Seq<ReqAircraftId>) -> Seq<Option<AircraftError>> {
    Seq::new(requests.len(), |i: int| requests[i].error())
}

/// For each request of a batch of positions, why it is refused, if it is.
pub open spec fn position_causes(requests: Seq<ReqAircraftPos>) -> Seq<Option<AircraftError>> {
    Seq::new(requests.len(), |i: int| requests[i].error())
}

/// For each request of a batch of velocities, why it is refused, if it is.
pub open spec fn velocity_causes(requests: Seq<ReqAircraftVelocity>) -> Seq<
    Option<AircraftError>,
> {
    Seq::new(requests.len(), |i: int| requests[i].error())
}

/// Validates and converts a batch of identities, all of it or none: the
/// records to store, one for each request and in their order, or the cause
/// for which the batch is refused. An empty batch is refused at once.
pub fn id_records(aircraft: Vec<ReqAircraftId>) -> (r: Result<
    Vec<AircraftId>,
    PostgisError,
>)
    ensures
        match r {
            Ok(records) => {
                &&& batch_error(id_causes(aircraft@)) is None
                &&& records@.len() == aircraft@.len()
                &&& forall|i: int|
                    0 <= i < records@.len() ==> (#[trigger] records@[i]).represents(aircraft@[i])
                        && records@[i].wf()
            },
            Err(e) => batch_error(id_causes(aircraft@)) matches Some(cause) && e
                == PostgisError::Aircraft(cause),
        },
        aircraft@.len() == 0 ==> r == Err::<Vec<AircraftId>, PostgisError>(
            PostgisError::Aircraft(AircraftError::NoAircraft),
        ),
{
    if aircraft.len() == 0 {
        return Err(PostgisError::Aircraft(AircraftError::NoAircraft));
    }
    let ghost requests = aircraft@;
    let mut records: Vec<AircraftId> = Vec::new();
    for craft in it: aircraft.into_iter()
        invariant
            it.seq() == requests,
            records@.len() == it.index(),
            first_refusal(id_causes(requests), 0) == first_refusal(
                id_causes(requests),
                it.index() as int,
            ),
            forall|i: int|
                0 <= i < records@.len() ==> (#[trigger] records@[i]).represents(requests[i])
                    && records@[i].wf(),
    {
        match AircraftId::try_from(craft) {
            Ok(record) => {
                records.push(record);
            },
            Err(e) => {
                return Err(e);
            },
        }
    }
    Ok(records)
}

/// Validates and converts a batch of positions, all of it or none: the
/// records to store, one for each request and in their order, or the cause
/// for which the batch is refused. An empty batch is refused at once.
pub fn position_records(aircraft: Vec<ReqAircraftPos>) -> (r: Result<
    Vec<AircraftPosition>,
    PostgisError,
>)
    ensures
        match r {
            Ok(records) => {
                &&& batch_error(position_causes(aircraft@)) is None
                &&& records@.len() == aircraft@.len()
                &&& forall|i: int|
                    0 <= i < records@.len() ==> (#[trigger] records@[i]).represents(aircraft@[i])
                        && records@[i].wf()
            },
            Err(e) => batch_error(position_causes(aircraft@)) matches Some(cause) && e
                == PostgisError::Aircraft(cause),
        },
        aircraft@.len() == 0 ==> r == Err::<Vec<AircraftPosition>, PostgisError>(
            PostgisError::Aircraft(AircraftError::NoAircraft),
        ),
{
    if aircraft.len() == 0 {
        return Err(PostgisError::Aircraft(AircraftError::NoAircraft));
    }
    let ghost requests = aircraft@;
    let mut records: Vec<AircraftPosition> = Vec::new();
    for craft in it: aircraft.into_iter()
        invariant
            it.seq() == requests,
            records@.len() == it.index(),
            first_refusal(position_causes(requests), 0) == first_refusal(
                position_causes(requests),
                it.index() as int,
            ),
            forall|i: int|
                0 <= i < records@.len() ==> (#[trigger] records@[i]).represents(requests[i])
                    && records@[i].wf(),
    {
        match AircraftPosition::try_from(craft) {
            Ok(record) => {
                records.push(record);
            },
            Err(e) => {
                return Err(e);
            },
        }
    }
    Ok(records)
}

/// Validates and converts a batch of velocities, all of it or none: the
/// records to store, one for each request and in their order, or the cause
/// for which the batch is refused. An empty batch is refused at once.
pub fn velocity_records(aircraft: Vec<ReqAircraftVelocity>) -> (r: Result<
    Vec<AircraftVelocity>,
    PostgisError,
>)
    ensures
        match r {
            Ok(records) => {
                &&& batch_error(velocity_causes(aircraft@)) is None
                &&& records@.len() == aircraft@.len()
                &&& forall|i: int|
                    0 <= i < records@.len() ==> (#[trigger] records@[i]).represents(aircraft@[i])
                        && records@[i].wf()
            },
            Err(e) => batch_error(velocity_causes(aircraft@)) matches Some(cause) && e
                == PostgisError::Aircraft(cause),
        },
        aircraft@.len() == 0 ==> r == Err::<Vec<AircraftVelocity>, PostgisError>(
            PostgisError::Aircraft(AircraftError::NoAircraft),
        ),
{
    if aircraft.len() == 0 {
        return Err(PostgisError::Aircraft(AircraftError::NoAircraft));
    }
    let ghost requests = aircraft@;
    let mut records: Vec<AircraftVelocity> = Vec::new();
    for craft in it: aircraft.into_iter()
        invariant
            it.seq() == requests,
            records@.len() == it.index(),
            first_refusal(velocity_causes(requests), 0) == first_refusal(
                velocity_causes(requests),
                it.index() as int,
            ),
            forall|i: int|
                0 <= i < records@.len() ==> (#[trigger] records@[i]).represents(requests[i])
                    && records@[i].wf(),
    {
        match AircraftVelocity::try_from(craft) {
            Ok(record) => {
                records.push(record);
            },
            Err(e) => {
                return Err(e);
            },
        }
    }
    Ok(records)
}

/// From position `from` on there is no cause exactly when there is none at
/// any position.
proof fn lemma_first_refusal_none(causes: Seq<Option<AircraftError>>, from: int)
    requires
        0 <= from,
    ensures
        first_refusal(causes, from) is None <==> forall|i: int|
            from <= i < causes.len() ==> (#[trigger] causes[i]) is None,
    decreases causes.len() - from,
{
    if from < causes.len() {
        lemma_first_refusal_none(causes, from + 1);
    }
}

/// A batch is accepted as a whole or refused as a whole: it is accepted
/// exactly when it is not empty and each of its requests is accepted.
pub proof fn lemma_batch_all_or_none(causes: Seq<Option<AircraftError>>)
    ensures
        batch_error(causes) is None <==> causes.len() > 0 && forall|i: int|
            0 <= i < causes.len() ==> (#[trigger] causes[i]) is None,
{
    lemma_first_refusal_none(causes, 0);
}

/// An empty batch of any stream is refused for holding no aircraft.
pub proof fn lemma_empty_batch_refused()
    ensures
        batch_error(id_causes(Seq::empty())) == Some(AircraftError::NoAircraft),
        batch_error(position_causes(Seq::empty())) == Some(AircraftError::NoAircraft),
        batch_error(velocity_causes(Seq::empty())) == Some(AircraftError::NoAircraft),
{
}

/// A request of any stream whose identifier holds a quote, a double quote, a
/// semicolon or a blank, or is longer than 255 characters, is refused for its
/// label, whatever else it holds.
pub proof fn lemma_hazardous_identifier_refused(
    id: ReqAircraftId,
    position: ReqAircraftPos,
    velocity: ReqAircraftVelocity,
)
    ensures
        hazardous(id.identifier@) ==> id.error() == Some(AircraftError::Label),
        hazardous(position.identifier@) ==> position.error() == Some(AircraftError::Label),
        hazardous(velocity.identifier@) ==> velocity.error() == Some(AircraftError::Label),
{
    if hazardous(id.identifier@) {
        lemma_hazardous_strings_rejected(id.identifier@);
    }
    if hazardous(position.identifier@) {
        lemma_hazardous_strings_rejected(position.identifier@);
    }
    if hazardous(velocity.identifier@) {
        lemma_hazardous_strings_rejected(velocity.identifier@);
    }
}

/// A position request with an identifier, whose latitude lies beyond 90
/// degrees or whose longitude lies beyond 180 degrees, on either side, is
/// refused for its location.
pub proof fn lemma_position_off_globe_refused(request: ReqAircraftPos)
    requires
        valid_identifier(request.identifier@),
        request.geom matches Some(g) && (g.latitude < -MAX_LATITUDE || g.latitude > MAX_LATITUDE
            || g.longitude < -MAX_LONGITUDE || g.longitude > MAX_LONGITUDE),
    ensures
        request.error() == Some(AircraftError::Location),
{
}

/// The name of the store's enumeration of kinds of aircraft.
pub const AIRCRAFT_TYPE_ENUM: &'static str = "aircrafttype";

/// The name of the store's enumeration of operational states.
pub const OPERATIONAL_STATUS_ENUM: &'static str = "opstatus";

/// The statement that creates the table of aircraft, unless it exists: one
/// row for each aircraft, with the columns of the three streams and the time
/// at which each stream last wrote.
pub open spec fn aircraft_table_definition() -> Seq<char> {
    r#"CREATE TABLE IF NOT EXISTS "arrow"."aircraft" (
            "identifier" VARCHAR(20) UNIQUE PRIMARY KEY NOT NULL,
            "session_id" VARCHAR(20),
            "aircraft_type" aircrafttype NOT NULL DEFAULT '"#@
        + AircraftType::Undeclared.label() + r#"',
            "simulated" BOOLEAN NOT NULL DEFAULT FALSE,
            "op_status" opstatus NOT NULL DEFAULT '"#@
        + OperationalStatus::Undeclared.label() + r#"',
            "velocity_horizontal_ground_mps" FLOAT(4),
            "velocity_vertical_mps" FLOAT(4),
            "track_angle_degrees" FLOAT(4),
            "geom" GEOMETRY(POINTZ, 4326),
            "last_identifier_update" TIMESTAMPTZ,
            "last_position_update" TIMESTAMPTZ,
            "last_velocity_update" TIMESTAMPTZ
        );"#@
}

/// The texts of the statements that set up the store for aircraft: the two
/// enumerations, then the table.
pub open spec fn init_texts() -> Seq<Seq<char>> {
    seq![
        enum_declaration(AIRCRAFT_TYPE_ENUM@, AircraftType::all_labels()),
        enum_declaration(OPERATIONAL_STATUS_ENUM@, OperationalStatus::all_labels()),
        aircraft_table_definition(),
    ]
}

/// The statements that set up the store for aircraft, to be run in this
/// order within one transaction. Each leaves a store that is set up as it
/// is.
pub fn init_statements() -> (statements: Vec<String>)
    ensures
        label_views(statements@) == init_texts(),
{
    let kinds: Vec<String> = AircraftType::labels();
    let states: Vec<String> = OperationalStatus::labels();
    let mut table: String = String::from_str(
        r#"CREATE TABLE IF NOT EXISTS "arrow"."aircraft" (
            "identifier" VARCHAR(20) UNIQUE PRIMARY KEY NOT NULL,
            "session_id" VARCHAR(20),
            "aircraft_type" aircrafttype NOT NULL DEFAULT '"#,
    );
    table.append(AircraftType::Undeclared.to_string().as_str());
    table.append(
        r#"',
            "simulated" BOOLEAN NOT NULL DEFAULT FALSE,
            "op_status" opstatus NOT NULL DEFAULT '"#,
    );
    table.append(OperationalStatus::Undeclared.to_string().as_str());
    table.append(
        r#"',
            "velocity_horizontal_ground_mps" FLOAT(4),
            "velocity_vertical_mps" FLOAT(4),
            "track_angle_degrees" FLOAT(4),
            "geom" GEOMETRY(POINTZ, 4326),
            "last_identifier_update" TIMESTAMPTZ,
            "last_position_update" TIMESTAMPTZ,
            "last_velocity_update" TIMESTAMPTZ
        );"#,
    );
    let mut statements: Vec<String> = Vec::new();
    statements.push(psql_enum_declaration(AIRCRAFT_TYPE_ENUM, &kinds));
    statements.push(psql_enum_declaration(OPERATIONAL_STATUS_ENUM, &states));
    statements.push(table);
    statements
}

/// What a failure of the store means to the caller of a telemetry update or
/// of a read of an aircraft: no session is `Client`, anything later
/// `DBError`.
pub fn store_failure(failure: StoreFailure) -> (e: PostgisError)
    ensures
        e == PostgisError::Aircraft(
            if failure == StoreFailure::Session {
                AircraftError::Client
            } else {
                AircraftError::DBError
            },
        ),
{
    match failure {
        StoreFailure::Session => PostgisError::Aircraft(AircraftError::Client),
        _ => PostgisError::Aircraft(AircraftError::DBError),
    }
}

} // verus!

//! Routing between nodes: the request for a best path, its validation, the
//! call of the store's procedure that finds the path, and the legs that
//! come back.
//!
//! The library does not find paths. It checks the request, words the call,
//! and maps each row of the answer to a leg.

use vstd::prelude::*;
use vstd::string::*;
pub use crate::error::PathError;
use crate::store::StoreFailure;
use crate::time::{utc_text, Timestamp, UtcTime, NANOS_PER_SECOND, SECONDS_PER_DAY};
use crate::types::NodeType;

verus! {

/// The altitude of every leg, in millimetres: a thousand metres.
pub const ALTITUDE_HARDCODE: i32 = 1_000_000;

/// Routing can occur from a vertiport to a vertiport, or from an aircraft to
/// a vertiport, to route a flight anew while it is under way.
#[derive(Debug, Copy, Clone, PartialEq, Eq)]
pub enum PathType {
    /// Route between vertiports.
    PortToPort,
    /// Route from an aircraft to a vertiport.
    AircraftToPort,
}

/// A request for a best path, as requests carry it.
#[derive(Debug, Clone, PartialEq, Eq, Default)]
pub struct BestPathRequest {
    /// The node to start from, as the text of a UUID.
    pub node_uuid_start: String,
    /// The node to arrive at, as the text of a UUID.
    pub node_uuid_end: String,
    /// The wire code of the kind of the start node.
    pub start_type: i32,
    /// The earliest departure; the present where it is missing.
    pub time_start: Option<Timestamp>,
    /// The latest arrival; a day from the present where it is missing.
    pub time_end: Option<Timestamp>,
}

/// A validated request for a best path.
#[derive(Debug, Copy, Clone, PartialEq, Eq)]
pub struct PathRequest {
    /// The node to start from, as the 128 bits of its UUID.
    pub node_uuid_start: u128,
    /// The node to arrive at, as the 128 bits of its UUID.
    pub node_uuid_end: u128,
    /// The earliest departure.
    pub time_start: UtcTime,
    /// The latest arrival.
    pub time_end: UtcTime,
}

/// A row of the answer of the store's procedure.
#[derive(Debug, Copy, Clone, PartialEq, Eq)]
pub struct PathRow {
    /// The position of the leg in the path.
    pub index: i32,
    /// The kind of the node where the leg starts.
    pub start_type: NodeType,
    /// The latitude where the leg starts, in ten-millionths of a degree.
    pub start_latitude: i32,
    /// The longitude where the leg starts, in ten-millionths of a degree.
    pub start_longitude: i32,
    /// The kind of the node where the leg ends.
    pub end_type: NodeType,
    /// The latitude where the leg ends, in ten-millionths of a degree.
    pub end_latitude: i32,
    /// The longitude where the leg ends, in ten-millionths of a degree.
    pub end_longitude: i32,
    /// The length of the leg over ground, in millimetres.
    pub distance: i64,
}

/// A leg of a best path, as responses carry it.
#[derive(Debug, Copy, Clone, PartialEq, Eq)]
pub struct PathSegment {
    /// The position of the leg in the path.
    pub index: i32,
    /// The wire code of the kind of the node where the leg starts.
    pub start_type: i32,
    /// The latitude where the leg starts, in ten-millionths of a degree.
    pub start_latitude: i32,
    /// The longitude where the leg starts, in ten-millionths of a degree.
    pub start_longitude: i32,
    /// The wire code of the kind of the node where the leg ends.
    pub end_type: i32,
    /// The latitude where the leg ends, in ten-millionths of a degree.
    pub end_latitude: i32,
    /// The longitude where the leg ends, in ten-millionths of a degree.
    pub end_longitude: i32,
    /// The length of the leg over ground, in millimetres.
    pub distance: i64,
    /// The altitude of the leg, in millimetres.
    pub altitude: i32,
}

/// The UUID that `uuid` reads from `text`, as its 128 bits with the first
/// byte foremost; `None` where it reads none. It reads the 32 hexadecimal
/// digits of a UUID, bare, or in five groups between hyphens, or so grouped
/// between braces or behind `urn:uuid:`.
pub uninterp spec fn uuid_parse(text: Seq<char>) -> Option<u128>;

/// The hexadecimal digit of `value`, in lower case.
pub open spec fn hex_digit(value: int) -> char {
    if value == 0 {
        '0'
    } else if value == 1 {
        '1'
    } else if value == 2 {
        '2'
    } else if value == 3 {
        '3'
    } else if value == 4 {
        '4'
    } else if value == 5 {
        '5'
    } else if value == 6 {
        '6'
    } else if value == 7 {
        '7'
    } else if value == 8 {
        '8'
    } else if value == 9 {
        '9'
    } else if value == 10 {
        'a'
    } else if value == 11 {
        'b'
    } else if value == 12 {
        'c'
    } else if value == 13 {
        'd'
    } else if value == 14 {
        'e'
    } else {
        'f'
    }
}

/// The `k`-th of the 32 hexadecimal digits of `id`, the foremost being the
/// first.
pub open spec fn uuid_digit(id: u128, k: int) -> int {
    (id as int / vstd::arithmetic::power::pow(16, (31 - k) as nat)) % 16
}

/// The text of the UUID `id`: its 32 hexadecimal digits in lower case, in
/// groups of 8, 4, 4, 4 and 12 with a hyphen between one group and the next.
pub open spec fn uuid_text(id: u128) -> Seq<char> {
    Seq::new(
        36,
        |p: int|
            if p == 8 || p == 13 || p == 18 || p == 23 {
                '-'
            } else if p < 8 {
                hex_digit(uuid_digit(id, p))
            } else if p < 13 {
                hex_digit(uuid_digit(id, p - 1))
            } else if p < 18 {
                hex_digit(uuid_digit(id, p - 2))
            } else if p < 23 {
                hex_digit(uuid_digit(id, p - 3))
            } else {
                hex_digit(uuid_digit(id, p - 4))
            },
    )
}

impl PathType {
    /// The name of the store's procedure for this kind of path.
    pub open spec fn procedure(self) -> Seq<char> {
        match self {
            PathType::PortToPort => "best_path_p2p"@,
            PathType::AircraftToPort => "best_path_a2p"@,
        }
    }
}

impl PathRequest {
    /// Whether both instants of this request are well-formed.
    pub open spec fn wf(self) -> bool {
        self.time_start.wf() && self.time_end.wf()
    }
}

/// The earliest departure of a request: the instant it names, or the
/// present; `None` where the one that counts is malformed.
pub open spec fn departure(time_start: Option<Timestamp>, now: UtcTime) -> Option<UtcTime> {
    match time_start {
        None => if now.wf() {
            Some(now)
        } else {
            None
        },
        Some(stamp) => if stamp.well_formed() {
            Some(stamp.instant())
        } else {
            None
        },
    }
}

/// The latest arrival of a request: the instant it names, or a day from the
/// present; `None` where the one that counts is malformed.
pub open spec fn arrival(time_end: Option<Timestamp>, now: UtcTime) -> Option<UtcTime> {
    match time_end {
        None => now.plus_seconds(SECONDS_PER_DAY as int),
        Some(stamp) => if stamp.well_formed() {
            Some(stamp.instant())
        } else {
            None
        },
    }
}

/// What the validation of a request answers, given the two nodes as read
/// from the request and the present instant.
///
/// A node that could not be read is refused, the start node first; then a
/// malformed departure, then a malformed arrival; then an arrival before the
/// departure; then an arrival before the present.
pub open spec fn sanitize_spec(
    node_start: Option<u128>,
    node_end: Option<u128>,
    time_start: Option<Timestamp>,
    time_end: Option<Timestamp>,
    now: UtcTime,
) -> Result<PathRequest, PathError> {
    if node_start is None {
        Err(PathError::InvalidStartNode)
    } else if node_end is None {
        Err(PathError::InvalidEndNode)
    } else if departure(time_start, now) is None {
        Err(PathError::InvalidStartTime)
    } else if arrival(time_end, now) is None {
        Err(PathError::InvalidEndTime)
    } else if arrival(time_end, now)->0.before(departure(time_start, now)->0) {
        Err(PathError::InvalidTimeWindow)
    } else if arrival(time_end, now)->0.before(now) {
        Err(PathError::InvalidEndTime)
    } else {
        Ok(
            PathRequest {
                node_uuid_start: node_start->0,
                node_uuid_end: node_end->0,
                time_start: departure(time_start, now)->0,
                time_end: arrival(time_end, now)->0,
            },
        )
    }
}

/// The call of the store's procedure `procedure` for the nodes and instants
/// with these texts.
pub open spec fn command_text(
    procedure: Seq<char>,
    node_start: Seq<char>,
    node_end: Seq<char>,
    time_start: Seq<char>,
    time_end: Seq<char>,
) -> Seq<char> {
    "SELECT * FROM arrow."@ + procedure + "('"@ + node_start + "'::UUID, '"@ + node_end
        + "'::UUID, '"@ + time_start + "'::TIMESTAMPTZ, '"@ + time_end + "'::TIMESTAMPTZ);"@
}

/// Validates a request of which the nodes have been read and for which the
/// present instant is `now`.
pub fn sanitize_with(
    node_start: Option<u128>,
    node_end: Option<u128>,
    time_start: Option<Timestamp>,
    time_end: Option<Timestamp>,
    now: UtcTime,
) -> (r: Result<PathRequest, PathError>)
    requires
        now.nanos < NANOS_PER_SECOND,
    ensures
        r == sanitize_spec(node_start, node_end, time_start, time_end, now),
        r matches Ok(request) ==> request.wf() && !request.time_end.before(request.time_start)
            && !request.time_end.before(now),
{
    let node_uuid_start = match node_start {
        Some(id) => id,
        None => {
            return Err(PathError::InvalidStartNode);
        },
    };
    let node_uuid_end = match node_end {
        Some(id) => id,
        None => {
            return Err(PathError::InvalidEndNode);
        },
    };
    let in_range: bool = now.seconds >= crate::time::MIN_SECONDS && now.seconds
        <= crate::time::MAX_SECONDS;
    let start: Option<UtcTime> = match time_start {
        None => if in_range {
            Some(now)
        } else {
            None
        },
        Some(stamp) => UtcTime::from_timestamp(&stamp),
    };
    let time_start = match start {
        Some(instant) => instant,
        None => {
            return Err(PathError::InvalidStartTime);
        },
    };
    let end: Option<UtcTime> = match time_end {
        None => now.checked_add_seconds(SECONDS_PER_DAY),
        Some(stamp) => UtcTime::from_timestamp(&stamp),
    };
    let time_end = match end {
        Some(instant) => instant,
        None => {
            return Err(PathError::InvalidEndTime);
        },
    };
    if time_end.is_before(&time_start) {
        return Err(PathError::InvalidTimeWindow);
    }
    if time_end.is_before(&now) {
        return Err(PathError::InvalidEndTime);
    }
    Ok(PathRequest { node_uuid_start, node_uuid_end, time_start, time_end })
}

/// Sanitizes the inputs of a request: reads its two nodes, reads the clock,
/// and validates the request for that instant.
pub fn sanitize(request: BestPathRequest) -> (r: Result<PathRequest, PathError>)
    ensures
        exists|now: UtcTime|
            now.nanos < NANOS_PER_SECOND && r == sanitize_spec(
                uuid_parse(request.node_uuid_start@),
                uuid_parse(request.node_uuid_end@),
                request.time_start,
                request.time_end,
                now,
            ),
        uuid_parse(request.node_uuid_start@) is None ==> r == Err::<PathRequest, PathError>(
            PathError::InvalidStartNode,
        ),
        r matches Ok(valid) ==> valid.wf() && !valid.time_end.before(valid.time_start),
{
    let node_start: Option<u128> = parse_uuid(request.node_uuid_start.as_str());
    let node_end: Option<u128> = parse_uuid(request.node_uuid_end.as_str());
    let now: UtcTime = UtcTime::now();
    let r = sanitize_with(node_start, node_end, request.time_start, request.time_end, now);
    assert(now.nanos < NANOS_PER_SECOND && r == sanitize_spec(
        uuid_parse(request.node_uuid_start@),
        uuid_parse(request.node_uuid_end@),
        request.time_start,
        request.time_end,
        now,
    ));
    r
}

/// Words the call of the store's procedure for a validated request.
pub fn best_path_command(path_type: PathType, request: &PathRequest) -> (command: String)
    requires
        request.wf(),
    ensures
        command@ == command_text(
            path_type.procedure(),
            uuid_text(request.node_uuid_start),
            uuid_text(request.node_uuid_end),
            utc_text(request.time_start.seconds, request.time_start.nanos),
            utc_text(request.time_end.seconds, request.time_end.nanos),
        ),
{
    let mut command: String = String::from_str("SELECT * FROM arrow.");
    match path_type {
        PathType::PortToPort => {
            command.append("best_path_p2p");
        },
        PathType::AircraftToPort => {
            command.append("best_path_a2p");
        },
    }
    command.append("('");
    command.append(uuid_to_string(request.node_uuid_start).as_str());
    command.append("'::UUID, '");
    command.append(uuid_to_string(request.node_uuid_end).as_str());
    command.append("'::UUID, '");
    command.append(request.time_start.to_string().as_str());
    command.append("'::TIMESTAMPTZ, '");
    command.append(request.time_end.to_string().as_str());
    command.append("'::TIMESTAMPTZ);");
    command
}

/// Validates a request for a best path and words the call that answers it;
/// or says why the request is refused.
pub fn best_path_query(path_type: PathType, request: BestPathRequest) -> (r: Result<
    String,
    PathError,
>)
    ensures
        exists|now: UtcTime|
            now.nanos < NANOS_PER_SECOND && match sanitize_spec(
                uuid_parse(request.node_uuid_start@),
                uuid_parse(request.node_uuid_end@),
                request.time_start,
                request.time_end,
                now,
            ) {
                Ok(valid) => r matches Ok(command) && command@ == command_text(
                    path_type.procedure(),
                    uuid_text(valid.node_uuid_start),
                    uuid_text(valid.node_uuid_end),
                    utc_text(valid.time_start.seconds, valid.time_start.nanos),
                    utc_text(valid.time_end.seconds, valid.time_end.nanos),
                ),
                Err(e) => r == Err::<String, PathError>(e),
            },
{
    match sanitize(request) {
        Ok(valid) => Ok(best_path_command(path_type, &valid)),
        Err(e) => Err(e),
    }
}

impl PathRow {
    /// The leg that this row describes, at the altitude of every leg.
    pub open spec fn leg(self) -> PathSegment {
        PathSegment {
            index: self.index,
            start_type: self.start_type.code() as i32,
            start_latitude: self.start_latitude,
            start_longitude: self.start_longitude,
            end_type: self.end_type.code() as i32,
            end_latitude: self.end_latitude,
            end_longitude: self.end_longitude,
            distance: self.distance,
            altitude: ALTITUDE_HARDCODE,
        }
    }
}

/// Maps the rows of the answer of the store's procedure to the legs of the
/// path, one for each row and in their order.
pub fn path_segments(rows: &Vec<PathRow>) -> (legs: Vec<PathSegment>)
    ensures
        legs@.len() == rows@.len(),
        forall|i: int| 0 <= i < rows@.len() ==> #[trigger] legs@[i] == rows@[i].leg(),
{
    let mut legs: Vec<PathSegment> = Vec::new();
    let mut i: usize = 0;
    while i < rows.len()
        invariant
            i <= rows@.len(),
            legs@.len() == i,
            forall|k: int| 0 <= k < i ==> #[trigger] legs@[k] == rows@[k].leg(),
        decreases rows@.len() - i,
    {
        let row: PathRow = rows[i];
        legs.push(
            PathSegment {
                index: row.index,
                start_type: row.start_type.to_i32(),
                start_latitude: row.start_latitude,
                start_longitude: row.start_longitude,
                end_type: row.end_type.to_i32(),
                end_latitude: row.end_latitude,
                end_longitude: row.end_longitude,
                distance: row.distance,
                altitude: ALTITUDE_HARDCODE,
            },
        );
        i += 1;
    }
    legs
}

/// What a failure of the store means to the caller of a request for a best
/// path: no session is `Client`, anything else `Unknown`.
pub fn query_failure(failure: StoreFailure) -> (e: PathError)
    ensures
        e == (if failure == StoreFailure::Session {
            PathError::Client
        } else {
            PathError::Unknown
        }),
{
    match failure {
        StoreFailure::Session => PathError::Client,
        _ => PathError::Unknown,
    }
}

/// Calls `uuid::Uuid::parse_str` and takes the 128 bits of its result with
/// `Uuid::as_u128`.
///
/// The result is a function of the text alone.
#[verifier::external_body]
fn parse_uuid(text: &str) -> (r: Option<u128>)
    ensures
        r == uuid_parse(text@),
{
    match uuid::Uuid::parse_str(text) {
        Ok(id) => Some(id.as_u128()),
        Err(_) => None,
    }
}

/// Makes a UUID of 128 bits with `uuid::Uuid::from_u128` and shows it
/// through its `Display`.
///
/// `Display` writes the hyphenated form in lower case: the 32 hexadecimal
/// digits of the bits, the first byte foremost, in groups of 8, 4, 4, 4 and
/// 12.
#[verifier::external_body]
fn uuid_to_string(id: u128) -> (text: String)
    ensures
        text@ == uuid_text(id),
{
    uuid::Uuid::from_u128(id).to_string()
}

/// A request whose arrival, given or set to a day from the present, is
/// earlier than its departure, given or set to the present, is refused for
/// its window of time; one whose arrival is not earlier than its departure
/// but earlier than the present is refused for its end time.
pub proof fn lemma_time_window_refused(
    node_start: u128,
    node_end: u128,
    time_start: Option<Timestamp>,
    time_end: Option<Timestamp>,
    now: UtcTime,
)
    requires
        departure(time_start, now) is Some,
        arrival(time_end, now) is Some,
    ensures
        arrival(time_end, now)->0.before(departure(time_start, now)->0) ==> sanitize_spec(
            Some(node_start),
            Some(node_end),
            time_start,
            time_end,
            now,
        ) == Err::<PathRequest, PathError>(PathError::InvalidTimeWindow),
        !arrival(time_end, now)->0.before(departure(time_start, now)->0) && arrival(
            time_end,
            now,
        )->0.before(now) ==> sanitize_spec(
            Some(node_start),
            Some(node_end),
            time_start,
            time_end,
            now,
        ) == Err::<PathRequest, PathError>(PathError::InvalidEndTime),
{
}

} // verus!

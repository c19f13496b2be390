use svc_gis::error::{FlightError, PostgisError};
use svc_gis::flight::{
    check_flight_identifier, convert_path, flight_path, flight_states, flights_from_rows,
    flights_window, init_statements, process_row, query_failure, validate_flight_path,
    write_failure, AircraftState, Flight, FlightRow, FlightStatement, FlightsWindow,
    GetFlightsRequest, TelemetryRow, TimePosition, UpdateFlightPathRequest,
    CREATE_FLIGHTS_INDEX, DELETE_FLIGHT_SEGMENTS, FLIGHTS_QUERY, FLIGHT_IDENTIFIER_REGEX,
    FLIGHT_INTERSECTION_QUERY, INSERT_FLIGHT_SEGMENT, MAX_FLIGHT_SEGMENT_LENGTH_METERS,
    TELEMETRY_QUERY, UPSERT_FLIGHT,
};
use svc_gis::geometry::{
    validate_pointz, GrpcPointZ, Point, PointError, PointZ, DEFAULT_SRID, DEGREE, METER,
};
use svc_gis::segment::segmentize;
use svc_gis::store::StoreFailure;
use svc_gis::time::{Timestamp, UtcTime};
use svc_gis::types::{AircraftType, OperationalStatus};

fn request() -> UpdateFlightPathRequest {
    UpdateFlightPathRequest {
        flight_identifier: Some("flight-1".to_string()),
        aircraft_identifier: Some("Marauder".to_string()),
        aircraft_type: 1,
        simulated: false,
        timestamp_start: Some(Timestamp { seconds: 1_700_000_000, nanos: 0 }),
        timestamp_end: Some(Timestamp { seconds: 1_700_000_060, nanos: 0 }),
        path: vec![
            GrpcPointZ { latitude: 0, longitude: 0, altitude: 0 },
            GrpcPointZ { latitude: 10_000, longitude: 0, altitude: 100_000 },
            GrpcPointZ { latitude: 10_000, longitude: 10_000, altitude: 200_000 },
        ],
    }
}

#[test]
fn a_valid_flight_path_gives_the_row_and_its_segments() {
    let flight = flight_path(request()).unwrap();
    assert_eq!(flight.flight_identifier, "flight-1");
    assert_eq!(flight.aircraft_identifier, Some("Marauder".to_string()));
    assert_eq!(flight.aircraft_type, AircraftType::Aeroplane);
    assert!(!flight.simulated);
    assert_eq!(flight.time_start, UtcTime { seconds: 1_700_000_000, nanos: 0 });
    assert_eq!(flight.time_end, UtcTime { seconds: 1_700_000_060, nanos: 0 });
    assert_eq!(
        flight.geom,
        vec![
            PointZ { x: 0, y: 0, z: 0 },
            PointZ { x: 0, y: 10_000, z: 100_000 },
            PointZ { x: 10_000, y: 10_000, z: 200_000 },
        ]
    );
    assert_eq!(flight.segments.len(), 6);
    assert_eq!(
        flight.segments,
        segmentize(
            flight.geom.clone(),
            flight.time_start,
            flight.time_end,
            MAX_FLIGHT_SEGMENT_LENGTH_METERS
        )
        .unwrap()
    );
}

#[test]
fn a_flight_submitted_again_is_the_same_flight() {
    let first = flight_path(request()).unwrap();
    let second = flight_path(request()).unwrap();
    assert_eq!(first, second);
    assert_eq!(first.statements(), second.statements());
}

#[test]
fn the_flight_is_replaced_in_one_order() {
    let flight = flight_path(request()).unwrap();
    assert_eq!(
        flight.statements(),
        vec![
            FlightStatement::UpsertFlight,
            FlightStatement::DeleteSegments,
            FlightStatement::InsertSegment(0),
            FlightStatement::InsertSegment(1),
            FlightStatement::InsertSegment(2),
            FlightStatement::InsertSegment(3),
            FlightStatement::InsertSegment(4),
            FlightStatement::InsertSegment(5),
        ]
    );
}

#[test]
fn a_flight_path_is_refused_for_its_label() {
    for label in [None, Some(""), Some("flight 1"), Some("flight;"), Some("null")] {
        let item =
            UpdateFlightPathRequest { flight_identifier: label.map(str::to_string), ..request() };
        assert_eq!(
            validate_flight_path(&item),
            Err(PostgisError::FlightPath(FlightError::Label))
        );
        assert_eq!(flight_path(item), Err(PostgisError::FlightPath(FlightError::Label)));
    }
    assert_eq!(validate_flight_path(&request()), Ok(()));
    assert_eq!(check_flight_identifier("test"), Ok(()));
    assert_eq!(FLIGHT_IDENTIFIER_REGEX, r"^[\-0-9A-Za-z_\.]{1,255}$");
}

#[test]
fn a_flight_path_is_refused_for_its_times() {
    let no_start = UpdateFlightPathRequest { timestamp_start: None, ..request() };
    assert_eq!(flight_path(no_start), Err(PostgisError::FlightPath(FlightError::Time)));
    let no_end = UpdateFlightPathRequest { timestamp_end: None, ..request() };
    assert_eq!(flight_path(no_end), Err(PostgisError::FlightPath(FlightError::Time)));
    let malformed = UpdateFlightPathRequest {
        timestamp_end: Some(Timestamp { seconds: 1_700_000_060, nanos: -5 }),
        ..request()
    };
    assert_eq!(flight_path(malformed), Err(PostgisError::FlightPath(FlightError::Time)));
    let backwards = UpdateFlightPathRequest {
        timestamp_start: Some(Timestamp { seconds: 1_700_000_060, nanos: 1 }),
        ..request()
    };
    assert_eq!(flight_path(backwards), Err(PostgisError::FlightPath(FlightError::Time)));
}

#[test]
fn a_flight_path_is_refused_for_its_kind_of_aircraft() {
    for code in [-1, 16, i32::MAX] {
        let item = UpdateFlightPathRequest { aircraft_type: code, ..request() };
        assert_eq!(flight_path(item), Err(PostgisError::FlightPath(FlightError::AircraftType)));
    }
}

#[test]
fn a_flight_path_is_refused_for_a_point_off_the_globe() {
    let mut item = request();
    item.path.push(GrpcPointZ { latitude: 900_000_001, longitude: 0, altitude: 0 });
    assert_eq!(convert_path(&item.path), None);
    assert_eq!(flight_path(item), Err(PostgisError::FlightPath(FlightError::Location)));
    let mut item = request();
    item.path[0].longitude = -1_800_000_001;
    assert_eq!(flight_path(item), Err(PostgisError::FlightPath(FlightError::Location)));
}

#[test]
fn a_flight_path_is_refused_where_it_cannot_be_cut() {
    let empty = UpdateFlightPathRequest { path: vec![], ..request() };
    assert_eq!(flight_path(empty), Err(PostgisError::FlightPath(FlightError::Segments)));
    let single = UpdateFlightPathRequest {
        path: vec![GrpcPointZ { latitude: 1, longitude: 1, altitude: 1 }],
        ..request()
    };
    assert_eq!(flight_path(single), Err(PostgisError::FlightPath(FlightError::Segments)));
    let still = UpdateFlightPathRequest {
        path: vec![GrpcPointZ { latitude: 1, longitude: 1, altitude: 1 }; 4],
        ..request()
    };
    assert_eq!(flight_path(still), Err(PostgisError::FlightPath(FlightError::Segments)));
}

#[test]
fn the_order_of_the_checks_is_label_time_kind_place_cut() {
    let all_wrong = UpdateFlightPathRequest {
        flight_identifier: None,
        aircraft_identifier: None,
        aircraft_type: 99,
        simulated: true,
        timestamp_start: None,
        timestamp_end: None,
        path: vec![GrpcPointZ { latitude: i32::MAX, longitude: 0, altitude: 0 }],
    };
    assert_eq!(flight_path(all_wrong.clone()), Err(PostgisError::FlightPath(FlightError::Label)));
    let labelled =
        UpdateFlightPathRequest { flight_identifier: Some("f".to_string()), ..all_wrong };
    assert_eq!(flight_path(labelled.clone()), Err(PostgisError::FlightPath(FlightError::Time)));
    let timed = UpdateFlightPathRequest {
        timestamp_start: Some(Timestamp { seconds: 0, nanos: 0 }),
        timestamp_end: Some(Timestamp { seconds: 0, nanos: 0 }),
        ..labelled
    };
    assert_eq!(
        flight_path(timed.clone()),
        Err(PostgisError::FlightPath(FlightError::AircraftType))
    );
    let typed = UpdateFlightPathRequest { aircraft_type: 0, ..timed };
    assert_eq!(flight_path(typed.clone()), Err(PostgisError::FlightPath(FlightError::Location)));
    let placed = UpdateFlightPathRequest {
        path: vec![GrpcPointZ { latitude: 0, longitude: 0, altitude: 0 }],
        ..typed
    };
    assert_eq!(flight_path(placed), Err(PostgisError::FlightPath(FlightError::Segments)));
}

#[test]
fn a_flight_without_an_aircraft_identifier_passes_validation() {
    let item = UpdateFlightPathRequest { aircraft_identifier: None, simulated: true, ..request() };
    let flight = flight_path(item).unwrap();
    assert_eq!(flight.aircraft_identifier, None);
    assert!(flight.simulated);
}

#[test]
fn store_failures_of_a_flight_update_map_to_the_taxonomy() {
    assert_eq!(write_failure(StoreFailure::Pool), PostgisError::FlightPath(FlightError::DBError));
    assert_eq!(write_failure(StoreFailure::Session), PostgisError::FlightPath(FlightError::Client));
    assert_eq!(
        write_failure(StoreFailure::Transaction),
        PostgisError::FlightPath(FlightError::Client)
    );
    for failure in
        [StoreFailure::Prepare, StoreFailure::Execute, StoreFailure::Decode, StoreFailure::Commit]
    {
        assert_eq!(write_failure(failure), PostgisError::FlightPath(FlightError::DBError));
    }
}

#[test]
fn store_failures_of_a_flights_query_map_to_the_taxonomy() {
    assert_eq!(query_failure(StoreFailure::Pool), FlightError::Client);
    assert_eq!(query_failure(StoreFailure::Session), FlightError::Client);
    for failure in [
        StoreFailure::Transaction,
        StoreFailure::Prepare,
        StoreFailure::Execute,
        StoreFailure::Decode,
        StoreFailure::Commit,
    ] {
        assert_eq!(query_failure(failure), FlightError::DBError);
    }
}

#[test]
fn a_window_needs_both_its_times() {
    let request = GetFlightsRequest {
        window_min_x: -10,
        window_min_y: -20,
        window_max_x: 30,
        window_max_y: 40,
        time_start: Some(Timestamp { seconds: 100, nanos: 1 }),
        time_end: Some(Timestamp { seconds: 50, nanos: 2 }),
    };
    assert_eq!(
        flights_window(&request),
        Ok(FlightsWindow {
            low: Point { x: -10, y: -20 },
            high: Point { x: 30, y: 40 },
            time_start: UtcTime { seconds: 100, nanos: 1 },
            time_end: UtcTime { seconds: 50, nanos: 2 },
        })
    );
    assert_eq!(
        flights_window(&GetFlightsRequest { time_start: None, ..request }),
        Err(FlightError::Time)
    );
    assert_eq!(
        flights_window(&GetFlightsRequest { time_end: None, ..request }),
        Err(FlightError::Time)
    );
    assert_eq!(
        flights_window(&GetFlightsRequest {
            time_end: Some(Timestamp { seconds: 0, nanos: 2_000_000_000 }),
            ..request
        }),
        Err(FlightError::Time)
    );
}

fn flight_row() -> FlightRow {
    FlightRow {
        session_id: Some("flight-1".to_string()),
        aircraft_id: Some("Marauder".to_string()),
        aircraft_type: AircraftType::Rotorcraft,
        simulated: true,
    }
}

fn telemetry_row(z: i32) -> TelemetryRow {
    TelemetryRow {
        identifier: Some("Marauder-2".to_string()),
        session_id: None,
        geom: PointZ { x: 49160036, y: 523745905, z },
        velocity_horizontal_ground_mps: 10.0f32.to_bits(),
        velocity_vertical_mps: 1.0f32.to_bits(),
        track_angle_degrees: 90.0f32.to_bits(),
        last_position_update: UtcTime { seconds: 1_700_000_000, nanos: 123 },
        status: OperationalStatus::Airborne,
    }
}

#[test]
fn rows_become_flights_or_fail_together() {
    let flights = flights_from_rows(vec![Some(flight_row()), Some(flight_row())]).unwrap();
    assert_eq!(flights.len(), 2);
    assert_eq!(
        flights[0],
        Flight {
            session_id: Some("flight-1".to_string()),
            aircraft_id: Some("Marauder".to_string()),
            simulated: true,
            positions: vec![],
            state: None,
            aircraft_type: 2,
        }
    );
    assert_eq!(flights[0], Flight::from_row(flight_row()));
    assert_eq!(flights_from_rows(vec![Some(flight_row()), None]), Err(FlightError::DBError));
    assert_eq!(flights_from_rows(vec![]), Ok(vec![]));
}

#[test]
fn a_row_of_telemetry_fills_the_flight() {
    let mut flight = Flight::from_row(flight_row());
    process_row(telemetry_row(100_000), &mut flight);
    let position = GrpcPointZ { latitude: 523745905, longitude: 49160036, altitude: 100_000 };
    let stamp = Timestamp { seconds: 1_700_000_000, nanos: 123 };
    assert_eq!(
        flight,
        Flight {
            session_id: None,
            aircraft_id: Some("Marauder-2".to_string()),
            simulated: true,
            positions: vec![TimePosition { position: Some(position), timestamp: Some(stamp) }],
            state: Some(AircraftState {
                timestamp: Some(stamp),
                ground_speed_mps: 10.0f32.to_bits(),
                vertical_speed_mps: 1.0f32.to_bits(),
                track_angle_degrees: 90.0f32.to_bits(),
                position: Some(position),
                status: 2,
            }),
            aircraft_type: 2,
        }
    );
    process_row(telemetry_row(5), &mut flight);
    assert_eq!(flight.positions.len(), 2);
    assert_eq!(flight.positions[1].position.unwrap().altitude, 5);
}

#[test]
fn each_row_that_can_be_read_gives_a_state() {
    let flight = Flight::from_row(flight_row());
    assert_eq!(flight.duplicate(), flight);
    assert_eq!(flight_states(&flight, None), vec![]);
    assert_eq!(flight_states(&flight, Some(vec![])), vec![]);
    assert_eq!(flight_states(&flight, Some(vec![None, None])), vec![]);
    let states = flight_states(
        &flight,
        Some(vec![None, Some(telemetry_row(1)), None, Some(telemetry_row(2))]),
    );
    assert_eq!(states.len(), 2);
    let mut first = flight.duplicate();
    process_row(telemetry_row(1), &mut first);
    let mut second = flight.duplicate();
    process_row(telemetry_row(2), &mut second);
    assert_eq!(states, vec![first, second]);
    assert_eq!(flight.positions.len(), 0);
}

#[test]
fn the_schema_of_flights_is_four_statements() {
    let statements = init_statements();
    assert_eq!(statements.len(), 4);
    assert!(statements[0].starts_with("CREATE TABLE IF NOT EXISTS \"arrow\".\"flights\" ("));
    assert!(statements[0].contains("\"aircraft_type\" aircrafttype NOT NULL DEFAULT 'Undeclared',"));
    assert!(statements[0].contains("\"isa\" GEOMETRY NOT NULL"));
    assert!(statements[1].starts_with("CREATE TABLE IF NOT EXISTS \"arrow\".\"flight_segments\" ("));
    assert!(statements[1].contains("PRIMARY KEY (\"flight_identifier\", \"time_start\")"));
    assert_eq!(statements[2], CREATE_FLIGHTS_INDEX);
    assert!(statements[2].contains("USING GIST (\"isa\")"));
    assert!(statements[3].contains("USING GIST (ST_Transform(\"geom\", 4978))"));
    for statement in &statements {
        assert!(statement.contains("IF NOT EXISTS"));
    }
}

#[test]
fn the_statements_name_what_they_write_and_read() {
    assert!(UPSERT_FLIGHT.contains("VALUES ($1, $2, $3, $4, $5, $6, $7, ST_Envelope($7))"));
    assert!(UPSERT_FLIGHT.contains("ON CONFLICT (\"flight_identifier\") DO UPDATE"));
    assert!(DELETE_FLIGHT_SEGMENTS.contains("WHERE \"flight_identifier\" = $1"));
    assert!(INSERT_FLIGHT_SEGMENT.contains("VALUES ($1, $2, $3, $4)"));
    assert!(FLIGHT_INTERSECTION_QUERY.contains("ST_3DDWithin"));
    assert!(FLIGHT_INTERSECTION_QUERY.contains("LIMIT 1"));
    assert!(FLIGHTS_QUERY.contains("LEFT JOIN \"arrow\".\"flights\""));
    assert!(TELEMETRY_QUERY.contains("\"op_status\""));
}

#[test]
fn points_are_validated_against_the_globe() {
    assert_eq!(validate_pointz(&PointZ { x: 180 * DEGREE, y: 90 * DEGREE, z: 2_000 * METER }), Ok(()));
    assert_eq!(validate_pointz(&PointZ { x: -180 * DEGREE, y: -90 * DEGREE, z: i32::MIN }), Ok(()));
    assert_eq!(
        validate_pointz(&PointZ { x: 0, y: 90 * DEGREE + 1, z: 0 }),
        Err(PointError::OutOfBounds)
    );
    assert_eq!(
        validate_pointz(&PointZ { x: -180 * DEGREE - 1, y: 0, z: 0 }),
        Err(PointError::OutOfBounds)
    );
    assert_eq!(
        PointZ::try_from(GrpcPointZ { latitude: 1, longitude: 2, altitude: 3 }),
        Ok(PointZ { x: 2, y: 1, z: 3 })
    );
    assert_eq!(
        PointZ::try_from(GrpcPointZ { latitude: -901_000_000, longitude: 0, altitude: 0 }),
        Err(PointError::OutOfBounds)
    );
    assert_eq!(
        PointZ { x: 2, y: 1, z: 3 }.to_position(),
        GrpcPointZ { latitude: 1, longitude: 2, altitude: 3 }
    );
    assert_eq!(DEFAULT_SRID, 4326);
}

#[test]
fn flight_errors_have_their_messages() {
    assert_eq!(FlightError::AircraftId.to_string(), "Invalid aircraft ID provided.");
    assert_eq!(FlightError::AircraftType.to_string(), "Invalid aircraft type provided.");
    assert_eq!(FlightError::Location.to_string(), "Invalid location provided.");
    assert_eq!(FlightError::Time.to_string(), "Invalid time provided.");
    assert_eq!(FlightError::Label.to_string(), "Invalid label provided.");
    assert_eq!(FlightError::Client.to_string(), "Could not get backend client.");
    assert_eq!(FlightError::DBError.to_string(), "Unknown backend error.");
    assert_eq!(FlightError::Segments.to_string(), "Could not segmentize path.");
    assert_eq!(
        PostgisError::FlightPath(FlightError::Segments).to_string(),
        "Could not segmentize path."
    );
}

use svc_gis::client::{get_grpc_endpoint, GrpcClients};
use svc_gis::store::psql_enum_declaration;
use svc_gis::time::{convert_timestamp, Timestamp, UtcTime};
use svc_gis::types::{AircraftType, NodeType, OperationalStatus};

#[test]
fn an_endpoint_is_worded_from_host_and_port() {
    assert_eq!(
        get_grpc_endpoint(Some("localhost".to_string()), Some("50051".to_string())),
        "http://localhost:50051"
    );
    assert_eq!(get_grpc_endpoint(None, Some("50051".to_string())), "http://:50051");
    assert_eq!(get_grpc_endpoint(Some("host".to_string()), None), "http://host:");
    assert_eq!(get_grpc_endpoint(None, None), "http://:");
}

#[test]
fn the_default_clients_can_be_made() {
    let clients = GrpcClients::default();
    let copy = clients.clone();
    assert_eq!(format!("{:?}", copy), "GrpcClients");
}

#[test]
fn kinds_of_aircraft_map_to_codes_and_back() {
    let kinds = [
        AircraftType::Undeclared,
        AircraftType::Aeroplane,
        AircraftType::Rotorcraft,
        AircraftType::Gyroplane,
        AircraftType::Hybridlift,
        AircraftType::Ornithopter,
        AircraftType::Glider,
        AircraftType::Kite,
        AircraftType::Freeballoon,
        AircraftType::Captiveballoon,
        AircraftType::Airship,
        AircraftType::Unpowered,
        AircraftType::Rocket,
        AircraftType::Tethered,
        AircraftType::Groundobstacle,
        AircraftType::Other,
    ];
    for (code, kind) in kinds.iter().enumerate() {
        assert_eq!(kind.to_i32(), code as i32);
        assert_eq!(AircraftType::from_i32(code as i32), Some(*kind));
    }
    for code in [-1, 16, 100, i32::MIN, i32::MAX] {
        assert_eq!(AircraftType::from_i32(code), None);
    }
    let labels = AircraftType::labels();
    assert_eq!(labels.len(), 16);
    for (label, kind) in labels.iter().zip(kinds) {
        assert_eq!(*label, kind.to_string());
    }
    assert_eq!(AircraftType::Hybridlift.to_string(), "Hybridlift");
}

#[test]
fn states_and_kinds_of_node_map_to_codes_and_back() {
    let states = [
        OperationalStatus::Undeclared,
        OperationalStatus::Ground,
        OperationalStatus::Airborne,
        OperationalStatus::Emergency,
        OperationalStatus::RemoteIdSystemFailure,
    ];
    for (code, state) in states.iter().enumerate() {
        assert_eq!(state.to_i32(), code as i32);
        assert_eq!(OperationalStatus::from_i32(code as i32), Some(*state));
    }
    assert_eq!(OperationalStatus::from_i32(5), None);
    assert_eq!(OperationalStatus::from_i32(-1), None);
    assert_eq!(
        OperationalStatus::labels(),
        vec!["Undeclared", "Ground", "Airborne", "Emergency", "RemoteIdSystemFailure"]
    );
    let nodes = [NodeType::Vertiport, NodeType::Waypoint, NodeType::Aircraft];
    for (code, node) in nodes.iter().enumerate() {
        assert_eq!(node.to_i32(), code as i32);
        assert_eq!(NodeType::from_i32(code as i32), Some(*node));
    }
    assert_eq!(NodeType::from_i32(3), None);
    assert_eq!(NodeType::from_i32(-1), None);
}

#[test]
fn an_enumeration_is_declared_unless_it_exists() {
    assert_eq!(
        psql_enum_declaration("colour", &vec!["red".to_string(), "green".to_string()]),
        "DO $$ BEGIN IF to_regtype('colour') IS NULL THEN CREATE TYPE colour AS ENUM ('red', \
         'green'); END IF; END $$;"
    );
    assert_eq!(
        psql_enum_declaration("one", &vec!["only".to_string()]),
        "DO $$ BEGIN IF to_regtype('one') IS NULL THEN CREATE TYPE one AS ENUM ('only'); END IF; \
         END $$;"
    );
    assert_eq!(
        psql_enum_declaration("none", &vec![]),
        "DO $$ BEGIN IF to_regtype('none') IS NULL THEN CREATE TYPE none AS ENUM (); END IF; END \
         $$;"
    );
}

#[test]
fn instants_convert_to_offsets_and_back() {
    let first = UtcTime { seconds: -62_135_596_800, nanos: 0 };
    let last = UtcTime { seconds: 253_402_300_799, nanos: 999_999_999 };
    assert_eq!(first.to_offset_nanos(), 0);
    assert_eq!(last.to_offset_nanos(), 315_537_897_599_999_999_999);
    assert_eq!(UtcTime::from_offset_nanos(0), first);
    assert_eq!(UtcTime::from_offset_nanos(315_537_897_599_999_999_999), last);
    let epoch = UtcTime { seconds: 0, nanos: 1 };
    assert_eq!(epoch.to_offset_nanos(), 62_135_596_800_000_000_001);
    assert_eq!(UtcTime::from_offset_nanos(62_135_596_800_000_000_001), epoch);
    let before = UtcTime { seconds: -1, nanos: 999_999_999 };
    assert_eq!(UtcTime::from_offset_nanos(before.to_offset_nanos()), before);
}

#[test]
fn instants_are_ordered_by_seconds_then_nanoseconds() {
    let a = UtcTime { seconds: 5, nanos: 10 };
    let b = UtcTime { seconds: 5, nanos: 11 };
    let c = UtcTime { seconds: 6, nanos: 0 };
    let d = UtcTime { seconds: -6, nanos: 999 };
    assert!(a.is_before(&b));
    assert!(b.is_before(&c));
    assert!(d.is_before(&a));
    assert!(!b.is_before(&a));
    assert!(!a.is_before(&a));
    assert!(!c.is_before(&d));
}

#[test]
fn instants_move_by_seconds_within_the_calendar() {
    let a = UtcTime { seconds: 5, nanos: 10 };
    assert_eq!(a.checked_add_seconds(86_400), Some(UtcTime { seconds: 86_405, nanos: 10 }));
    assert_eq!(a.checked_add_seconds(-6), Some(UtcTime { seconds: -1, nanos: 10 }));
    assert_eq!(a.checked_add_seconds(i64::MAX), None);
    assert_eq!(a.checked_add_seconds(253_402_300_795), None);
    assert_eq!(
        a.checked_add_seconds(253_402_300_794),
        Some(UtcTime { seconds: 253_402_300_799, nanos: 10 })
    );
    assert_eq!(a.checked_add_seconds(-62_135_596_806), None);
}

#[test]
fn timestamps_convert_where_they_are_well_formed() {
    assert_eq!(
        UtcTime::from_timestamp(&Timestamp { seconds: 7, nanos: 8 }),
        Some(UtcTime { seconds: 7, nanos: 8 })
    );
    assert_eq!(UtcTime::from_timestamp(&Timestamp { seconds: 7, nanos: -8 }), None);
    assert_eq!(convert_timestamp(None), None);
    assert_eq!(
        convert_timestamp(Some(Timestamp { seconds: -7, nanos: 999_999_999 })),
        Some(UtcTime { seconds: -7, nanos: 999_999_999 })
    );
    assert_eq!(
        UtcTime { seconds: 7, nanos: 8 }.to_timestamp(),
        Timestamp { seconds: 7, nanos: 8 }
    );
}

#[test]
fn the_whole_schema_is_set_up_in_one_order() {
    let statements = svc_gis::schema::init();
    let mut expected = svc_gis::aircraft::init_statements();
    expected.extend(svc_gis::flight::init_statements());
    assert_eq!(statements, expected);
    assert_eq!(statements.len(), 7);
    assert!(statements[0].contains("CREATE TYPE aircrafttype AS ENUM"));
    assert!(statements[1].contains("CREATE TYPE opstatus AS ENUM"));
    assert!(statements[2].contains("\"arrow\".\"aircraft\""));
    assert!(statements[3].contains("\"arrow\".\"flights\""));
    assert!(statements[4].contains("\"arrow\".\"flight_segments\""));
    assert!(statements[5].contains("\"flights_geom_idx\""));
    assert!(statements[6].contains("\"flight_segments_geom_idx\""));
}

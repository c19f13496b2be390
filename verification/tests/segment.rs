use svc_gis::error::FlightError;
use svc_gis::flight::MAX_FLIGHT_SEGMENT_LENGTH_METERS;
use svc_gis::geometry::PointZ;
use svc_gis::measure::{ceil_sqrt_u128, distance_of, distance_squared_of};
use svc_gis::segment::{segmentize, LineSegment, Segment, MAX_PATH_LENGTH};
use svc_gis::tiling::LENGTH_TOLERANCE;
use svc_gis::time::UtcTime;

const T0: i64 = 1_700_000_000;

fn at(seconds: i64, nanos: u32) -> UtcTime {
    UtcTime { seconds, nanos }
}

fn length_squared(segment: &Segment) -> i128 {
    let x = (segment.geom.end.x as i128) - (segment.geom.start.x as i128);
    let y = (segment.geom.end.y as i128) - (segment.geom.start.y as i128);
    let z = ((segment.geom.end.z as i128) - (segment.geom.start.z as i128)) * 10_000;
    x * x + y * y + z * z
}

fn check_tiling(points: &[PointZ], start: UtcTime, end: UtcTime, meters: u32, segments: &[Segment]) {
    assert!(!segments.is_empty());
    assert_eq!(segments[0].geom.start, points[0]);
    assert_eq!(segments[segments.len() - 1].geom.end, points[points.len() - 1]);
    assert_eq!(segments[0].time_start, start);
    assert_eq!(segments[segments.len() - 1].time_end, end);
    for pair in segments.windows(2) {
        assert_eq!(pair[0].geom.end, pair[1].geom.start);
        assert_eq!(pair[0].time_end, pair[1].time_start);
    }
    let cap = (meters as i128) * 10_000_000 + (LENGTH_TOLERANCE as i128);
    for segment in segments {
        assert!(!segment.time_end.is_before(&segment.time_start));
        assert!(length_squared(segment) <= cap * cap);
    }
    let mut next = 0;
    for vertex in points {
        while next < segments.len() && !(next == 0 && segments[0].geom.start == *vertex)
            && segments[next].geom.end != *vertex
        {
            next += 1;
        }
        assert!(next < segments.len());
    }
}

#[test]
fn a_three_point_path_is_cut_into_six_pieces() {
    let points = vec![
        PointZ { x: 0, y: 0, z: 0 },
        PointZ { x: 0, y: 10_000, z: 100_000 },
        PointZ { x: 10_000, y: 10_000, z: 200_000 },
    ];
    let segments =
        segmentize(points.clone(), at(T0, 0), at(T0 + 60, 0), MAX_FLIGHT_SEGMENT_LENGTH_METERS)
            .unwrap();
    assert!(segments.len() >= 3);
    assert_eq!(segments.len(), 6);
    check_tiling(&points, at(T0, 0), at(T0 + 60, 0), 40, &segments);

    let expected = vec![
        (PointZ { x: 0, y: 0, z: 0 }, PointZ { x: 0, y: 3_333, z: 33_333 }, 0, 10),
        (PointZ { x: 0, y: 3_333, z: 33_333 }, PointZ { x: 0, y: 6_666, z: 66_666 }, 10, 20),
        (PointZ { x: 0, y: 6_666, z: 66_666 }, PointZ { x: 0, y: 10_000, z: 100_000 }, 20, 30),
        (
            PointZ { x: 0, y: 10_000, z: 100_000 },
            PointZ { x: 3_333, y: 10_000, z: 133_333 },
            30,
            40,
        ),
        (
            PointZ { x: 3_333, y: 10_000, z: 133_333 },
            PointZ { x: 6_666, y: 10_000, z: 166_666 },
            40,
            50,
        ),
        (
            PointZ { x: 6_666, y: 10_000, z: 166_666 },
            PointZ { x: 10_000, y: 10_000, z: 200_000 },
            50,
            60,
        ),
    ];
    for (segment, (start, end, opens, closes)) in segments.iter().zip(expected) {
        assert_eq!(
            *segment,
            Segment {
                geom: LineSegment { start, end },
                time_start: at(T0 + opens, 0),
                time_end: at(T0 + closes, 0),
            }
        );
    }
}

#[test]
fn the_time_of_a_vertex_is_its_share_of_the_length() {
    // 30 m up, then 90 m up: three quarters of the time fall to the second edge.
    let points = vec![
        PointZ { x: 5, y: 5, z: 0 },
        PointZ { x: 5, y: 5, z: 30_000 },
        PointZ { x: 5, y: 5, z: 120_000 },
    ];
    let segments = segmentize(points.clone(), at(0, 0), at(100, 0), 40).unwrap();
    assert_eq!(segments.len(), 4);
    assert_eq!(segments[0].time_start, at(0, 0));
    assert_eq!(segments[0].time_end, at(25, 0));
    assert_eq!(segments[0].geom.end, PointZ { x: 5, y: 5, z: 30_000 });
    assert_eq!(segments[1].time_end, at(50, 0));
    assert_eq!(segments[1].geom.end, PointZ { x: 5, y: 5, z: 60_000 });
    assert_eq!(segments[2].time_end, at(75, 0));
    assert_eq!(segments[3].time_end, at(100, 0));
    check_tiling(&points, at(0, 0), at(100, 0), 40, &segments);
}

#[test]
fn an_edge_of_exactly_the_limit_is_one_piece() {
    let points = vec![PointZ { x: 0, y: 0, z: 0 }, PointZ { x: 0, y: 0, z: 40_000 }];
    let segments = segmentize(points, at(0, 0), at(1, 0), 40).unwrap();
    assert_eq!(segments.len(), 1);
    let points = vec![PointZ { x: 0, y: 0, z: 0 }, PointZ { x: 0, y: 0, z: 40_001 }];
    let segments = segmentize(points, at(0, 0), at(1, 0), 40).unwrap();
    assert_eq!(segments.len(), 2);
    assert_eq!(segments[0].geom.end.z, 20_000);
    assert_eq!(segments[0].time_end, at(0, 500_000_000));
}

#[test]
fn steps_towards_smaller_coordinates_round_towards_the_start() {
    let points = vec![PointZ { x: 10, y: -10, z: 100_000 }, PointZ { x: 0, y: 0, z: 0 }];
    let segments = segmentize(points.clone(), at(0, 0), at(0, 10), 40).unwrap();
    assert_eq!(segments.len(), 3);
    assert_eq!(segments[0].geom.end, PointZ { x: 7, y: -7, z: 66_667 });
    assert_eq!(segments[1].geom.end, PointZ { x: 4, y: -4, z: 33_334 });
    assert_eq!(segments[2].geom.end, PointZ { x: 0, y: 0, z: 0 });
    assert_eq!(segments[0].time_end, at(0, 3));
    assert_eq!(segments[1].time_end, at(0, 6));
    assert_eq!(segments[2].time_end, at(0, 10));
    check_tiling(&points, at(0, 0), at(0, 10), 40, &segments);
}

#[test]
fn repeated_points_add_no_segment() {
    let a = PointZ { x: 1, y: 2, z: 3 };
    let b = PointZ { x: 1, y: 2, z: 10_003 };
    let points = vec![a, a, b, b, b];
    let segments = segmentize(points.clone(), at(5, 0), at(6, 0), 40).unwrap();
    assert_eq!(
        segments,
        vec![Segment {
            geom: LineSegment { start: a, end: b },
            time_start: at(5, 0),
            time_end: at(6, 0)
        }]
    );
    check_tiling(&points, at(5, 0), at(6, 0), 40, &segments);
}

#[test]
fn a_flight_of_no_duration_is_cut_all_the_same() {
    let points = vec![PointZ { x: 0, y: 0, z: 0 }, PointZ { x: 0, y: 0, z: 90_000 }];
    let segments = segmentize(points.clone(), at(7, 7), at(7, 7), 40).unwrap();
    assert_eq!(segments.len(), 3);
    for segment in &segments {
        assert_eq!(segment.time_start, at(7, 7));
        assert_eq!(segment.time_end, at(7, 7));
    }
    check_tiling(&points, at(7, 7), at(7, 7), 40, &segments);
}

#[test]
fn another_limit_gives_other_pieces() {
    let points = vec![PointZ { x: 0, y: 0, z: 0 }, PointZ { x: 0, y: 0, z: 100_000 }];
    assert_eq!(segmentize(points.clone(), at(0, 0), at(1, 0), 100).unwrap().len(), 1);
    assert_eq!(segmentize(points.clone(), at(0, 0), at(1, 0), 99).unwrap().len(), 2);
    assert_eq!(segmentize(points.clone(), at(0, 0), at(1, 0), 1).unwrap().len(), 100);
    let segments = segmentize(points.clone(), at(0, 0), at(1, 0), 7).unwrap();
    assert_eq!(segments.len(), 15);
    check_tiling(&points, at(0, 0), at(1, 0), 7, &segments);
}

#[test]
fn segments_span_the_whole_range_of_instants() {
    let start = at(-62_135_596_800, 0);
    let end = at(253_402_300_799, 999_999_999);
    let points = vec![
        PointZ { x: -1_800_000_000, y: -900_000_000, z: -50_000 },
        PointZ { x: -1_799_999_000, y: -899_999_000, z: 70_000 },
        PointZ { x: -1_799_999_000, y: -899_999_000, z: 0 },
    ];
    let segments = segmentize(points.clone(), start, end, 40).unwrap();
    check_tiling(&points, start, end, 40, &segments);
}

#[test]
fn what_cannot_be_cut_is_refused() {
    let a = PointZ { x: 0, y: 0, z: 0 };
    let b = PointZ { x: 0, y: 0, z: 1 };
    assert_eq!(segmentize(vec![], at(0, 0), at(1, 0), 40), Err(FlightError::Segments));
    assert_eq!(segmentize(vec![a], at(0, 0), at(1, 0), 40), Err(FlightError::Segments));
    assert_eq!(segmentize(vec![a, a, a], at(0, 0), at(1, 0), 40), Err(FlightError::Segments));
    assert_eq!(segmentize(vec![a, b], at(0, 0), at(1, 0), 0), Err(FlightError::Segments));
    assert_eq!(segmentize(vec![a, b], at(1, 0), at(0, 999_999_999), 40), Err(FlightError::Time));
    assert_eq!(segmentize(vec![a], at(1, 0), at(0, 0), 40), Err(FlightError::Time));
}

#[test]
fn a_path_beyond_the_longest_is_refused() {
    let low = PointZ { x: 0, y: 0, z: i32::MIN };
    let high = PointZ { x: 0, y: 0, z: i32::MAX };
    let edge = distance_of(&low, &high);
    assert_eq!(edge, 42_949_672_950_000);
    let edges = (MAX_PATH_LENGTH / edge) as usize + 1;
    let mut points = Vec::new();
    for i in 0..=edges {
        points.push(if i % 2 == 0 { low } else { high });
    }
    assert_eq!(segmentize(points, at(0, 0), at(1, 0), 40), Err(FlightError::Segments));
}

#[test]
fn square_roots_round_up() {
    assert_eq!(ceil_sqrt_u128(0), 0);
    assert_eq!(ceil_sqrt_u128(1), 1);
    assert_eq!(ceil_sqrt_u128(2), 2);
    assert_eq!(ceil_sqrt_u128(4), 2);
    assert_eq!(ceil_sqrt_u128(5), 3);
    assert_eq!(ceil_sqrt_u128(99), 10);
    assert_eq!(ceil_sqrt_u128(100), 10);
    assert_eq!(ceil_sqrt_u128(101), 11);
    assert_eq!(ceil_sqrt_u128(1_000_000_000_000_000_000), 1_000_000_000);
    assert_eq!(ceil_sqrt_u128(1_000_000_000_000_000_001), 1_000_000_001);
    assert_eq!(ceil_sqrt_u128(1u128 << 92), 1u64 << 46);
    assert_eq!(ceil_sqrt_u128((1u128 << 92) - 1), 1u64 << 46);
}

#[test]
fn distances_are_measured_on_the_coordinates_as_they_stand() {
    let a = PointZ { x: 0, y: 0, z: 0 };
    assert_eq!(distance_squared_of(&a, &PointZ { x: 3, y: 4, z: 0 }), 25);
    assert_eq!(distance_of(&a, &PointZ { x: 3, y: 4, z: 0 }), 5);
    assert_eq!(distance_of(&a, &PointZ { x: -3, y: -4, z: 0 }), 5);
    assert_eq!(distance_of(&a, &PointZ { x: 1, y: 1, z: 0 }), 2);
    assert_eq!(distance_of(&a, &PointZ { x: 0, y: 0, z: 1 }), 10_000);
    assert_eq!(distance_squared_of(&a, &PointZ { x: 0, y: 0, z: -2 }), 400_000_000);
    assert_eq!(distance_of(&a, &PointZ { x: 0, y: 10_000, z: 100_000 }), 1_000_000_001);
    assert_eq!(distance_of(&a, &a), 0);
    assert_eq!(
        distance_squared_of(
            &PointZ { x: i32::MIN, y: i32::MIN, z: i32::MIN },
            &PointZ { x: i32::MAX, y: i32::MAX, z: i32::MAX }
        ),
        2 * 4_294_967_295u128 * 4_294_967_295u128
            + 42_949_672_950_000u128 * 42_949_672_950_000u128
    );
}

struct Dice(u64);

impl Dice {
    fn roll(&mut self, sides: u64) -> u64 {
        self.0 = self.0.wrapping_mul(6364136223846793005).wrapping_add(1442695040888963407);
        (self.0 >> 33) % sides
    }

    fn between(&mut self, low: i32, high: i32) -> i32 {
        low + self.roll((high - low) as u64 + 1) as i32
    }
}

#[test]
fn every_cut_path_is_tiled() {
    let mut dice = Dice(2024);
    for _ in 0..300 {
        let count = 2 + dice.roll(6) as usize;
        let mut points = vec![PointZ {
            x: dice.between(-1_800_000_000, 1_799_990_000),
            y: dice.between(-900_000_000, 899_990_000),
            z: dice.between(-100_000, 3_000_000),
        }];
        while points.len() < count {
            let last = points[points.len() - 1];
            let still = dice.roll(5) == 0;
            points.push(if still {
                last
            } else {
                PointZ {
                    x: last.x + dice.between(-5_000, 5_000),
                    y: last.y + dice.between(-5_000, 5_000),
                    z: last.z + dice.between(-400_000, 400_000),
                }
            });
        }
        let start = at(T0 + dice.roll(1_000) as i64, dice.roll(1_000_000_000) as u32);
        let end = at(start.seconds + dice.roll(7_200) as i64, start.nanos);
        let meters = 1 + dice.roll(60) as u32;
        match segmentize(points.clone(), start, end, meters) {
            Ok(segments) => check_tiling(&points, start, end, meters, &segments),
            Err(e) => {
                assert_eq!(e, FlightError::Segments);
                assert!(points.iter().all(|p| *p == points[0]));
            }
        }
    }
}

//! The segmentizer: a flight path cut into pieces of bounded length, each
//! with its own window of time.
//!
//! Every edge of the path is cut into the fewest equal pieces that keep each
//! within the largest segment length. The instant at a vertex is the flight's
//! start plus the share of the flight's duration that the path's length up to
//! that vertex has in the whole length; within an edge the instants of the
//! cuts are spread evenly. An edge between two equal points has no piece.
//!
//! All of it is whole-number arithmetic: a cut is rounded to a whole
//! coordinate towards the start of its edge, an instant to a whole
//! nanosecond towards the start of its span.

use vstd::prelude::*;
use crate::error::FlightError;
use crate::geometry::PointZ;
use crate::measure::{
    distance, distance_of, lemma_distance_bounds, MAX_DISTANCE, UNITS_PER_METER,
};
use crate::time::{UtcTime, MAX_OFFSET_NANOS};

verus! {

/// The longest path that can be cut, in length units: ten thousand million
/// metres.
pub const MAX_PATH_LENGTH: u64 = 100_000_000_000_000_000;

/// A straight line between two points.
#[derive(Debug, Copy, Clone, PartialEq, Eq)]
pub struct LineSegment {
    /// Where the line starts.
    pub start: PointZ,
    /// Where the line ends.
    pub end: PointZ,
}

/// A piece of a flight path with the window of time in which it is flown.
#[derive(Debug, Copy, Clone, PartialEq, Eq)]
pub struct Segment {
    /// The line flown.
    pub geom: LineSegment,
    /// When the aircraft enters the line.
    pub time_start: UtcTime,
    /// When the aircraft leaves the line.
    pub time_end: UtcTime,
}

/// The largest segment length in length units, for one given in metres.
pub open spec fn limit_units(meters: u32) -> int {
    meters * UNITS_PER_METER
}

/// The number of pieces that the edge from `a` to `b` is cut into: its
/// length over the limit, rounded up.
pub open spec fn pieces(a: PointZ, b: PointZ, limit: int) -> int {
    (distance(a, b) + limit - 1) / limit
}

/// The length of the path along `points` from its first point to its
/// `i`-th vertex.
pub open spec fn path_length(points: Seq<PointZ>, i: int) -> int
    decreases i,
{
    if i <= 0 {
        0
    } else {
        path_length(points, i - 1) + distance(points[i - 1], points[i])
    }
}

/// The length of the whole path along `points`.
pub open spec fn total_length(points: Seq<PointZ>) -> int {
    path_length(points, points.len() - 1)
}

/// The `k`-th of `n` equal parts of `step`, rounded towards zero.
pub open spec fn along(step: int, k: int, n: int) -> int {
    if step >= 0 {
        step * k / n
    } else {
        -((-step) * k / n)
    }
}

/// The point after `k` of `n` equal parts of the way from `a` to `b`.
pub open spec fn point_along(a: PointZ, b: PointZ, k: int, n: int) -> PointZ {
    PointZ {
        x: (a.x + along(b.x - a.x, k, n)) as i32,
        y: (a.y + along(b.y - a.y, k, n)) as i32,
        z: (a.z + along(b.z - a.z, k, n)) as i32,
    }
}

/// The offset after `k` of `n` equal parts of the time from `from` to `to`.
pub open spec fn offset_along(from: int, to: int, k: int, n: int) -> int {
    from + (to - from) * k / n
}

/// The offset of the instant at the `i`-th vertex of `points`, for a flight
/// from the offset `from` to the offset `to`.
pub open spec fn vertex_offset(points: Seq<PointZ>, from: int, to: int, i: int) -> int {
    from + (to - from) * path_length(points, i) / total_length(points)
}

/// The `k`-th of the `n` pieces of the edge from `a` to `b`, flown between
/// the offsets `from` and `to`.
pub open spec fn piece(a: PointZ, b: PointZ, from: int, to: int, n: int, k: int) -> Segment {
    Segment {
        geom: LineSegment { start: point_along(a, b, k, n), end: point_along(a, b, k + 1, n) },
        time_start: UtcTime::at_offset(offset_along(from, to, k, n)),
        time_end: UtcTime::at_offset(offset_along(from, to, k + 1, n)),
    }
}

/// The `n` pieces of the edge from `a` to `b`, in order.
pub open spec fn edge_pieces(a: PointZ, b: PointZ, from: int, to: int, n: int) -> Seq<Segment> {
    Seq::new(n as nat, |k: int| piece(a, b, from, to, n, k))
}

/// The pieces of the `i`-th edge of `points`.
pub open spec fn edge_segments(points: Seq<PointZ>, from: int, to: int, limit: int, i: int) -> Seq<
    Segment,
> {
    edge_pieces(
        points[i - 1],
        points[i],
        vertex_offset(points, from, to, i - 1),
        vertex_offset(points, from, to, i),
        pieces(points[i - 1], points[i], limit),
    )
}

/// The pieces of the first `i` edges of `points`, in order.
pub open spec fn path_segments(points: Seq<PointZ>, from: int, to: int, limit: int, i: int) -> Seq<
    Segment,
>
    decreases i,
{
    if i <= 0 {
        Seq::empty()
    } else {
        path_segments(points, from, to, limit, i - 1) + edge_segments(points, from, to, limit, i)
    }
}

/// The segments of the flight along `points` from `start` to `end`, none
/// longer than `meters` but for rounding.
pub open spec fn segments_of(points: Seq<PointZ>, start: UtcTime, end: UtcTime, meters: u32) -> Seq<
    Segment,
> {
    path_segments(
        points,
        start.offset_nanos(),
        end.offset_nanos(),
        limit_units(meters),
        points.len() - 1,
    )
}

/// Why the flight along `points` from `start` to `end` cannot be cut, if it
/// cannot: it ends before it starts; or the limit is zero, the path has fewer
/// than two points, no length, or more length than can be cut.
pub open spec fn segmentize_error(
    points: Seq<PointZ>,
    start: UtcTime,
    end: UtcTime,
    meters: u32,
) -> Option<FlightError> {
    if end.before(start) {
        Some(FlightError::Time)
    } else if meters == 0 || points.len() < 2 || total_length(points) == 0 || total_length(points)
        > MAX_PATH_LENGTH {
        Some(FlightError::Segments)
    } else {
        None
    }
}

/// The number of pieces of an edge of length `length` under the limit
/// `limit`: the least number of pieces that keeps each within the limit.
pub proof fn lemma_piece_count(length: int, limit: int)
    requires
        0 <= length,
        0 < limit,
    ensures
        ({
            let n = (length + limit - 1) / limit;
            &&& 0 <= n <= length
            &&& n == 0 <==> length == 0
            &&& length <= n * limit
            &&& (n - 1) * limit < length
        }),
{
    let n = (length + limit - 1) / limit;
    let r = (length + limit - 1) % limit;
    vstd::arithmetic::div_mod::lemma_fundamental_div_mod(length + limit - 1, limit);
    vstd::arithmetic::div_mod::lemma_mod_bound(length + limit - 1, limit);
    assert(0 <= n <= length && (n == 0 <==> length == 0) && length <= n * limit && (n - 1) * limit
        < length) by (nonlinear_arith)
        requires
            length + limit - 1 == limit * n + r,
            0 <= r < limit,
            0 <= length,
            0 < limit,
    ;
}

/// The length of a path grows with the number of its edges.
pub proof fn lemma_path_length_monotone(points: Seq<PointZ>, i: int, j: int)
    requires
        i <= j,
    ensures
        0 <= path_length(points, i) <= path_length(points, j),
    decreases j,
{
    if j <= 0 {
    } else if i == j {
        lemma_path_length_monotone(points, i - 1, j - 1);
        lemma_distance_bounds(points[j - 1], points[j]);
    } else {
        lemma_path_length_monotone(points, i, j - 1);
        lemma_distance_bounds(points[j - 1], points[j]);
    }
}

/// A share `k` of `n` of a quantity lies between nothing and the whole, and
/// grows with `k`.
pub proof fn lemma_share(x: int, k: int, n: int)
    requires
        0 <= x,
        0 <= k <= n,
        0 < n,
    ensures
        0 <= x * k / n <= x,
        x * 0 / n == 0,
        x * n / n == x,
        k < n ==> x * k / n <= x * (k + 1) / n,
{
    assert(0 <= x * k <= x * n && x * k <= x * (k + 1) && x * 0 == 0) by (nonlinear_arith)
        requires
            0 <= x,
            0 <= k <= n,
    ;
    vstd::arithmetic::div_mod::lemma_div_is_ordered(0, x * k, n);
    vstd::arithmetic::div_mod::lemma_div_is_ordered(x * k, x * n, n);
    vstd::arithmetic::div_mod::lemma_div_is_ordered(x * k, x * (k + 1), n);
    vstd::arithmetic::div_mod::lemma_div_multiples_vanish(x, n);
    assert(x * n == n * x) by (nonlinear_arith);
}

/// The coordinate after `k` of `n` equal parts of the way from `from` to
/// `to`.
fn coordinate_along(from: i32, to: i32, k: u64, n: u64) -> (c: i32)
    requires
        0 < n <= MAX_DISTANCE,
        k <= n,
    ensures
        c == from + along(to - from, k as int, n as int),
{
    if to >= from {
        let step: u128 = (to as i64 - from as i64) as u128;
        proof {
            lemma_share(step as int, k as int, n as int);
            assert(step * k <= 0x1_0000_0000 * 0x4000_0000_0000) by (nonlinear_arith)
                requires
                    step <= 0x1_0000_0000,
                    k <= 0x4000_0000_0000,
            ;
        }
        let part: u128 = step * (k as u128) / (n as u128);
        (from as i64 + part as i64) as i32
    } else {
        let step: u128 = (from as i64 - to as i64) as u128;
        proof {
            lemma_share(step as int, k as int, n as int);
            assert(step * k <= 0x1_0000_0000 * 0x4000_0000_0000) by (nonlinear_arith)
                requires
                    step <= 0x1_0000_0000,
                    k <= 0x4000_0000_0000,
            ;
        }
        let part: u128 = step * (k as u128) / (n as u128);
        (from as i64 - part as i64) as i32
    }
}

/// The point after `k` of `n` equal parts of the way from `a` to `b`.
fn point_at(a: &PointZ, b: &PointZ, k: u64, n: u64) -> (p: PointZ)
    requires
        0 < n <= MAX_DISTANCE,
        k <= n,
    ensures
        p == point_along(*a, *b, k as int, n as int),
{
    PointZ {
        x: coordinate_along(a.x, b.x, k, n),
        y: coordinate_along(a.y, b.y, k, n),
        z: coordinate_along(a.z, b.z, k, n),
    }
}

/// The instant after `k` of `n` equal parts of the time from the offset
/// `from` to the offset `to`.
fn instant_at(from: u128, to: u128, k: u64, n: u64) -> (t: UtcTime)
    requires
        from <= to <= MAX_OFFSET_NANOS,
        0 < n <= MAX_DISTANCE,
        k <= n,
    ensures
        t == UtcTime::at_offset(offset_along(from as int, to as int, k as int, n as int)),
        t.wf(),
        from <= t.offset_nanos() <= to,
{
    let span: u128 = to - from;
    proof {
        lemma_share(span as int, k as int, n as int);
        assert(span * k <= 315_537_897_599_999_999_999 * 0x4000_0000_0000) by (nonlinear_arith)
            requires
                span <= 315_537_897_599_999_999_999,
                k <= 0x4000_0000_0000,
        ;
    }
    let part: u128 = span * (k as u128) / (n as u128);
    UtcTime::from_offset_nanos(from + part)
}

/// Appends the `n` pieces of the edge from `a` to `b`, flown between the
/// offsets `from` and `to`.
fn push_edge(out: &mut Vec<Segment>, a: &PointZ, b: &PointZ, from: u128, to: u128, n: u64)
    requires
        from <= to <= MAX_OFFSET_NANOS,
        n <= MAX_DISTANCE,
    ensures
        final(out)@ == old(out)@ + edge_pieces(*a, *b, from as int, to as int, n as int),
{
    let ghost before = out@;
    let ghost all = edge_pieces(*a, *b, from as int, to as int, n as int);
    let mut k: u64 = 0;
    while k < n
        invariant
            k <= n <= MAX_DISTANCE,
            from <= to <= MAX_OFFSET_NANOS,
            all == edge_pieces(*a, *b, from as int, to as int, n as int),
            out@ == before + all.subrange(0, k as int),
        decreases n - k,
    {
        let segment = Segment {
            geom: LineSegment { start: point_at(a, b, k, n), end: point_at(a, b, k + 1, n) },
            time_start: instant_at(from, to, k, n),
            time_end: instant_at(from, to, k + 1, n),
        };
        out.push(segment);
        k += 1;
    }
}

/// The length of the path up to each vertex. `None` where the whole path is
/// longer than can be cut.
fn cumulative_lengths(points: &Vec<PointZ>) -> (r: Option<Vec<u64>>)
    requires
        points@.len() >= 1,
    ensures
        match r {
            Some(lengths) => {
                &&& lengths@.len() == points@.len()
                &&& forall|i: int|
                    0 <= i < points@.len() ==> #[trigger] lengths@[i] == path_length(points@, i)
                &&& total_length(points@) <= MAX_PATH_LENGTH
            },
            None => total_length(points@) > MAX_PATH_LENGTH,
        },
{
    let mut lengths: Vec<u64> = Vec::new();
    lengths.push(0);
    let mut i: usize = 1;
    while i < points.len()
        invariant
            1 <= i <= points@.len(),
            lengths@.len() == i,
            forall|j: int| 0 <= j < i ==> #[trigger] lengths@[j] == path_length(points@, j),
            path_length(points@, i - 1) <= MAX_PATH_LENGTH,
        decreases points@.len() - i,
    {
        let step: u64 = distance_of(&points[i - 1], &points[i]);
        let so_far: u64 = lengths[i - 1];
        if step > MAX_PATH_LENGTH - so_far {
            proof {
                lemma_path_length_monotone(points@, i as int, points@.len() - 1);
            }
            return None;
        }
        lengths.push(so_far + step);
        i += 1;
    }
    Some(lengths)
}

/// Cuts the flight along `points`, from `time_start` to `time_end`, into
/// segments no longer than `max_segment_length_meters` but for rounding.
pub fn segmentize(
    points: Vec<PointZ>,
    time_start: UtcTime,
    time_end: UtcTime,
    max_segment_length_meters: u32,
) -> (r: Result<Vec<Segment>, FlightError>)
    requires
        time_start.wf(),
        time_end.wf(),
    ensures
        match r {
            Ok(segments) => {
                &&& segmentize_error(points@, time_start, time_end, max_segment_length_meters)
                    is None
                &&& segments@ == segments_of(
                    points@,
                    time_start,
                    time_end,
                    max_segment_length_meters,
                )
            },
            Err(e) => segmentize_error(points@, time_start, time_end, max_segment_length_meters)
                == Some(e),
        },
{
    if time_end.is_before(&time_start) {
        return Err(FlightError::Time);
    }
    if max_segment_length_meters == 0 || points.len() < 2 {
        return Err(FlightError::Segments);
    }
    let limit: u64 = max_segment_length_meters as u64 * 10_000_000;
    let lengths: Vec<u64> = match cumulative_lengths(&points) {
        Some(lengths) => lengths,
        None => {
            return Err(FlightError::Segments);
        },
    };
    let count: usize = points.len();
    let total: u64 = lengths[count - 1];
    if total == 0 {
        return Err(FlightError::Segments);
    }
    let from: u128 = time_start.to_offset_nanos();
    let to: u128 = time_end.to_offset_nanos();
    let span: u128 = to - from;
    let mut out: Vec<Segment> = Vec::new();
    let mut i: usize = 1;
    while i < count
        invariant
            1 <= i <= count,
            count == points@.len(),
            lengths@.len() == count,
            forall|j: int| 0 <= j < count ==> #[trigger] lengths@[j] == path_length(points@, j),
            total == total_length(points@),
            0 < total <= MAX_PATH_LENGTH,
            0 < limit == limit_units(max_segment_length_meters),
            from <= to <= MAX_OFFSET_NANOS,
            span == to - from,
            out@ == path_segments(points@, from as int, to as int, limit as int, i - 1),
        decreases count - i,
    {
        let here: u64 = lengths[i - 1];
        let there: u64 = lengths[i];
        proof {
            lemma_path_length_monotone(points@, i as int, count - 1);
            lemma_path_length_monotone(points@, i - 1, i as int);
            lemma_distance_bounds(points@[i - 1], points@[i as int]);
            lemma_offsets_ordered(span as int, here as int, there as int, total as int);
        }
        let length: u64 = there - here;
        let n: u64 = (length + (limit - 1)) / limit;
        let edge_from: u128 = from + span * (here as u128) / (total as u128);
        let edge_to: u128 = from + span * (there as u128) / (total as u128);
        proof {
            lemma_piece_count(length as int, limit as int);
        }
        push_edge(&mut out, &points[i - 1], &points[i], edge_from, edge_to, n);
        i += 1;
    }
    Ok(out)
}

/// The offsets of the instants at two vertices stand in the order of the
/// vertices, and no product on the way to them leaves the machine's range.
proof fn lemma_offsets_ordered(span: int, here: int, there: int, total: int)
    requires
        0 <= span <= MAX_OFFSET_NANOS,
        0 <= here <= there <= total <= MAX_PATH_LENGTH,
        0 < total,
    ensures
        span * here <= span * there <= MAX_OFFSET_NANOS * MAX_PATH_LENGTH,
        0 <= span * here / total <= span * there / total <= span,
{
    assert(0 <= span * here <= span * there <= span * total && span * total
        <= MAX_OFFSET_NANOS * MAX_PATH_LENGTH) by (nonlinear_arith)
        requires
            0 <= span <= MAX_OFFSET_NANOS,
            0 <= here <= there <= total <= MAX_PATH_LENGTH,
    ;
    vstd::arithmetic::div_mod::lemma_div_is_ordered(0, span * here, total);
    vstd::arithmetic::div_mod::lemma_div_is_ordered(span * here, span * there, total);
    vstd::arithmetic::div_mod::lemma_div_is_ordered(span * there, span * total, total);
    vstd::arithmetic::div_mod::lemma_div_multiples_vanish(span, total);
    assert(span * total == total * span) by (nonlinear_arith);
}

} // verus!

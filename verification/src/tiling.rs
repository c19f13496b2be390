//! What holds of every cut flight path: its segments follow the path from
//! its first point to its last without a gap, their windows of time tile the
//! flight's duration, every vertex of the path is a point where two segments
//! meet, and no segment is longer than the limit but for rounding.

use vstd::prelude::*;
use crate::geometry::PointZ;
use crate::measure::{
    distance, distance_squared, lemma_distance_bounds, lemma_distance_squared_bounds,
    lemma_square_monotone, UNITS_PER_MILLIMETER,
};
use crate::segment::{
    along, edge_pieces, edge_segments, lemma_path_length_monotone, lemma_piece_count, lemma_share,
    limit_units, offset_along, path_length, path_segments, piece, pieces, point_along,
    segmentize_error, segments_of, total_length, vertex_offset, Segment,
};
use crate::time::{
    lemma_at_offset_inverts, lemma_at_offset_wf, lemma_before_is_offset_order, UtcTime,
    MAX_OFFSET_NANOS,
};

verus! {

/// By how much a segment may exceed the limit, in length units: each of its
/// ends is rounded to a whole coordinate, which along the altitude is a
/// millimetre.
pub const LENGTH_TOLERANCE: u64 = 10_002;

/// The `j`-th point of the chain that `segments` form: the start of the
/// first segment, then the end of each.
pub open spec fn chain_point(segments: Seq<Segment>, j: int) -> PointZ {
    if j == 0 {
        segments[0].geom.start
    } else {
        segments[j - 1].geom.end
    }
}

/// The `j`-th instant of the chain that `segments` form: the start of the
/// first window, then the end of each.
pub open spec fn chain_instant(segments: Seq<Segment>, j: int) -> UtcTime {
    if j == 0 {
        segments[0].time_start
    } else {
        segments[j - 1].time_end
    }
}

/// Whether each segment of `segments` starts where and when the one before
/// it ends.
pub open spec fn contiguous(segments: Seq<Segment>) -> bool {
    forall|k: int|
        0 <= k < segments.len() - 1 ==> (#[trigger] segments[k]).geom.end == segments[k
            + 1].geom.start && segments[k].time_end == segments[k + 1].time_start
}

/// Whether `s` is one of the pieces of one edge of the path along `points`.
pub open spec fn lies_on_path(
    points: Seq<PointZ>,
    from: int,
    to: int,
    limit: int,
    s: Segment,
) -> bool {
    exists|i: int, j: int|
        1 <= i < points.len() && 0 <= j < pieces(points[i - 1], points[i], limit) && s
            == #[trigger] piece(
            points[i - 1],
            points[i],
            vertex_offset(points, from, to, i - 1),
            vertex_offset(points, from, to, i),
            pieces(points[i - 1], points[i], limit),
            j,
        )
}

/// The number of segments up to the `i`-th vertex of the path.
pub open spec fn segments_before(
    points: Seq<PointZ>,
    from: int,
    to: int,
    limit: int,
    i: int,
) -> int {
    path_segments(points, from, to, limit, i).len() as int
}

/// Whether `s` is a chain from the point `a` at the instant `from` to the
/// point `b` at the instant `to`: it is not empty, starts at the one, ends at
/// the other, and each of its segments starts where and when the one before
/// it ends.
pub open spec fn joins(s: Seq<Segment>, a: PointZ, from: UtcTime, b: PointZ, to: UtcTime) -> bool {
    &&& s.len() > 0
    &&& s[0].geom.start == a
    &&& s[0].time_start == from
    &&& s[s.len() - 1].geom.end == b
    &&& s[s.len() - 1].time_end == to
    &&& contiguous(s)
}

/// A chain that ends where and when another starts makes one chain with it.
proof fn lemma_chains_join(
    first: Seq<Segment>,
    second: Seq<Segment>,
    a: PointZ,
    at_a: UtcTime,
    b: PointZ,
    at_b: UtcTime,
    c: PointZ,
    at_c: UtcTime,
)
    requires
        joins(first, a, at_a, b, at_b),
        joins(second, b, at_b, c, at_c),
    ensures
        joins(first + second, a, at_a, c, at_c),
{
    let s = first + second;
    assert forall|k: int| 0 <= k < s.len() - 1 implies (#[trigger] s[k]).geom.end == s[k
        + 1].geom.start && s[k].time_end == s[k + 1].time_start by {
        if k < first.len() - 1 {
            assert(s[k] == first[k] && s[k + 1] == first[k + 1]);
        } else if k == first.len() - 1 {
            assert(s[k] == first[k] && s[k + 1] == second[0]);
        } else {
            assert(s[k] == second[k - first.len()] && s[k + 1] == second[k + 1 - first.len()]);
        }
    }
    assert(s[0] == first[0]);
    assert(s[s.len() - 1] == second[second.len() - 1]);
}

/// The pieces of an edge are a chain from the edge's first point to its
/// last, and from the instant at the one to the instant at the other.
proof fn lemma_edge_pieces_chain(a: PointZ, b: PointZ, from: int, to: int, n: int)
    requires
        0 < n,
        0 <= from <= to <= MAX_OFFSET_NANOS,
    ensures
        edge_pieces(a, b, from, to, n).len() == n,
        joins(
            edge_pieces(a, b, from, to, n),
            a,
            UtcTime::at_offset(from),
            b,
            UtcTime::at_offset(to),
        ),
{
    lemma_along_ends(b.x - a.x, n);
    lemma_along_ends(b.y - a.y, n);
    lemma_along_ends(b.z - a.z, n);
    lemma_share(to - from, 0, n);
    lemma_share(to - from, n, n);
}

/// None of the way is no step, and all of the way is the whole step.
proof fn lemma_along_ends(step: int, n: int)
    requires
        0 < n,
    ensures
        along(step, 0, n) == 0,
        along(step, n, n) == step,
{
    if step >= 0 {
        lemma_share(step, 0, n);
        lemma_share(step, n, n);
    } else {
        lemma_share(-step, 0, n);
        lemma_share(-step, n, n);
    }
}

/// A part of the way stays between no step and the whole step.
proof fn lemma_along_between(step: int, k: int, n: int)
    requires
        0 < n,
        0 <= k <= n,
    ensures
        step >= 0 ==> 0 <= along(step, k, n) <= step,
        step <= 0 ==> step <= along(step, k, n) <= 0,
{
    if step >= 0 {
        lemma_share(step, k, n);
    } else {
        lemma_share(-step, k, n);
    }
}

/// The segments up to a vertex are the first of the segments up to any later
/// vertex.
pub proof fn lemma_path_segments_prefix(
    points: Seq<PointZ>,
    from: int,
    to: int,
    limit: int,
    i: int,
    j: int,
)
    requires
        0 <= i <= j,
    ensures
        segments_before(points, from, to, limit, i) <= segments_before(points, from, to, limit, j),
        forall|k: int|
            0 <= k < segments_before(points, from, to, limit, i) ==> path_segments(
                points,
                from,
                to,
                limit,
                j,
            )[k] == path_segments(points, from, to, limit, i)[k],
    decreases j - i,
{
    if i < j {
        lemma_path_segments_prefix(points, from, to, limit, i, j - 1);
    }
}

/// What holds of the segments up to each vertex of a path that can be cut.
///
/// While the path has no length yet, there is no segment and the vertex is
/// the path's first point. From then on the segments are a chain from the
/// path's first point at the flight's start to the vertex at its instant.
#[verifier::spinoff_prover]
pub proof fn lemma_path_segments_chain(
    points: Seq<PointZ>,
    from: int,
    to: int,
    limit: int,
    i: int,
)
    requires
        0 <= i < points.len(),
        0 <= from <= to <= MAX_OFFSET_NANOS,
        0 < limit,
        0 < total_length(points),
    ensures
        path_length(points, i) == 0 ==> path_segments(points, from, to, limit, i).len() == 0
            && points[i] == points[0],
        path_length(points, i) > 0 ==> joins(
            path_segments(points, from, to, limit, i),
            points[0],
            UtcTime::at_offset(from),
            points[i],
            UtcTime::at_offset(vertex_offset(points, from, to, i)),
        ),
    decreases i,
{
    if i > 0 {
        lemma_path_segments_chain(points, from, to, limit, i - 1);
        let a = points[i - 1];
        let b = points[i];
        let before = path_segments(points, from, to, limit, i - 1);
        let edge = edge_segments(points, from, to, limit, i);
        let n = pieces(a, b, limit);
        let at_a = vertex_offset(points, from, to, i - 1);
        let at_b = vertex_offset(points, from, to, i);
        lemma_distance_bounds(a, b);
        lemma_piece_count(distance(a, b), limit);
        lemma_path_length_monotone(points, i - 1, i);
        lemma_vertex_offsets(points, from, to, i);
        assert(path_segments(points, from, to, limit, i) == before + edge);
        if n > 0 {
            lemma_edge_pieces_chain(a, b, at_a, at_b, n);
            if path_length(points, i - 1) == 0 {
                lemma_share(to - from, 0, total_length(points));
                assert(before + edge =~= edge);
            } else {
                lemma_chains_join(
                    before,
                    edge,
                    points[0],
                    UtcTime::at_offset(from),
                    a,
                    UtcTime::at_offset(at_a),
                    b,
                    UtcTime::at_offset(at_b),
                );
            }
        } else {
            assert(before + edge =~= before);
        }
    }
}

/// The offsets of the instants at the vertices of a path stand in the order
/// of the vertices, between the flight's start and its end.
pub proof fn lemma_vertex_offsets(points: Seq<PointZ>, from: int, to: int, i: int)
    requires
        1 <= i < points.len(),
        0 <= from <= to <= MAX_OFFSET_NANOS,
        0 < total_length(points),
    ensures
        from <= vertex_offset(points, from, to, i - 1) <= vertex_offset(points, from, to, i) <= to,
{
    let total = total_length(points);
    let here = path_length(points, i - 1);
    let there = path_length(points, i);
    let span = to - from;
    lemma_path_length_monotone(points, i - 1, i);
    lemma_path_length_monotone(points, i, points.len() - 1);
    assert(0 <= span * here <= span * there <= span * total && span * total == total * span)
        by (nonlinear_arith)
        requires
            0 <= span,
            0 <= here <= there <= total,
    ;
    vstd::arithmetic::div_mod::lemma_div_is_ordered(0, span * here, total);
    vstd::arithmetic::div_mod::lemma_div_is_ordered(span * here, span * there, total);
    vstd::arithmetic::div_mod::lemma_div_is_ordered(span * there, span * total, total);
    vstd::arithmetic::div_mod::lemma_div_multiples_vanish(span, total);
}

/// Every segment up to a vertex is a piece of an edge of the path.
pub proof fn lemma_segments_lie_on_path(
    points: Seq<PointZ>,
    from: int,
    to: int,
    limit: int,
    i: int,
)
    requires
        0 <= i < points.len(),
        0 < limit,
    ensures
        forall|k: int|
            0 <= k < segments_before(points, from, to, limit, i) ==> lies_on_path(
                points,
                from,
                to,
                limit,
                #[trigger] path_segments(points, from, to, limit, i)[k],
            ),
    decreases i,
{
    if i > 0 {
        lemma_segments_lie_on_path(points, from, to, limit, i - 1);
        let before = path_segments(points, from, to, limit, i - 1);
        let edge = edge_segments(points, from, to, limit, i);
        let s = path_segments(points, from, to, limit, i);
        lemma_distance_bounds(points[i - 1], points[i]);
        lemma_piece_count(distance(points[i - 1], points[i]), limit);
        assert(s == before + edge);
        assert forall|k: int| 0 <= k < s.len() implies lies_on_path(
            points,
            from,
            to,
            limit,
            #[trigger] s[k],
        ) by {
            if k < before.len() {
                assert(s[k] == before[k]);
            } else {
                let j = k - before.len();
                assert(s[k] == edge[j]);
                assert(s[k] == piece(
                    points[i - 1],
                    points[i],
                    vertex_offset(points, from, to, i - 1),
                    vertex_offset(points, from, to, i),
                    pieces(points[i - 1], points[i], limit),
                    j,
                ));
            }
        }
    }
}


/// The window of a piece of an edge does not end before it starts, and lies
/// within the window of the edge.
pub proof fn lemma_piece_window(a: PointZ, b: PointZ, from: int, to: int, n: int, j: int)
    requires
        0 <= j < n,
        0 <= from <= to <= MAX_OFFSET_NANOS,
    ensures
        ({
            let s = piece(a, b, from, to, n, j);
            &&& s.time_start.wf()
            &&& s.time_end.wf()
            &&& !s.time_end.before(s.time_start)
            &&& from <= s.time_start.offset_nanos() <= s.time_end.offset_nanos() <= to
        }),
{
    let s = piece(a, b, from, to, n, j);
    lemma_share(to - from, j, n);
    lemma_share(to - from, j + 1, n);
    lemma_at_offset_wf(offset_along(from, to, j, n));
    lemma_at_offset_wf(offset_along(from, to, j + 1, n));
    lemma_before_is_offset_order(s.time_end, s.time_start);
}

/// One of `n` equal parts of a quantity, cut by rounding down at both ends,
/// is not negative, and `n` times the part exceeds the quantity by less than
/// `n`.
proof fn lemma_part_of_share(u: int, j: int, n: int)
    requires
        0 <= u,
        0 <= j < n,
    ensures
        0 <= u * (j + 1) / n - u * j / n,
        n * (u * (j + 1) / n - u * j / n) <= u + n,
{
    lemma_share(u, j, n);
    vstd::arithmetic::div_mod::lemma_fundamental_div_mod(u * j, n);
    vstd::arithmetic::div_mod::lemma_fundamental_div_mod(u * (j + 1), n);
    vstd::arithmetic::div_mod::lemma_mod_bound(u * j, n);
    vstd::arithmetic::div_mod::lemma_mod_bound(u * (j + 1), n);
    let q0 = u * j / n;
    let q1 = u * (j + 1) / n;
    let r0 = (u * j) % n;
    let r1 = (u * (j + 1)) % n;
    assert(n * (q1 - q0) <= u + n) by (nonlinear_arith)
        requires
            u * j == n * q0 + r0,
            u * (j + 1) == n * q1 + r1,
            0 <= r0 < n,
            0 <= r1 < n,
    ;
}

/// The step of a piece along one axis: `n` times its size exceeds the size
/// of the edge's step by `n` at most.
proof fn lemma_piece_step(step: int, j: int, n: int)
    requires
        0 <= j < n,
    ensures
        ({
            let part = along(step, j + 1, n) - along(step, j, n);
            let size = if step >= 0 {
                step
            } else {
                -step
            };
            &&& -(size + n) <= n * part <= size + n
        }),
{
    let part = along(step, j + 1, n) - along(step, j, n);
    if step >= 0 {
        lemma_part_of_share(step, j, n);
        assert(0 <= n * part) by (nonlinear_arith)
            requires
                0 <= part,
                0 < n,
        ;
    } else {
        lemma_part_of_share(-step, j, n);
        let p = (-step) * (j + 1) / n - (-step) * j / n;
        assert(part == -p);
        assert(n * part == -(n * p) && 0 <= n * p) by (nonlinear_arith)
            requires
                part == -p,
                0 <= p,
                0 < n,
        ;
    }
}

/// Three steps, each stretched `n` times and off the edge's step by `n`
/// units of its axis at most, stay within `n` times the limit and the
/// tolerance.
proof fn lemma_stretched_length(
    n: int,
    limit: int,
    length: int,
    x: int,
    y: int,
    z: int,
    ex: int,
    ey: int,
    ez: int,
)
    requires
        0 < n,
        0 < limit,
        0 <= length <= n * limit,
        x * x + y * y + z * z <= length * length,
        -(abs(x) + n) <= n * ex <= abs(x) + n,
        -(abs(y) + n) <= n * ey <= abs(y) + n,
        -(abs(z) + n * UNITS_PER_MILLIMETER) <= n * ez <= abs(z) + n * UNITS_PER_MILLIMETER,
    ensures
        ex * ex + ey * ey + ez * ez <= (limit + LENGTH_TOLERANCE) * (limit + LENGTH_TOLERANCE),
{
    let bound = n * limit;
    let ax = abs(x);
    let ay = abs(y);
    let az = abs(z);
    assert(ax * ax == x * x && ay * ay == y * y && az * az == z * z) by (nonlinear_arith)
        requires
            ax == abs(x),
            ay == abs(y),
            az == abs(z),
    ;
    assert(0 <= x * x && 0 <= y * y && 0 <= z * z) by (nonlinear_arith);
    assert(ax <= length) by {
        if ax > length {
            lemma_square_monotone(length + 1, ax);
            assert((length + 1) * (length + 1) > length * length) by (nonlinear_arith)
                requires
                    0 <= length,
            ;
        }
    }
    assert(ay <= length) by {
        if ay > length {
            lemma_square_monotone(length + 1, ay);
            assert((length + 1) * (length + 1) > length * length) by (nonlinear_arith)
                requires
                    0 <= length,
            ;
        }
    }
    assert(az <= length) by {
        if az > length {
            lemma_square_monotone(length + 1, az);
            assert((length + 1) * (length + 1) > length * length) by (nonlinear_arith)
                requires
                    0 <= length,
            ;
        }
    }
    lemma_square_monotone(length, bound);
    lemma_square_within(n * ex, ax + n);
    lemma_square_within(n * ey, ay + n);
    lemma_square_within(n * ez, az + n * 10_000);
    let sx = (n * ex) * (n * ex);
    let sy = (n * ey) * (n * ey);
    let sz = (n * ez) * (n * ez);
    assert((ax + n) * (ax + n) == ax * ax + 2 * (n * ax) + n * n) by (nonlinear_arith);
    assert((ay + n) * (ay + n) == ay * ay + 2 * (n * ay) + n * n) by (nonlinear_arith);
    assert((az + n * 10_000) * (az + n * 10_000) == az * az + 20_000 * (n * az) + 100_000_000 * (n
        * n)) by (nonlinear_arith);
    assert(n * ax <= n * bound && n * ay <= n * bound && n * az <= n * bound) by (nonlinear_arith)
        requires
            0 < n,
            ax <= bound,
            ay <= bound,
            az <= bound,
    ;
    let nn = n * n;
    assert(n * bound == nn * limit && bound * bound == nn * (limit * limit) && 0 < nn)
        by (nonlinear_arith)
        requires
            bound == n * limit,
            nn == n * n,
            0 < n,
    ;
    assert(sx + sy + sz <= nn * (limit * limit) + 20_004 * (nn * limit) + 100_000_002 * nn);
    let e = ex * ex + ey * ey + ez * ez;
    lemma_square_of_product(n, ex);
    lemma_square_of_product(n, ey);
    lemma_square_of_product(n, ez);
    assert(nn * e == nn * (ex * ex) + nn * (ey * ey) + nn * (ez * ez)) by (nonlinear_arith)
        requires
            e == ex * ex + ey * ey + ez * ez,
    ;
    let cap = (limit + 10_002) * (limit + 10_002);
    assert(nn * (limit * limit) + 20_004 * (nn * limit) + 100_000_002 * nn <= nn * cap)
        by (nonlinear_arith)
        requires
            cap == (limit + 10_002) * (limit + 10_002),
            0 <= nn,
    ;
    assert(e <= cap) by (nonlinear_arith)
        requires
            nn * e <= nn * cap,
            0 < nn,
    ;
}

/// The square of a product is the product of the squares.
proof fn lemma_square_of_product(a: int, b: int)
    ensures
        (a * b) * (a * b) == (a * a) * (b * b),
{
    assert((a * b) * (a * b) == (a * a) * (b * b)) by (nonlinear_arith);
}

/// A number between a bound and its opposite has a square within the
/// bound's.
proof fn lemma_square_within(v: int, bound: int)
    requires
        -bound <= v <= bound,
    ensures
        v * v <= bound * bound,
{
    assert(v * v <= bound * bound) by (nonlinear_arith)
        requires
            -bound <= v <= bound,
    ;
}

/// The size of a number.
pub open spec fn abs(v: int) -> int {
    if v >= 0 {
        v
    } else {
        -v
    }
}

/// No piece of an edge is longer than the limit and the tolerance.
pub proof fn lemma_piece_length(a: PointZ, b: PointZ, limit: int, j: int)
    requires
        0 < limit,
        0 <= j < pieces(a, b, limit),
    ensures
        ({
            let n = pieces(a, b, limit);
            distance_squared(point_along(a, b, j, n), point_along(a, b, j + 1, n)) <= (limit
                + LENGTH_TOLERANCE) * (limit + LENGTH_TOLERANCE)
        }),
{
    let n = pieces(a, b, limit);
    let p = point_along(a, b, j, n);
    let q = point_along(a, b, j + 1, n);
    let length = distance(a, b);
    lemma_distance_bounds(a, b);
    lemma_distance_squared_bounds(a, b);
    lemma_piece_count(length, limit);
    lemma_along_between(b.x - a.x, j, n);
    lemma_along_between(b.x - a.x, j + 1, n);
    lemma_along_between(b.y - a.y, j, n);
    lemma_along_between(b.y - a.y, j + 1, n);
    lemma_along_between(b.z - a.z, j, n);
    lemma_along_between(b.z - a.z, j + 1, n);
    lemma_piece_step(b.x - a.x, j, n);
    lemma_piece_step(b.y - a.y, j, n);
    lemma_piece_step(b.z - a.z, j, n);
    let ex = q.x - p.x;
    let ey = q.y - p.y;
    let ez = (q.z - p.z) * 10_000;
    let part_z = q.z - p.z;
    assert(ex == along(b.x - a.x, j + 1, n) - along(b.x - a.x, j, n));
    assert(ey == along(b.y - a.y, j + 1, n) - along(b.y - a.y, j, n));
    assert(part_z == along(b.z - a.z, j + 1, n) - along(b.z - a.z, j, n));
    assert(n * ez == 10_000 * (n * part_z)) by (nonlinear_arith)
        requires
            ez == part_z * 10_000,
    ;
    lemma_stretched_length(
        n,
        limit,
        length,
        b.x - a.x,
        b.y - a.y,
        (b.z - a.z) * 10_000,
        ex,
        ey,
        ez,
    );
}


/// The segments of a flight that can be cut follow its path from the first
/// point to the last without a gap, and their windows tile the time from the
/// flight's start to its end: the first opens at the start, each opens when
/// the one before it closes, none closes before it opens, and the last closes
/// at the end.
pub proof fn lemma_segments_tile_flight(
    points: Seq<PointZ>,
    start: UtcTime,
    end: UtcTime,
    meters: u32,
)
    requires
        start.wf(),
        end.wf(),
        segmentize_error(points, start, end, meters) is None,
    ensures
        ({
            let s = segments_of(points, start, end, meters);
            &&& s.len() >= 1
            &&& s[0].geom.start == points[0]
            &&& s[s.len() - 1].geom.end == points[points.len() - 1]
            &&& s[0].time_start == start
            &&& s[s.len() - 1].time_end == end
            &&& contiguous(s)
            &&& forall|k: int|
                0 <= k < s.len() ==> {
                    &&& (#[trigger] s[k]).time_start.wf()
                    &&& s[k].time_end.wf()
                    &&& !s[k].time_end.before(s[k].time_start)
                }
        }),
{
    let from = start.offset_nanos();
    let to = end.offset_nanos();
    let limit = limit_units(meters);
    let last = points.len() - 1;
    let s = segments_of(points, start, end, meters);
    lemma_before_is_offset_order(end, start);
    lemma_at_offset_inverts(start);
    lemma_at_offset_inverts(end);
    lemma_path_length_monotone(points, 0, last);
    lemma_path_segments_chain(points, from, to, limit, last);
    assert(vertex_offset(points, from, to, last) == to) by {
        vstd::arithmetic::div_mod::lemma_div_multiples_vanish(to - from, total_length(points));
        assert((to - from) * total_length(points) == total_length(points) * (to - from))
            by (nonlinear_arith);
    }
    lemma_segments_lie_on_path(points, from, to, limit, last);
    assert forall|k: int| 0 <= k < s.len() implies {
        &&& (#[trigger] s[k]).time_start.wf()
        &&& s[k].time_end.wf()
        &&& !s[k].time_end.before(s[k].time_start)
    } by {
        assert(lies_on_path(points, from, to, limit, s[k]));
        let (i, j) = choose|i: int, j: int|
            1 <= i < points.len() && 0 <= j < pieces(points[i - 1], points[i], limit) && s[k]
                == #[trigger] piece(
                points[i - 1],
                points[i],
                vertex_offset(points, from, to, i - 1),
                vertex_offset(points, from, to, i),
                pieces(points[i - 1], points[i], limit),
                j,
            );
        lemma_vertex_offsets(points, from, to, i);
        lemma_piece_window(
            points[i - 1],
            points[i],
            vertex_offset(points, from, to, i - 1),
            vertex_offset(points, from, to, i),
            pieces(points[i - 1], points[i], limit),
            j,
        );
    }
}

/// A vertex of a flight that can be cut is a point of the chain that its
/// segments form, reached at the instant of that vertex.
proof fn lemma_vertex_on_chain(
    points: Seq<PointZ>,
    start: UtcTime,
    end: UtcTime,
    meters: u32,
    i: int,
)
    requires
        start.wf(),
        end.wf(),
        segmentize_error(points, start, end, meters) is None,
        0 <= i < points.len(),
    ensures
        ({
            let s = segments_of(points, start, end, meters);
            let from = start.offset_nanos();
            let to = end.offset_nanos();
            let at_i = segments_before(points, from, to, limit_units(meters), i);
            &&& 0 <= at_i <= s.len()
            &&& chain_point(s, at_i) == points[i]
            &&& chain_instant(s, at_i) == UtcTime::at_offset(vertex_offset(points, from, to, i))
        }),
{
    let from = start.offset_nanos();
    let to = end.offset_nanos();
    let limit = limit_units(meters);
    let last = points.len() - 1;
    let s = segments_of(points, start, end, meters);
    let up_to_i = path_segments(points, from, to, limit, i);
    lemma_before_is_offset_order(end, start);
    lemma_path_length_monotone(points, 0, last);
    lemma_path_segments_chain(points, from, to, limit, last);
    lemma_path_segments_chain(points, from, to, limit, i);
    lemma_path_segments_prefix(points, from, to, limit, i, last);
    if up_to_i.len() > 0 {
        lemma_path_length_monotone(points, 0, i);
        assert(s[up_to_i.len() - 1] == up_to_i[up_to_i.len() - 1]);
    } else {
        lemma_path_length_monotone(points, 0, i);
        lemma_share(to - from, 0, total_length(points));
    }
}

/// Every vertex of a flight that can be cut is a point of the chain that its
/// segments form, reached at the instant of that vertex, and the vertices
/// stand along the chain in their own order.
pub proof fn lemma_vertices_kept(
    points: Seq<PointZ>,
    start: UtcTime,
    end: UtcTime,
    meters: u32,
    i: int,
    j: int,
)
    requires
        start.wf(),
        end.wf(),
        segmentize_error(points, start, end, meters) is None,
        0 <= i <= j < points.len(),
    ensures
        ({
            let s = segments_of(points, start, end, meters);
            let from = start.offset_nanos();
            let to = end.offset_nanos();
            let at_i = segments_before(points, from, to, limit_units(meters), i);
            let at_j = segments_before(points, from, to, limit_units(meters), j);
            &&& 0 <= at_i <= at_j <= s.len()
            &&& chain_point(s, at_i) == points[i]
            &&& chain_point(s, at_j) == points[j]
            &&& chain_instant(s, at_i) == UtcTime::at_offset(vertex_offset(points, from, to, i))
            &&& chain_instant(s, at_j) == UtcTime::at_offset(vertex_offset(points, from, to, j))
        }),
{
    lemma_vertex_on_chain(points, start, end, meters, i);
    lemma_vertex_on_chain(points, start, end, meters, j);
    lemma_path_segments_prefix(
        points,
        start.offset_nanos(),
        end.offset_nanos(),
        limit_units(meters),
        i,
        j,
    );
}

/// Every segment of a flight that can be cut is a piece of one edge of its
/// path: both its ends lie on that edge.
pub proof fn lemma_segments_on_path(points: Seq<PointZ>, start: UtcTime, end: UtcTime, meters: u32)
    requires
        segmentize_error(points, start, end, meters) is None,
    ensures
        forall|k: int|
            0 <= k < segments_of(points, start, end, meters).len() ==> lies_on_path(
                points,
                start.offset_nanos(),
                end.offset_nanos(),
                limit_units(meters),
                #[trigger] segments_of(points, start, end, meters)[k],
            ),
{
    lemma_segments_lie_on_path(
        points,
        start.offset_nanos(),
        end.offset_nanos(),
        limit_units(meters),
        points.len() - 1,
    );
}

/// No segment of a flight that can be cut is longer than the limit and the
/// tolerance.
pub proof fn lemma_segment_lengths_bounded(
    points: Seq<PointZ>,
    start: UtcTime,
    end: UtcTime,
    meters: u32,
)
    requires
        segmentize_error(points, start, end, meters) is None,
    ensures
        forall|k: int|
            0 <= k < segments_of(points, start, end, meters).len() ==> distance_squared(
                (#[trigger] segments_of(points, start, end, meters)[k]).geom.start,
                segments_of(points, start, end, meters)[k].geom.end,
            ) <= (limit_units(meters) + LENGTH_TOLERANCE) * (limit_units(meters)
                + LENGTH_TOLERANCE),
{
    let from = start.offset_nanos();
    let to = end.offset_nanos();
    let limit = limit_units(meters);
    let s = segments_of(points, start, end, meters);
    lemma_segments_on_path(points, start, end, meters);
    assert forall|k: int| 0 <= k < s.len() implies distance_squared(
        (#[trigger] s[k]).geom.start,
        s[k].geom.end,
    ) <= (limit + LENGTH_TOLERANCE) * (limit + LENGTH_TOLERANCE) by {
        assert(lies_on_path(points, from, to, limit, s[k]));
        let (i, j) = choose|i: int, j: int|
            1 <= i < points.len() && 0 <= j < pieces(points[i - 1], points[i], limit) && s[k]
                == #[trigger] piece(
                points[i - 1],
                points[i],
                vertex_offset(points, from, to, i - 1),
                vertex_offset(points, from, to, i),
                pieces(points[i - 1], points[i], limit),
                j,
            );
        lemma_piece_length(points[i - 1], points[i], limit, j);
    }
}


/// The nanoseconds that the first `n` of `segments` last, taken together.
pub open spec fn duration_sum(segments: Seq<Segment>, n: int) -> int
    decreases n,
{
    if n <= 0 {
        0
    } else {
        duration_sum(segments, n - 1) + segments[n - 1].time_end.offset_nanos() - segments[n
            - 1].time_start.offset_nanos()
    }
}

/// Segments that follow each other without a gap last, taken together, from
/// the start of the first to the end of the last.
proof fn lemma_duration_of_chain(segments: Seq<Segment>, n: int)
    requires
        contiguous(segments),
        1 <= n <= segments.len(),
    ensures
        duration_sum(segments, n) == segments[n - 1].time_end.offset_nanos()
            - segments[0].time_start.offset_nanos(),
    decreases n,
{
    if n > 1 {
        lemma_duration_of_chain(segments, n - 1);
        assert(segments[n - 2].time_end == segments[n - 1].time_start);
    } else {
        assert(duration_sum(segments, 0) == 0);
    }
}

/// The segments of a flight that can be cut last, taken together, as long as
/// the flight.
pub proof fn lemma_durations_add_up(points: Seq<PointZ>, start: UtcTime, end: UtcTime, meters: u32)
    requires
        start.wf(),
        end.wf(),
        segmentize_error(points, start, end, meters) is None,
    ensures
        duration_sum(
            segments_of(points, start, end, meters),
            segments_of(points, start, end, meters).len() as int,
        ) == end.offset_nanos() - start.offset_nanos(),
{
    let s = segments_of(points, start, end, meters);
    lemma_segments_tile_flight(points, start, end, meters);
    lemma_duration_of_chain(s, s.len() as int);
}

} // verus!

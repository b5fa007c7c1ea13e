//! Self-intersection of arclines.
//!
//! A spatial index (built by the caller) proposes, for each arc `i`, the
//! arcs whose bounding boxes meet its own; the intersection test of two arcs
//! is metric and also the caller's.  Which pairs are tested, in which order,
//! and what is recorded of each answer is decided here.
use vstd::prelude::*;
use crate::intersection::ArcArcConfig;
use crate::point::Point;

verus! {

/// A self-intersection: the indices of the two arcs and the point.
pub type Crossing = (usize, usize, Point);

/// Result of a self-intersection search.
#[derive(Debug)]
pub enum SelfIntersectionStatus {
    /// No self-intersections found.
    Clean,
    /// Self-intersections found: `(arc_i, arc_j, point)` for each.
    HasIntersections(Vec<Crossing>),
}

/// The status for a list of self-intersections: clean when the list is
/// empty.
pub fn self_intersection_status(intersections: Vec<Crossing>) -> (res: SelfIntersectionStatus)
    ensures
        intersections@.len() == 0 ==> res is Clean,
        intersections@.len() > 0 ==> (res matches SelfIntersectionStatus::HasIntersections(v)
            && v@ == intersections@),
{
    if intersections.len() == 0 {
        SelfIntersectionStatus::Clean
    } else {
        SelfIntersectionStatus::HasIntersections(intersections)
    }
}

/// The crossing points that an arc-arc configuration contributes: the point
/// or the two points where two arcs not on the same circle cross (not only
/// touch); nothing otherwise.
pub open spec fn crossing_points(i: usize, j: usize, config: ArcArcConfig) -> Seq<Crossing> {
    match config {
        ArcArcConfig::NonCocircularOnePoint(p) => seq![(i, j, p)],
        ArcArcConfig::NonCocircularTwoPoints(p0, p1) => seq![(i, j, p0), (i, j, p1)],
        _ => Seq::empty(),
    }
}

/// Appends to `intersections` the crossings of arcs `i` and `j` that
/// `config` describes.
pub fn record_crossings(intersections: &mut Vec<Crossing>, i: usize, j: usize, config: &ArcArcConfig)
    ensures
        final(intersections)@ == old(intersections)@ + crossing_points(i, j, *config),
{
    match config {
        ArcArcConfig::NonCocircularOnePoint(p) => {
            intersections.push((i, j, *p));
        },
        ArcArcConfig::NonCocircularTwoPoints(p0, p1) => {
            intersections.push((i, j, *p0));
            intersections.push((i, j, *p1));
        },
        _ => {},
    }
    assert(final(intersections)@ =~= old(intersections)@ + crossing_points(i, j, *config));
}

/// The function answers the same for the same arguments.
pub open spec fn answers_deterministically<F: Fn(usize, usize) -> ArcArcConfig>(intersect: F) -> bool {
    forall|i: usize, j: usize, c1: ArcArcConfig, c2: ArcArcConfig|
        #[trigger] intersect.ensures((i, j), c1) && #[trigger] intersect.ensures((i, j), c2) ==> c1
            == c2
}

/// The configuration that `intersect` answers for arcs `i` and `j`.
pub open spec fn config_of<F: Fn(usize, usize) -> ArcArcConfig>(intersect: F, i: usize, j: usize) -> ArcArcConfig {
    choose|c: ArcArcConfig| intersect.ensures((i, j), c)
}

/// The crossings found for arc `i` against the first `k` of its
/// candidates, skipping the candidates that are not after `i`.
pub open spec fn crossings_of_candidates<F: Fn(usize, usize) -> ArcArcConfig>(
    intersect: F,
    i: usize,
    candidates: Seq<usize>,
    k: int,
) -> Seq<Crossing>
    decreases k,
{
    if k <= 0 {
        Seq::empty()
    } else {
        let before = crossings_of_candidates(intersect, i, candidates, k - 1);
        let j = candidates[k - 1];
        if j <= i {
            before
        } else {
            before + crossing_points(i, j, config_of(intersect, i, j))
        }
    }
}

/// The crossings found for the first `k` arcs against their candidates.
pub open spec fn crossings_of_arcs<F: Fn(usize, usize) -> ArcArcConfig>(
    intersect: F,
    candidates: Seq<Vec<usize>>,
    k: int,
) -> Seq<Crossing>
    decreases k,
{
    if k <= 0 {
        Seq::empty()
    } else {
        crossings_of_arcs(intersect, candidates, k - 1) + crossings_of_candidates(
            intersect,
            (k - 1) as usize,
            candidates[k - 1]@,
            candidates[k - 1]@.len() as int,
        )
    }
}

/// All self-intersections of an arcline of `n` arcs, where `candidates[i]`
/// lists the arcs whose bounds meet those of arc `i` and `intersect(i, j)`
/// computes how arcs `i` and `j` meet.  For each arc `i` in order, each of
/// its candidates `j > i` in the order given contributes its crossing
/// points (see `crossing_points`); then the last and the first arc are
/// tested as the closing pair, unless the scan already tested them (the
/// last arc is a candidate of the first).  Fewer than 2 arcs have none.
pub open spec fn spec_self_intersections<F: Fn(usize, usize) -> ArcArcConfig>(
    intersect: F,
    candidates: Seq<Vec<usize>>,
) -> Seq<Crossing> {
    let n = candidates.len();
    if n < 2 {
        Seq::empty()
    } else if candidates[0]@.contains((n - 1) as usize) {
        crossings_of_arcs(intersect, candidates, n as int)
    } else {
        crossings_of_arcs(intersect, candidates, n as int) + crossing_points(
            (n - 1) as usize,
            0,
            config_of(intersect, (n - 1) as usize, 0),
        )
    }
}

/// What one of two sequences holds, the two joined hold.
proof fn lemma_joined_keeps(s: Seq<Crossing>, t: Seq<Crossing>, x: Crossing)
    ensures
        s.contains(x) ==> (s + t).contains(x),
        t.contains(x) ==> (s + t).contains(x),
{
    if s.contains(x) {
        let m = choose|m: int| 0 <= m < s.len() && s[m] == x;
        assert((s + t)[m] == x);
    }
    if t.contains(x) {
        let m = choose|m: int| 0 <= m < t.len() && t[m] == x;
        assert((s + t)[s.len() + m] == x);
    }
}

/// Scanning more of arc `i`'s candidates keeps the crossings found for an
/// earlier candidate after `i`.
proof fn lemma_candidates_keep<F: Fn(usize, usize) -> ArcArcConfig>(
    intersect: F,
    i: usize,
    cands: Seq<usize>,
    k: int,
    k2: int,
    x: Crossing,
)
    requires
        0 <= k2 < k <= cands.len(),
        cands[k2] > i,
        crossing_points(i, cands[k2], config_of(intersect, i, cands[k2])).contains(x),
    ensures
        crossings_of_candidates(intersect, i, cands, k).contains(x),
    decreases k,
{
    let before = crossings_of_candidates(intersect, i, cands, k - 1);
    let j = cands[k - 1];
    if k2 < k - 1 {
        lemma_candidates_keep(intersect, i, cands, k - 1, k2, x);
    }
    lemma_joined_keeps(before, crossing_points(i, j, config_of(intersect, i, j)), x);
}

/// Scanning more arcs keeps the crossings found for an earlier arc.
proof fn lemma_arcs_keep<F: Fn(usize, usize) -> ArcArcConfig>(
    intersect: F,
    candidates: Seq<Vec<usize>>,
    m: int,
    i: int,
    x: Crossing,
)
    requires
        0 <= i < m <= candidates.len(),
        crossings_of_candidates(intersect, i as usize, candidates[i]@, candidates[i]@.len() as int)
            .contains(x),
    ensures
        crossings_of_arcs(intersect, candidates, m).contains(x),
    decreases m,
{
    let prev = crossings_of_arcs(intersect, candidates, m - 1);
    let last = crossings_of_candidates(
        intersect,
        (m - 1) as usize,
        candidates[m - 1]@,
        candidates[m - 1]@.len() as int,
    );
    if i < m - 1 {
        lemma_arcs_keep(intersect, candidates, m - 1, i, x);
    }
    lemma_joined_keeps(prev, last, x);
}

/// Every crossing of every tested pair is found: for an arc `i` of at least
/// two and each of its candidates `j > i`, the point, or both points, where
/// `intersect(i, j)` answers that the arcs cross are in the result as
/// `(i, j, point)`, whatever the other pairs of arc `i` contribute.
pub proof fn lemma_every_crossing_is_found<F: Fn(usize, usize) -> ArcArcConfig>(
    intersect: F,
    candidates: Seq<Vec<usize>>,
    i: int,
    k: int,
    c: ArcArcConfig,
)
    requires
        answers_deterministically(intersect),
        candidates.len() >= 2,
        0 <= i < candidates.len(),
        0 <= k < candidates[i]@.len(),
        candidates[i]@[k] > i,
        intersect.ensures((i as usize, candidates[i]@[k]), c),
    ensures
        ({
            let res = spec_self_intersections(intersect, candidates);
            let j = candidates[i]@[k];
            &&& c matches ArcArcConfig::NonCocircularOnePoint(p) ==> res.contains((i as usize, j, p))
            &&& c matches ArcArcConfig::NonCocircularTwoPoints(p0, p1) ==> res.contains(
                (i as usize, j, p0),
            ) && res.contains((i as usize, j, p1))
        }),
{
    let n = candidates.len();
    let iu = i as usize;
    let cands = candidates[i]@;
    let j = cands[k];
    let chosen = config_of(intersect, iu, j);
    assert(intersect.ensures((iu, j), chosen));
    assert(chosen == c);
    let scan = crossings_of_arcs(intersect, candidates, n as int);
    let closing = crossing_points((n - 1) as usize, 0, config_of(intersect, (n - 1) as usize, 0));
    let pts = crossing_points(iu, j, c);
    assert forall|x: Crossing| pts.contains(x) implies spec_self_intersections(intersect, candidates).contains(x) by {
        lemma_candidates_keep(intersect, iu, cands, cands.len() as int, k, x);
        lemma_arcs_keep(intersect, candidates, n as int, i, x);
        lemma_joined_keeps(scan, closing, x);
    }
    match c {
        ArcArcConfig::NonCocircularOnePoint(p) => {
            assert(pts[0] == (iu, j, p));
            assert(pts.contains((iu, j, p)));
        },
        ArcArcConfig::NonCocircularTwoPoints(p0, p1) => {
            assert(pts[0] == (iu, j, p0));
            assert(pts[1] == (iu, j, p1));
            assert(pts.contains((iu, j, p0)));
            assert(pts.contains((iu, j, p1)));
        },
        _ => {},
    }
}

/// What the two sequences joined hold, one of them holds.
proof fn lemma_joined_splits(s: Seq<Crossing>, t: Seq<Crossing>, x: Crossing)
    ensures
        (s + t).contains(x) ==> s.contains(x) || t.contains(x),
{
    if (s + t).contains(x) {
        let m = choose|m: int| 0 <= m < (s + t).len() && (s + t)[m] == x;
        if m < s.len() {
            assert(s[m] == x);
        } else {
            assert(t[m - s.len()] == x);
        }
    }
}

/// `x` records a point where `config`, the answer for arcs `i` and `j`,
/// has the two arcs cross (not only touch).
pub open spec fn crosses_at(x: Crossing, i: usize, j: usize, config: ArcArcConfig) -> bool {
    &&& x.0 == i
    &&& x.1 == j
    &&& config == ArcArcConfig::NonCocircularOnePoint(x.2) || (config matches ArcArcConfig::NonCocircularTwoPoints(
        p0,
        p1,
    ) && (x.2 == p0 || x.2 == p1))
}

/// Each point that a configuration contributes is a crossing of that pair.
proof fn lemma_crossing_points_cross(i: usize, j: usize, config: ArcArcConfig, x: Crossing)
    requires
        crossing_points(i, j, config).contains(x),
    ensures
        crosses_at(x, i, j, config),
{
    let pts = crossing_points(i, j, config);
    let m = choose|m: int| 0 <= m < pts.len() && pts[m] == x;
    match config {
        ArcArcConfig::NonCocircularOnePoint(p) => {
            assert(pts[m] == (i, j, p));
        },
        ArcArcConfig::NonCocircularTwoPoints(p0, p1) => {
            assert(pts[m] == (i, j, p0) || pts[m] == (i, j, p1));
        },
        _ => {
            assert(pts.len() == 0);
        },
    }
}

/// Each crossing found for arc `i` among its first `k` candidates comes
/// from one of them that is after `i`.
proof fn lemma_candidates_sound<F: Fn(usize, usize) -> ArcArcConfig>(
    intersect: F,
    i: usize,
    cands: Seq<usize>,
    k: int,
    x: Crossing,
)
    requires
        0 <= k <= cands.len(),
        crossings_of_candidates(intersect, i, cands, k).contains(x),
    ensures
        exists|k2: int|
            0 <= k2 < k && cands[k2] > i && #[trigger] crosses_at(
                x,
                i,
                cands[k2],
                config_of(intersect, i, cands[k2]),
            ),
    decreases k,
{
    if k <= 0 {
        assert(crossings_of_candidates(intersect, i, cands, k).len() == 0);
        assert(false);
    } else {
        let before = crossings_of_candidates(intersect, i, cands, k - 1);
        let j = cands[k - 1];
        let pts = crossing_points(i, j, config_of(intersect, i, j));
        if j <= i {
            lemma_candidates_sound(intersect, i, cands, k - 1, x);
        } else {
            lemma_joined_splits(before, pts, x);
            if before.contains(x) {
                lemma_candidates_sound(intersect, i, cands, k - 1, x);
            } else {
                lemma_crossing_points_cross(i, j, config_of(intersect, i, j), x);
                assert(crosses_at(x, i, cands[k - 1], config_of(intersect, i, cands[k - 1])));
            }
        }
    }
}

/// Each crossing found for the first `m` arcs comes from one of them and
/// one of its candidates after it.
proof fn lemma_arcs_sound<F: Fn(usize, usize) -> ArcArcConfig>(
    intersect: F,
    candidates: Seq<Vec<usize>>,
    m: int,
    x: Crossing,
)
    requires
        0 <= m <= candidates.len() <= usize::MAX,
        crossings_of_arcs(intersect, candidates, m).contains(x),
    ensures
        exists|i: int, k2: int|
            0 <= i < m && 0 <= k2 < candidates[i]@.len() && candidates[i]@[k2] > i
                && #[trigger] crosses_at(
                x,
                i as usize,
                candidates[i]@[k2],
                config_of(intersect, i as usize, candidates[i]@[k2]),
            ),
    decreases m,
{
    if m <= 0 {
        assert(crossings_of_arcs(intersect, candidates, m).len() == 0);
        assert(false);
    } else {
        let prev = crossings_of_arcs(intersect, candidates, m - 1);
        let cands = candidates[m - 1]@;
        let last = crossings_of_candidates(intersect, (m - 1) as usize, cands, cands.len() as int);
        lemma_joined_splits(prev, last, x);
        if prev.contains(x) {
            lemma_arcs_sound(intersect, candidates, m - 1, x);
        } else {
            lemma_candidates_sound(intersect, (m - 1) as usize, cands, cands.len() as int, x);
            let k2 = choose|k2: int|
                0 <= k2 < cands.len() && cands[k2] > (m - 1) as usize && #[trigger] crosses_at(
                    x,
                    (m - 1) as usize,
                    cands[k2],
                    config_of(intersect, (m - 1) as usize, cands[k2]),
                );
            let i = m - 1;
            assert(0 <= k2 < candidates[i]@.len());
            assert(candidates[i]@[k2] > i);
            assert(crosses_at(
                x,
                i as usize,
                candidates[i]@[k2],
                config_of(intersect, i as usize, candidates[i]@[k2]),
            ));
        }
    }
}

/// Nothing else is reported: each entry `(i, j, p)` of the result is a
/// point where `intersect(i, j)` has the arcs cross (not only touch), for an
/// arc `i` and one of its candidates `j > i`, or for the closing pair of the
/// last and the first arc when the last is not a candidate of the first.
pub proof fn lemma_only_crossings_are_found<F: Fn(usize, usize) -> ArcArcConfig>(
    intersect: F,
    candidates: Seq<Vec<usize>>,
    x: Crossing,
)
    requires
        candidates.len() <= usize::MAX,
        spec_self_intersections(intersect, candidates).contains(x),
    ensures
        ({
            let n = candidates.len();
            let c = config_of(intersect, x.0, x.1);
            &&& n >= 2
            &&& c == ArcArcConfig::NonCocircularOnePoint(x.2) || (c matches ArcArcConfig::NonCocircularTwoPoints(
                p0,
                p1,
            ) && (x.2 == p0 || x.2 == p1))
            &&& (x.0 < n && x.0 < x.1 && candidates[x.0 as int]@.contains(x.1)) || (x.0 == n - 1 && x.1
                == 0 && !candidates[0]@.contains((n - 1) as usize))
        }),
{
    let n = candidates.len();
    if n < 2 {
        assert(spec_self_intersections(intersect, candidates).len() == 0);
        assert(false);
    }
    let scan = crossings_of_arcs(intersect, candidates, n as int);
    let closing_config = config_of(intersect, (n - 1) as usize, 0);
    let closing = crossing_points((n - 1) as usize, 0, closing_config);
    let in_scan = scan.contains(x);
    if !candidates[0]@.contains((n - 1) as usize) {
        lemma_joined_splits(scan, closing, x);
    }
    if in_scan {
        lemma_arcs_sound(intersect, candidates, n as int, x);
        let (i, k2) = choose|i: int, k2: int|
            0 <= i < n && 0 <= k2 < candidates[i]@.len() && candidates[i]@[k2] > i
                && #[trigger] crosses_at(
                x,
                i as usize,
                candidates[i]@[k2],
                config_of(intersect, i as usize, candidates[i]@[k2]),
            );
        assert(candidates[i]@[k2] == x.1);
        assert(candidates[x.0 as int]@.contains(x.1));
    } else {
        lemma_crossing_points_cross((n - 1) as usize, 0, closing_config, x);
    }
}

/// Whether the list holds `x`.
fn lists(items: &Vec<usize>, x: usize) -> (res: bool)
    ensures
        res == items@.contains(x),
{
    let mut k: usize = 0;
    while k < items.len()
        invariant
            k <= items@.len(),
            forall|m: int| 0 <= m < k ==> items@[m] != x,
        decreases items@.len() - k,
    {
        if items[k] == x {
            return true;
        }
        k = k + 1;
    }
    false
}

/// Collects the self-intersections of an arcline (see the spec).
pub fn self_intersections<F: Fn(usize, usize) -> ArcArcConfig>(
    candidates: &Vec<Vec<usize>>,
    intersect: F,
) -> (res: Vec<Crossing>)
    requires
        forall|i: usize, j: usize| #[trigger] intersect.requires((i, j)),
        answers_deterministically(intersect),
    ensures
        res@ == spec_self_intersections(intersect, candidates@),
{
    let mut intersections: Vec<Crossing> = Vec::new();
    let n = candidates.len();
    if n < 2 {
        return intersections;
    }
    let mut i: usize = 0;
    while i < n
        invariant
            n == candidates@.len(),
            i <= n,
            forall|a: usize, b: usize| #[trigger] intersect.requires((a, b)),
            answers_deterministically(intersect),
            intersections@ == crossings_of_arcs(intersect, candidates@, i as int),
        decreases n - i,
    {
        let cands = &candidates[i];
        let m = cands.len();
        let mut k: usize = 0;
        while k < m
            invariant
                n == candidates@.len(),
                i < n,
                cands@ == candidates@[i as int]@,
                m == cands@.len(),
                k <= m,
                forall|a: usize, b: usize| #[trigger] intersect.requires((a, b)),
                answers_deterministically(intersect),
                intersections@ == crossings_of_arcs(intersect, candidates@, i as int)
                    + crossings_of_candidates(intersect, i, cands@, k as int),
            decreases m - k,
        {
            let j = cands[k];
            if j > i {
                let config = intersect(i, j);
                assert(config == config_of(intersect, i, j));
                record_crossings(&mut intersections, i, j, &config);
                assert(intersections@ =~= crossings_of_arcs(intersect, candidates@, i as int)
                    + crossings_of_candidates(intersect, i, cands@, k + 1));
            } else {
                assert(crossings_of_candidates(intersect, i, cands@, k + 1)
                    == crossings_of_candidates(intersect, i, cands@, k as int));
            }
            k = k + 1;
        }
        i = i + 1;
    }
    if lists(&candidates[0], n - 1) {
        return intersections;
    }
    let config = intersect(n - 1, 0);
    assert(config == config_of(intersect, (n - 1) as usize, 0));
    record_crossings(&mut intersections, n - 1, 0, &config);
    intersections
}

/// The function answers the same for the same arguments.
pub open spec fn decides_deterministically<F: Fn(usize, usize) -> bool>(really: F) -> bool {
    forall|i: usize, j: usize, r1: bool, r2: bool|
        #[trigger] really.ensures((i, j), r1) && #[trigger] really.ensures((i, j), r2) ==> r1 == r2
}

/// The pair `(i, candidates[i][k])` is one that the search tests: the
/// candidate comes after `i`.
pub open spec fn tested_pair(candidates: Seq<Vec<usize>>, i: int, k: int) -> bool {
    0 <= i < candidates.len() && 0 <= k < candidates[i]@.len() && candidates[i]@[k] > i
}

/// Whether an arcline of `n = candidates.len()` arcs intersects itself:
/// true as soon as `really(i, j)` holds for an arc `i` and one of its
/// candidates `j > i`; fewer than 2 arcs never do.
pub fn has_self_intersection<F: Fn(usize, usize) -> bool>(candidates: &Vec<Vec<usize>>, really: F) -> (res: bool)
    requires
        forall|i: usize, j: usize| #[trigger] really.requires((i, j)),
    ensures
        res ==> candidates@.len() >= 2 && exists|i: int, k: int|
            tested_pair(candidates@, i, k) && #[trigger] really.ensures(
                (i as usize, candidates@[i]@[k]),
                true,
            ),
        !res && candidates@.len() >= 2 ==> forall|i: int, k: int|
            tested_pair(candidates@, i, k) ==> #[trigger] really.ensures(
                (i as usize, candidates@[i]@[k]),
                false,
            ),
{
    let n = candidates.len();
    if n < 2 {
        return false;
    }
    let mut i: usize = 0;
    while i < n
        invariant
            n == candidates@.len(),
            n >= 2,
            i <= n,
            forall|a: usize, b: usize| #[trigger] really.requires((a, b)),
            forall|p: int, k: int|
                p < i && tested_pair(candidates@, p, k) ==> #[trigger] really.ensures(
                    (p as usize, candidates@[p]@[k]),
                    false,
                ),
        decreases n - i,
    {
        let cands = &candidates[i];
        let m = cands.len();
        let mut k: usize = 0;
        while k < m
            invariant
                n == candidates@.len(),
                n >= 2,
                i < n,
                cands@ == candidates@[i as int]@,
                m == cands@.len(),
                k <= m,
                forall|a: usize, b: usize| #[trigger] really.requires((a, b)),
                forall|p: int, q: int|
                    (p < i || (p == i && q < k)) && tested_pair(candidates@, p, q)
                        ==> #[trigger] really.ensures((p as usize, candidates@[p]@[q]), false),
            decreases m - k,
        {
            let j = cands[k];
            if j > i {
                let hit = really(i, j);
                if hit {
                    assert(tested_pair(candidates@, i as int, k as int));
                    assert(really.ensures(((i as int) as usize, candidates@[i as int]@[k as int]), true));
                    return true;
                }
            }
            k = k + 1;
        }
        i = i + 1;
    }
    false
}

} // verus!

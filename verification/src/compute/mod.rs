pub mod spacetime;

use crate::compute::spacetime::{temporal_gap, PointView, SpaceTimePoint, SpaceTimeRecord};
use vstd::prelude::*;

verus! {

/// How many pairs are reported at most.
pub const MAX_ENCOUNTERS: usize = 10;

/// A point of the first record as a partner for a point of the second: its
/// index in the first record, and how far it lies from that point in space
/// and time together. Distances are compared as whole numbers.
#[derive(Debug, Clone, Copy, PartialEq, Eq, Structural)]
pub struct Neighbour {
    pub index: usize,
    pub distance: u64,
}

/// A pair of points that lie close in space and time, one from each record.
#[derive(Debug, Clone, Copy, PartialEq, Eq)]
pub struct ChanceEncounter {
    /// The point of the first record.
    pub point1: SpaceTimePoint,
    /// The point of the second record.
    pub point2: SpaceTimePoint,
    /// The index of `point1` in the first record.
    pub index1: usize,
    /// The index of `point2` in the second record.
    pub index2: usize,
    /// The distance in space and time together by which the pair was ranked.
    pub distance: u64,
    /// The seconds between the intervals of the two points.
    pub distance_s: u64,
}

/// What a `ChanceEncounter` holds.
pub ghost struct EncounterView {
    pub point1: PointView,
    pub point2: PointView,
    pub index1: int,
    pub index2: int,
    pub distance: int,
    pub distance_s: int,
}

impl View for ChanceEncounter {
    type V = EncounterView;

    open spec fn view(&self) -> EncounterView {
        EncounterView {
            point1: self.point1@,
            point2: self.point2@,
            index1: self.index1 as int,
            index2: self.index2 as int,
            distance: self.distance as int,
            distance_s: self.distance_s as int,
        }
    }
}

/// The views of `encounters`, in their order.
pub open spec fn encounter_views(encounters: Seq<ChanceEncounter>) -> Seq<EncounterView> {
    encounters.map_values(|e: ChanceEncounter| e@)
}

/// The neighbours of every point of the second record, as sequences.
pub open spec fn stream_views(streams: Seq<Vec<Neighbour>>) -> Seq<Seq<Neighbour>> {
    streams.map_values(|s: Vec<Neighbour>| s@)
}

/// Whether `streams[b][i]` names a pair of points that exist: `b` is a point
/// of the second record with a list of neighbours, and the neighbour is a
/// point of the first record.
pub open spec fn candidate_at(
    streams: Seq<Seq<Neighbour>>,
    a_len: int,
    b_len: int,
    b: int,
    i: int,
) -> bool {
    0 <= b < streams.len() && b < b_len && 0 <= i < streams[b].len() && streams[b][i].index
        < a_len
}

/// Whether a pair of `chosen` holds the point `a` of the first record.
pub open spec fn taken_first(chosen: Seq<EncounterView>, a: int) -> bool {
    exists|k: int| 0 <= k < chosen.len() && (#[trigger] chosen[k]).index1 == a
}

/// Whether a pair of `chosen` holds the point `b` of the second record.
pub open spec fn taken_second(chosen: Seq<EncounterView>, b: int) -> bool {
    exists|k: int| 0 <= k < chosen.len() && (#[trigger] chosen[k]).index2 == b
}

/// Whether the pair that `streams[b][i]` names can still be chosen: it
/// exists, and neither of its points is in a pair of `chosen`.
pub open spec fn eligible_at(
    streams: Seq<Seq<Neighbour>>,
    a_len: int,
    b_len: int,
    chosen: Seq<EncounterView>,
    b: int,
    i: int,
) -> bool {
    candidate_at(streams, a_len, b_len, b, i) && !taken_first(chosen, streams[b][i].index as int)
        && !taken_second(chosen, b)
}

/// The order in which pairs are chosen: by distance, then by the index in
/// the second record, then by the index in the first.
pub open spec fn comes_first(d1: int, b1: int, a1: int, d2: int, b2: int, a2: int) -> bool {
    d1 < d2 || (d1 == d2 && (b1 < b2 || (b1 == b2 && a1 <= a2)))
}

/// Whether `pick` is the pair that is chosen after `chosen`: it can still
/// be chosen, and it comes first among all pairs that can.
pub open spec fn is_least(
    streams: Seq<Seq<Neighbour>>,
    a_len: int,
    b_len: int,
    chosen: Seq<EncounterView>,
    pick: EncounterView,
) -> bool {
    &&& exists|i: int| #[trigger]
        eligible_at(streams, a_len, b_len, chosen, pick.index2, i) && streams[pick.index2][i].index
            == pick.index1 && streams[pick.index2][i].distance == pick.distance
    &&& forall|b: int, i: int| #[trigger]
        eligible_at(streams, a_len, b_len, chosen, b, i) ==> comes_first(
            pick.distance,
            pick.index2,
            pick.index1,
            streams[b][i].distance as int,
            b,
            streams[b][i].index as int,
        )
}

/// Whether `picks` are the closest pairs in their order: each is the pair
/// that comes first among those that can be chosen after the ones before
/// it, and they stop at ten pairs or when no pair is left.
pub open spec fn is_selection(
    streams: Seq<Seq<Neighbour>>,
    a_len: int,
    b_len: int,
    picks: Seq<EncounterView>,
) -> bool {
    &&& picks.len() <= MAX_ENCOUNTERS
    &&& forall|k: int|
        0 <= k < picks.len() ==> is_least(streams, a_len, b_len, picks.take(k), #[trigger] picks[k])
    &&& picks.len() < MAX_ENCOUNTERS ==> forall|b: int, i: int|
        !#[trigger] eligible_at(streams, a_len, b_len, picks, b, i)
}

/// Whether `pick` holds the points that its indexes name in the two
/// records, and the seconds between their intervals.
pub open spec fn describes(a: Seq<PointView>, b: Seq<PointView>, pick: EncounterView) -> bool {
    &&& 0 <= pick.index1 < a.len()
    &&& 0 <= pick.index2 < b.len()
    &&& pick.point1 == a[pick.index1]
    &&& pick.point2 == b[pick.index2]
    &&& pick.distance_s == temporal_gap(
        pick.point1.start_seconds(),
        pick.point1.end_seconds(),
        pick.point2.start_seconds(),
        pick.point2.end_seconds(),
    )
}

/// A pair that can be chosen after some pairs could be chosen after fewer
/// of them.
pub proof fn lemma_eligible_after_fewer(
    streams: Seq<Seq<Neighbour>>,
    a_len: int,
    b_len: int,
    chosen: Seq<EncounterView>,
    k: int,
    b: int,
    i: int,
)
    requires
        0 <= k <= chosen.len(),
        eligible_at(streams, a_len, b_len, chosen, b, i),
    ensures
        eligible_at(streams, a_len, b_len, chosen.take(k), b, i),
{
    let fewer = chosen.take(k);
    let a = streams[b][i].index as int;
    if taken_first(fewer, a) {
        let j = choose|j: int| 0 <= j < fewer.len() && (#[trigger] fewer[j]).index1 == a;
        assert(chosen[j].index1 == a);
    }
    if taken_second(fewer, b) {
        let j = choose|j: int| 0 <= j < fewer.len() && (#[trigger] fewer[j]).index2 == b;
        assert(chosen[j].index2 == b);
    }
}

/// Of the closest pairs: there are ten at most, no point of either record
/// is in two of them, and their distances never decrease.
pub proof fn lemma_selection_is_ranked(
    streams: Seq<Seq<Neighbour>>,
    a_len: int,
    b_len: int,
    picks: Seq<EncounterView>,
    j: int,
    k: int,
)
    requires
        is_selection(streams, a_len, b_len, picks),
        0 <= j < k < picks.len(),
    ensures
        picks.len() <= 10,
        picks[j].index1 != picks[k].index1,
        picks[j].index2 != picks[k].index2,
        picks[j].distance <= picks[k].distance,
{
    let before_k = picks.take(k);
    assert(is_least(streams, a_len, b_len, before_k, picks[k]));
    let i = choose|i: int| #[trigger]
        eligible_at(streams, a_len, b_len, before_k, picks[k].index2, i)
            && streams[picks[k].index2][i].index == picks[k].index1
            && streams[picks[k].index2][i].distance == picks[k].distance;
    assert(before_k[j] == picks[j]);
    assert(!taken_first(before_k, picks[k].index1));
    assert(!taken_second(before_k, picks[k].index2));
    lemma_eligible_after_fewer(streams, a_len, b_len, before_k, j, picks[k].index2, i);
    assert(before_k.take(j) == picks.take(j));
    assert(is_least(streams, a_len, b_len, picks.take(j), picks[j]));
}

/// The closest pairs are determined by the records and the lists of
/// neighbours: two choices of them are the same.
pub proof fn lemma_selection_is_unique(
    streams: Seq<Seq<Neighbour>>,
    a: Seq<PointView>,
    b: Seq<PointView>,
    first: Seq<EncounterView>,
    second: Seq<EncounterView>,
)
    requires
        is_selection(streams, a.len() as int, b.len() as int, first),
        is_selection(streams, a.len() as int, b.len() as int, second),
        forall|k: int| 0 <= k < first.len() ==> describes(a, b, #[trigger] first[k]),
        forall|k: int| 0 <= k < second.len() ==> describes(a, b, #[trigger] second[k]),
    ensures
        first == second,
{
    lemma_selections_agree(streams, a, b, first, second, first.len() as int);
    lemma_selections_agree(streams, a, b, second, first, second.len() as int);
    assert(first.take(first.len() as int) == first);
    assert(second.take(second.len() as int) == second);
    if first.len() <= second.len() {
        lemma_selection_goes_on(streams, a, b, first, second);
    } else {
        lemma_selection_goes_on(streams, a, b, second, first);
    }
}

/// A choice that starts another one is the whole of it: a choice stops
/// only at ten pairs or when no pair is left.
proof fn lemma_selection_goes_on(
    streams: Seq<Seq<Neighbour>>,
    a: Seq<PointView>,
    b: Seq<PointView>,
    short: Seq<EncounterView>,
    long: Seq<EncounterView>,
)
    requires
        is_selection(streams, a.len() as int, b.len() as int, short),
        is_selection(streams, a.len() as int, b.len() as int, long),
        short.len() <= long.len(),
        long.take(short.len() as int) == short,
    ensures
        short.len() == long.len(),
{
    if short.len() < long.len() {
        let n = short.len() as int;
        let next = long[n];
        assert(is_least(streams, a.len() as int, b.len() as int, long.take(n), next));
        let i = choose|i: int| #[trigger]
            eligible_at(streams, a.len() as int, b.len() as int, long.take(n), next.index2, i)
                && streams[next.index2][i].index == next.index1
                && streams[next.index2][i].distance == next.distance;
        assert(eligible_at(streams, a.len() as int, b.len() as int, short, next.index2, i));
    }
}

/// Two choices agree on their first `k` pairs, as far as both go.
proof fn lemma_selections_agree(
    streams: Seq<Seq<Neighbour>>,
    a: Seq<PointView>,
    b: Seq<PointView>,
    first: Seq<EncounterView>,
    second: Seq<EncounterView>,
    k: int,
)
    requires
        is_selection(streams, a.len() as int, b.len() as int, first),
        is_selection(streams, a.len() as int, b.len() as int, second),
        forall|j: int| 0 <= j < first.len() ==> describes(a, b, #[trigger] first[j]),
        forall|j: int| 0 <= j < second.len() ==> describes(a, b, #[trigger] second[j]),
        0 <= k <= first.len(),
    ensures
        k <= second.len() ==> first.take(k) == second.take(k),
        k > second.len() ==> first.take(second.len() as int) == second,
    decreases k,
{
    if k == 0 {
        assert(first.take(0) == second.take(0));
    } else {
        lemma_selections_agree(streams, a, b, first, second, k - 1);
        if k <= second.len() {
            let before = first.take(k - 1);
            assert(before == second.take(k - 1));
            let p = first[k - 1];
            let q = second[k - 1];
            assert(is_least(streams, a.len() as int, b.len() as int, before, p));
            assert(is_least(streams, a.len() as int, b.len() as int, before, q));
            let i = choose|i: int| #[trigger]
                eligible_at(streams, a.len() as int, b.len() as int, before, p.index2, i)
                    && streams[p.index2][i].index == p.index1 && streams[p.index2][i].distance
                    == p.distance;
            let j = choose|j: int| #[trigger]
                eligible_at(streams, a.len() as int, b.len() as int, before, q.index2, j)
                    && streams[q.index2][j].index == q.index1 && streams[q.index2][j].distance
                    == q.distance;
            assert(comes_first(p.distance, p.index2, p.index1, q.distance, q.index2, q.index1));
            assert(comes_first(q.distance, q.index2, q.index1, p.distance, p.index2, p.index1));
            assert(describes(a, b, p));
            assert(describes(a, b, q));
            assert(p == q);
            assert(first.take(k) == before.push(p));
            assert(second.take(k) == before.push(q));
        } else if k - 1 <= second.len() {
            assert(first.take(k - 1) == second.take(k - 1));
            assert(second.take(second.len() as int) == second);
        }
    }
}

/// Whether one of `chosen` holds the point `a` of the first record.
fn first_is_taken(chosen: &Vec<ChanceEncounter>, a: usize) -> (taken: bool)
    ensures
        taken == taken_first(encounter_views(chosen@), a as int),
{
    let ghost views = encounter_views(chosen@);
    let mut k: usize = 0;
    while k < chosen.len()
        invariant
            k <= chosen.len(),
            views == encounter_views(chosen@),
            forall|j: int| 0 <= j < k ==> (#[trigger] views[j]).index1 != a,
        decreases chosen.len() - k,
    {
        if chosen[k].index1 == a {
            assert(views[k as int].index1 == a);
            return true;
        }
        k = k + 1;
    }
    false
}

/// Whether one of `chosen` holds the point `b` of the second record.
fn second_is_taken(chosen: &Vec<ChanceEncounter>, b: usize) -> (taken: bool)
    ensures
        taken == taken_second(encounter_views(chosen@), b as int),
{
    let ghost views = encounter_views(chosen@);
    let mut k: usize = 0;
    while k < chosen.len()
        invariant
            k <= chosen.len(),
            views == encounter_views(chosen@),
            forall|j: int| 0 <= j < k ==> (#[trigger] views[j]).index2 != b,
        decreases chosen.len() - k,
    {
        if chosen[k].index2 == b {
            assert(views[k as int].index2 == b);
            return true;
        }
        k = k + 1;
    }
    false
}

/// A pair found while searching: the place of its neighbour in the lists.
#[derive(Clone, Copy)]
struct Found {
    b: usize,
    i: usize,
    index: usize,
    distance: u64,
}

/// Whether `found` is a pair that can be chosen and that comes first among
/// those that can be chosen from the lists `streams[..b_done]` and from
/// `streams[b_done][..i_done]`.
spec fn leads_so_far(
    streams: Seq<Seq<Neighbour>>,
    a_len: int,
    b_len: int,
    chosen: Seq<EncounterView>,
    found: Option<Found>,
    b_done: int,
    i_done: int,
) -> bool {
    &&& found is Some ==> {
        let f = found->0;
        &&& eligible_at(streams, a_len, b_len, chosen, f.b as int, f.i as int)
        &&& streams[f.b as int][f.i as int].index == f.index
        &&& streams[f.b as int][f.i as int].distance == f.distance
        &&& f.b <= b_done
    }
    &&& forall|b: int, i: int|
        (b < b_done || (b == b_done && i < i_done)) && #[trigger] eligible_at(
            streams,
            a_len,
            b_len,
            chosen,
            b,
            i,
        ) ==> (found is Some && comes_first(
            found->0.distance as int,
            found->0.b as int,
            found->0.index as int,
            streams[b][i].distance as int,
            b,
            streams[b][i].index as int,
        ))
}

/// Searches the list of neighbours of the point `b` for a pair that comes
/// before `found`.
fn search_stream(
    streams: &Vec<Vec<Neighbour>>,
    a_len: usize,
    b_len: usize,
    chosen: &Vec<ChanceEncounter>,
    b: usize,
    found: Option<Found>,
) -> (best: Option<Found>)
    requires
        b < streams.len(),
        b < b_len,
        leads_so_far(
            stream_views(streams@),
            a_len as int,
            b_len as int,
            encounter_views(chosen@),
            found,
            b as int,
            0,
        ),
    ensures
        leads_so_far(
            stream_views(streams@),
            a_len as int,
            b_len as int,
            encounter_views(chosen@),
            best,
            b + 1,
            0,
        ),
{
    let ghost views = stream_views(streams@);
    let ghost picked = encounter_views(chosen@);
    let stream = &streams[b];
    assert(views[b as int] == stream@);
    let mut best = found;
    if second_is_taken(chosen, b) {
        return best;
    }
    let mut i: usize = 0;
    while i < stream.len()
        invariant
            i <= stream.len(),
            b < streams.len(),
            b < b_len,
            views == stream_views(streams@),
            picked == encounter_views(chosen@),
            views[b as int] == stream@,
            !taken_second(picked, b as int),
            leads_so_far(views, a_len as int, b_len as int, picked, best, b as int, i as int),
        decreases stream.len() - i,
    {
        let neighbour = stream[i];
        if neighbour.index < a_len && !first_is_taken(chosen, neighbour.index) {
            assert(eligible_at(views, a_len as int, b_len as int, picked, b as int, i as int));
            let better = match best {
                None => true,
                Some(f) => neighbour.distance < f.distance || (neighbour.distance == f.distance
                    && f.b == b && neighbour.index < f.index),
            };
            if better {
                best = Some(Found { b, i, index: neighbour.index, distance: neighbour.distance });
            }
        }
        i = i + 1;
    }
    best
}

/// Searches all lists of neighbours for the pair that is chosen next.
fn search_least(
    streams: &Vec<Vec<Neighbour>>,
    a_len: usize,
    b_len: usize,
    chosen: &Vec<ChanceEncounter>,
) -> (best: Option<Found>)
    ensures
        leads_so_far(
            stream_views(streams@),
            a_len as int,
            b_len as int,
            encounter_views(chosen@),
            best,
            streams.len() as int,
            0,
        ),
        best matches Some(f) ==> f.b < streams.len() && f.b < b_len && f.index < a_len,
{
    let mut best: Option<Found> = None;
    let mut b: usize = 0;
    while b < streams.len() && b < b_len
        invariant
            b <= streams.len(),
            leads_so_far(
                stream_views(streams@),
                a_len as int,
                b_len as int,
                encounter_views(chosen@),
                best,
                b as int,
                0,
            ),
        decreases streams.len() - b,
    {
        best = search_stream(streams, a_len, b_len, chosen, b, best);
        b = b + 1;
    }
    best
}

/// Chooses the closest pairs of points of two records, the closest first,
/// ten at most, no point in two pairs. `neighbours[b]` lists, for the point
/// `b` of `points2`, points of `points1` with their distances from it; a
/// list that names a point that is not there counts for nothing there.
///
/// Each pair is the closest among those whose two points are not yet in a
/// pair; of two that are equally close, the one with the smaller index in
/// `points2` is chosen, then the one with the smaller index in `points1`.
pub fn get_nearest_points(
    points1: &SpaceTimeRecord,
    points2: &SpaceTimeRecord,
    neighbours: &Vec<Vec<Neighbour>>,
) -> (encounters: Vec<ChanceEncounter>)
    ensures
        is_selection(
            stream_views(neighbours@),
            points1@.len() as int,
            points2@.len() as int,
            encounter_views(encounters@),
        ),
        forall|k: int|
            0 <= k < encounters.len() ==> describes(
                points1@,
                points2@,
                #[trigger] encounter_views(encounters@)[k],
            ),
        encounters.len() <= 10,
        points2@.len() == 0 ==> encounters.len() == 0,
        forall|j: int, k: int|
            0 <= j < k < encounters.len() ==> encounters[j].index1 != encounters[k].index1
                && encounters[j].index2 != encounters[k].index2 && encounters[j].distance
                <= encounters[k].distance,
{
    let a_len = points1.len();
    let b_len = points2.len();
    let ghost streams = stream_views(neighbours@);
    let mut encounters: Vec<ChanceEncounter> = Vec::new();
    let mut open = true;
    while open && encounters.len() < MAX_ENCOUNTERS
        invariant
            a_len == points1@.len(),
            b_len == points2@.len(),
            streams == stream_views(neighbours@),
            encounters.len() <= MAX_ENCOUNTERS,
            forall|k: int|
                0 <= k < encounters.len() ==> is_least(
                    streams,
                    a_len as int,
                    b_len as int,
                    encounter_views(encounters@).take(k),
                    #[trigger] encounter_views(encounters@)[k],
                ),
            forall|k: int|
                0 <= k < encounters.len() ==> describes(
                    points1@,
                    points2@,
                    #[trigger] encounter_views(encounters@)[k],
                ),
            !open ==> forall|b: int, i: int|
                !#[trigger] eligible_at(
                    streams,
                    a_len as int,
                    b_len as int,
                    encounter_views(encounters@),
                    b,
                    i,
                ),
        decreases (if open { 1int } else { 0int }) + MAX_ENCOUNTERS - encounters.len(),
    {
        let ghost before = encounter_views(encounters@);
        match search_least(neighbours, a_len, b_len, &encounters) {
            None => {
                open = false;
            },
            Some(found) => {
                let point1 = *points1.point(found.index);
                let point2 = *points2.point(found.b);
                let distance_s = point1.temporal_distance(
                    point2.start_seconds(),
                    point2.end_seconds(),
                );
                let encounter = ChanceEncounter {
                    point1,
                    point2,
                    index1: found.index,
                    index2: found.b,
                    distance: found.distance,
                    distance_s,
                };
                encounters.push(encounter);
                proof {
                    let after = encounter_views(encounters@);
                    let n = before.len() as int;
                    assert(after == before.push(encounter@));
                    assert(after.take(n) == before);
                    assert(eligible_at(
                        streams,
                        a_len as int,
                        b_len as int,
                        before,
                        found.b as int,
                        found.i as int,
                    ));
                    assert(after[n] == encounter@);
                    assert(streams[found.b as int][found.i as int].index == after[n].index1);
                    assert(streams[found.b as int][found.i as int].distance == after[n].distance);
                    assert forall|b: int, i: int| #[trigger]
                        eligible_at(streams, a_len as int, b_len as int, before, b, i) implies comes_first(
                        after[n].distance,
                        after[n].index2,
                        after[n].index1,
                        streams[b][i].distance as int,
                        b,
                        streams[b][i].index as int,
                    ) by {
                        assert(b < neighbours.len());
                    }
                    assert(is_least(streams, a_len as int, b_len as int, before, after[n]));
                    assert forall|k: int| 0 <= k < after.len() implies is_least(
                        streams,
                        a_len as int,
                        b_len as int,
                        after.take(k),
                        #[trigger] after[k],
                    ) by {
                        if k < n {
                            assert(after.take(k) == before.take(k));
                            assert(after[k] == before[k]);
                        }
                    }
                    assert forall|k: int| 0 <= k < after.len() implies describes(
                        points1@,
                        points2@,
                        #[trigger] after[k],
                    ) by {
                        if k < n {
                            assert(after[k] == before[k]);
                        }
                    }
                }
            },
        }
    }
    proof {
        let picks = encounter_views(encounters@);
        assert(is_selection(streams, a_len as int, b_len as int, picks));
        assert forall|j: int, k: int| 0 <= j < k < encounters.len() implies encounters[j].index1
            != encounters[k].index1 && encounters[j].index2 != encounters[k].index2
            && encounters[j].distance <= encounters[k].distance by {
            lemma_selection_is_ranked(streams, a_len as int, b_len as int, picks, j, k);
            assert(picks[j] == encounters[j]@);
            assert(picks[k] == encounters[k]@);
        }
        if points2@.len() == 0 && encounters.len() > 0 {
            assert(is_least(streams, a_len as int, b_len as int, picks.take(0), picks[0]));
        }
    }
    encounters
}

} // verus!

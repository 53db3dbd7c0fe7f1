use chance_encounter::compute::spacetime::{SpaceTimePoint, SpaceTimeRecord};
use chance_encounter::compute::{get_nearest_points, ChanceEncounter, Neighbour};

const SECOND: i128 = 1_000_000_000;

/// A record of `n` points, the point `k` lasting from `100 k` to `100 k + 10` seconds.
fn record(n: usize) -> SpaceTimeRecord {
    let points = (0..n)
        .map(|k| {
            let start = 100 * k as i128 * SECOND;
            SpaceTimePoint::new(k as i64, -(k as i64), start, start + 10 * SECOND).unwrap()
        })
        .collect();
    SpaceTimeRecord::from_points(points).unwrap()
}

fn list(pairs: &[(usize, u64)]) -> Vec<Neighbour> {
    pairs.iter().map(|&(index, distance)| Neighbour { index, distance }).collect()
}

fn triples(encounters: &[ChanceEncounter]) -> Vec<(usize, usize, u64)> {
    encounters.iter().map(|e| (e.index1, e.index2, e.distance)).collect()
}

#[test]
fn closest_pairs_come_first() {
    let a = record(3);
    let b = record(2);
    let neighbours = vec![list(&[(0, 5), (1, 7), (2, 9)]), list(&[(1, 2), (0, 3), (2, 30)])];
    let encounters = get_nearest_points(&a, &b, &neighbours);
    assert_eq!(triples(&encounters), vec![(1, 1, 2), (0, 0, 5)]);
}

#[test]
fn point_that_is_taken_gives_way_to_the_next_neighbour() {
    let a = record(3);
    let b = record(3);
    let neighbours = vec![
        list(&[(0, 1), (1, 10), (2, 20)]),
        list(&[(0, 2), (1, 3), (2, 40)]),
        list(&[(0, 4), (1, 5), (2, 6)]),
    ];
    let encounters = get_nearest_points(&a, &b, &neighbours);
    assert_eq!(triples(&encounters), vec![(0, 0, 1), (1, 1, 3), (2, 2, 6)]);
}

#[test]
fn equal_distances_go_by_the_indexes() {
    let a = record(3);
    let b = record(3);
    let neighbours = vec![list(&[(2, 7), (1, 7)]), list(&[(1, 7)]), list(&[(0, 7), (1, 7)])];
    let encounters = get_nearest_points(&a, &b, &neighbours);
    assert_eq!(triples(&encounters), vec![(1, 0, 7), (0, 2, 7)]);
}

#[test]
fn encounters_hold_their_points_and_the_seconds_between_them() {
    let a = record(4);
    let b = record(2);
    let neighbours = vec![list(&[(3, 8)]), list(&[(1, 4)])];
    let encounters = get_nearest_points(&a, &b, &neighbours);
    assert_eq!(triples(&encounters), vec![(1, 1, 4), (3, 0, 8)]);
    assert_eq!(encounters[0].point1, *a.point(1));
    assert_eq!(encounters[0].point2, *b.point(1));
    assert_eq!(encounters[0].distance_s, 0);
    assert_eq!(encounters[1].point1, *a.point(3));
    assert_eq!(encounters[1].point2, *b.point(0));
    assert_eq!(encounters[1].distance_s, 290);
}

#[test]
fn no_more_than_ten_pairs_are_chosen() {
    let a = record(30);
    let b = record(25);
    let neighbours: Vec<Vec<Neighbour>> = (0..25)
        .map(|j| (0..30).map(|i| Neighbour { index: i, distance: ((i * 7 + j * 13) % 17) as u64 }).collect())
        .collect();
    let encounters = get_nearest_points(&a, &b, &neighbours);
    assert_eq!(encounters.len(), 10);
    for (k, e) in encounters.iter().enumerate() {
        assert_eq!(e.distance, ((e.index1 * 7 + e.index2 * 13) % 17) as u64);
        for f in &encounters[..k] {
            assert!(f.distance <= e.distance);
            assert_ne!(f.index1, e.index1);
            assert_ne!(f.index2, e.index2);
        }
    }
    assert_eq!(encounters[0].distance, 0);
}

#[test]
fn every_pair_is_the_closest_that_is_left() {
    let a = record(6);
    let b = record(5);
    let neighbours: Vec<Vec<Neighbour>> = (0..5usize)
        .map(|j| (0..6usize).map(|i| Neighbour { index: i, distance: ((i * 5 + j * 3 + i * j) % 11) as u64 }).collect())
        .collect();
    let encounters = get_nearest_points(&a, &b, &neighbours);
    assert_eq!(encounters.len(), 5);
    let mut taken_a = vec![];
    let mut taken_b = vec![];
    for e in &encounters {
        let mut best: Option<(u64, usize, usize)> = None;
        for j in 0..5usize {
            for n in &neighbours[j] {
                if !taken_a.contains(&n.index) && !taken_b.contains(&j) {
                    let key = (n.distance, j, n.index);
                    if best.map_or(true, |b| key < b) {
                        best = Some(key);
                    }
                }
            }
        }
        assert_eq!(best, Some((e.distance, e.index2, e.index1)));
        taken_a.push(e.index1);
        taken_b.push(e.index2);
    }
}

#[test]
fn empty_second_record_gives_no_pairs() {
    let a = record(3);
    let b = record(0);
    assert_eq!(get_nearest_points(&a, &b, &vec![]).len(), 0);
    assert_eq!(get_nearest_points(&a, &b, &vec![list(&[(0, 1)])]).len(), 0);
}

#[test]
fn empty_first_record_gives_no_pairs() {
    let a = record(0);
    let b = record(3);
    assert_eq!(get_nearest_points(&a, &b, &vec![vec![], vec![], vec![]]).len(), 0);
    assert_eq!(get_nearest_points(&a, &b, &vec![list(&[(0, 1)]), vec![], vec![]]).len(), 0);
}

#[test]
fn neighbours_that_are_not_there_count_for_nothing() {
    let a = record(2);
    let b = record(2);
    let neighbours = vec![list(&[(5, 1), (1, 9)]), list(&[(0, 3)]), list(&[(0, 0), (1, 0)])];
    let encounters = get_nearest_points(&a, &b, &neighbours);
    assert_eq!(triples(&encounters), vec![(0, 1, 3), (1, 0, 9)]);
    let short = vec![list(&[(1, 9)])];
    assert_eq!(triples(&get_nearest_points(&a, &b, &short)), vec![(1, 0, 9)]);
}

#[test]
fn lists_need_not_be_in_the_order_of_distance() {
    let a = record(3);
    let b = record(1);
    let neighbours = vec![list(&[(0, 9), (1, 2), (2, 5)])];
    assert_eq!(triples(&get_nearest_points(&a, &b, &neighbours)), vec![(1, 0, 2)]);
}

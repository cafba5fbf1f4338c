use bagel::listing::{insert_newest_first, rank_listed_before, Listed, Timestamp};
use bagel::projects::Project;

fn project(id: i64, secs: i64, nanos: u32) -> Project {
    Project {
        id,
        name: format!("p{id}"),
        description: String::new(),
        created_at: Timestamp { secs: 0, nanos: 0 },
        updated_at: Timestamp { secs, nanos },
    }
}

#[test]
fn ranks_compare_update_time_then_id() {
    assert!(rank_listed_before((2, 0, 1), (1, 999, 9)));
    assert!(rank_listed_before((1, 5, 1), (1, 4, 9)));
    assert!(rank_listed_before((1, 5, 9), (1, 5, 1)));
    assert!(rank_listed_before((1, 5, 9), (1, 5, 9)));
    assert!(!rank_listed_before((1, 5, 1), (1, 5, 9)));
    assert!(!rank_listed_before((-1, 0, 9), (0, 0, 1)));
}

#[test]
fn insertion_keeps_newest_first() {
    let mut sorted: Vec<Project> = Vec::new();
    for p in [project(1, 10, 0), project(2, 30, 0), project(3, 20, 0), project(4, 20, 1), project(5, 30, 0)] {
        insert_newest_first(&mut sorted, p);
    }
    let ids: Vec<i64> = sorted.iter().map(|p| p.id).collect();
    assert_eq!(ids, vec![5, 2, 4, 3, 1]);
    assert_eq!(sorted[0].rank(), (30, 0, 5));
}

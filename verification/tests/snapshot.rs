use arcbox::snapshot::{order_newest_first, prune_plan, SnapshotRecord};

fn snap(id: &str, created: i64) -> SnapshotRecord {
    SnapshotRecord {
        id: id.to_string(),
        created,
    }
}

#[test]
fn snapshots_list_newest_first_and_stably() {
    let snaps = vec![snap("a", 10), snap("b", 30), snap("c", 20), snap("d", 30)];
    assert_eq!(order_newest_first(&snaps), vec![1, 3, 2, 0]);
    assert_eq!(order_newest_first(&Vec::new()), Vec::<usize>::new());
}

#[test]
fn prune_keeps_the_newest() {
    let snaps = vec![snap("a", 10), snap("b", 30), snap("c", 20), snap("d", 5)];
    assert_eq!(prune_plan(&snaps, 2), vec!["a".to_string(), "d".to_string()]);
    assert_eq!(prune_plan(&snaps, 0), vec!["b", "c", "a", "d"]);
    assert!(prune_plan(&snaps, 4).is_empty());
    assert!(prune_plan(&snaps, 10).is_empty());
}

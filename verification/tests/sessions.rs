use katapult::sessions::{SessionRegistry, SinkHandle};

fn sorted(mut targets: Vec<(i32, SinkHandle)>) -> Vec<(i32, SinkHandle)> {
    targets.sort_by_key(|t| t.0);
    targets
}

#[test]
fn new_registry_is_empty() {
    let registry = SessionRegistry::new();
    assert_eq!(registry.len(), 0);
    assert!(!registry.contains(1));
    assert_eq!(registry.sink(1), None);
    assert!(registry.targets().is_empty());
}

#[test]
fn add_registers_a_session() {
    let mut registry = SessionRegistry::new();
    assert_eq!(registry.add(7, SinkHandle(70)), None);
    assert_eq!(registry.len(), 1);
    assert!(registry.contains(7));
    assert_eq!(registry.sink(7), Some(SinkHandle(70)));
    assert_eq!(registry.targets(), vec![(7, SinkHandle(70))]);
}

#[test]
fn add_overwrites_the_sink_of_a_session() {
    let mut registry = SessionRegistry::new();
    registry.add(7, SinkHandle(70));
    assert_eq!(registry.add(7, SinkHandle(71)), Some(SinkHandle(70)));
    assert_eq!(registry.len(), 1);
    assert_eq!(registry.sink(7), Some(SinkHandle(71)));
}

#[test]
fn remove_forgets_a_session() {
    let mut registry = SessionRegistry::new();
    registry.add(1, SinkHandle(10));
    registry.add(2, SinkHandle(20));
    assert_eq!(registry.remove(1), Some(SinkHandle(10)));
    assert_eq!(registry.len(), 1);
    assert!(!registry.contains(1));
    assert_eq!(registry.sink(2), Some(SinkHandle(20)));
}

#[test]
fn remove_of_an_unknown_session_changes_nothing() {
    let mut registry = SessionRegistry::new();
    registry.add(1, SinkHandle(10));
    assert_eq!(registry.remove(5), None);
    assert_eq!(registry.targets(), vec![(1, SinkHandle(10))]);
}

#[test]
fn targets_lists_every_session_once() {
    let mut registry = SessionRegistry::new();
    registry.add(3, SinkHandle(30));
    registry.add(-1, SinkHandle(5));
    registry.add(2, SinkHandle(20));
    assert_eq!(
        sorted(registry.targets()),
        vec![(-1, SinkHandle(5)), (2, SinkHandle(20)), (3, SinkHandle(30))]
    );
}

#[test]
fn one_failed_sink_of_three_leaves_two() {
    let mut registry = SessionRegistry::new();
    registry.add(1, SinkHandle(10));
    registry.add(2, SinkHandle(20));
    registry.add(3, SinkHandle(30));
    assert_eq!(registry.prune(&vec![2]), vec![SinkHandle(20)]);
    assert_eq!(registry.len(), 2);
    assert_eq!(sorted(registry.targets()), vec![(1, SinkHandle(10)), (3, SinkHandle(30))]);
}

#[test]
fn prune_without_failures_keeps_all() {
    let mut registry = SessionRegistry::new();
    registry.add(1, SinkHandle(10));
    registry.add(2, SinkHandle(20));
    assert_eq!(registry.prune(&Vec::new()), Vec::<SinkHandle>::new());
    assert_eq!(registry.len(), 2);
}

#[test]
fn prune_ignores_unknown_and_repeated_ids() {
    let mut registry = SessionRegistry::new();
    registry.add(1, SinkHandle(10));
    registry.add(2, SinkHandle(20));
    assert_eq!(registry.prune(&vec![9, 2, 2, 9]), vec![SinkHandle(20)]);
    assert_eq!(registry.targets(), vec![(1, SinkHandle(10))]);
}

#[test]
fn prune_of_all_empties_the_registry() {
    let mut registry = SessionRegistry::new();
    registry.add(1, SinkHandle(10));
    registry.add(2, SinkHandle(20));
    assert_eq!(registry.prune(&vec![2, 1]), vec![SinkHandle(20), SinkHandle(10)]);
    assert_eq!(registry.len(), 0);
}

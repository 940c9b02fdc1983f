use kicks::scene::SceneCollection;
use kicks::signal_chain::SignalChain;

fn test_chain() -> SignalChain {
    SignalChain::default()
}

#[test]
fn test_empty_collection() {
    let coll = SceneCollection::new();
    assert!(coll.is_empty());
    assert_eq!(coll.len(), 0);
    assert!(coll.active_scene().is_none());
}

#[test]
fn test_add_and_get_scene() {
    let mut coll = SceneCollection::new();
    coll.add_scene("Clean".into(), test_chain());
    coll.add_scene("Crunch".into(), test_chain());
    assert_eq!(coll.len(), 2);
    assert_eq!(coll.get_scene(0).unwrap().name, "Clean");
    assert_eq!(coll.get_scene(1).unwrap().name, "Crunch");
}

#[test]
fn test_remove_scene_adjusts_active() {
    let mut coll = SceneCollection::new();
    coll.add_scene("A".into(), test_chain());
    coll.add_scene("B".into(), test_chain());
    coll.add_scene("C".into(), test_chain());
    coll.set_active(1); // B

    let removed = coll.remove_scene(1);
    assert_eq!(removed.unwrap().name, "B");
    assert_eq!(coll.len(), 2);
    // Active was 1, we removed at 1 → active should stay at 1 (now C)
    assert_eq!(coll.active_index(), Some(1));
    assert_eq!(coll.get_scene(1).unwrap().name, "C");
}

#[test]
fn test_remove_last_scene_clears_active() {
    let mut coll = SceneCollection::new();
    coll.add_scene("Only".into(), test_chain());
    coll.set_active(0);
    coll.remove_scene(0);
    assert!(coll.active_scene().is_none());
    assert!(coll.is_empty());
}

#[test]
fn test_rename_scene() {
    let mut coll = SceneCollection::new();
    coll.add_scene("Old".into(), test_chain());
    coll.rename_scene(0, "New".into());
    assert_eq!(coll.get_scene(0).unwrap().name, "New");
}

#[test]
fn test_reorder_scene() {
    let mut coll = SceneCollection::new();
    coll.add_scene("A".into(), test_chain());
    coll.add_scene("B".into(), test_chain());
    coll.add_scene("C".into(), test_chain());

    coll.reorder_scene(0, 2); // Move A to position 2
    assert_eq!(coll.get_scene(0).unwrap().name, "B");
    assert_eq!(coll.get_scene(1).unwrap().name, "C");
    assert_eq!(coll.get_scene(2).unwrap().name, "A");
}

#[test]
fn test_next_prev_scene() {
    let mut coll = SceneCollection::new();
    coll.add_scene("A".into(), test_chain());
    coll.add_scene("B".into(), test_chain());
    coll.add_scene("C".into(), test_chain());

    assert_eq!(coll.next_scene(), Some(0)); // no active → 0
    assert_eq!(coll.next_scene(), Some(1)); // 0 → 1
    assert_eq!(coll.next_scene(), Some(2)); // 1 → 2
    assert_eq!(coll.next_scene(), Some(0)); // 2 → 0 (wrap)
    assert_eq!(coll.prev_scene(), Some(2)); // 0 → 2 (wrap back)

    let mut empty: SceneCollection = SceneCollection::new();
    assert!(empty.next_scene().is_none());
    assert!(empty.prev_scene().is_none());
}

#[test]
fn test_insert_scene() {
    let mut coll = SceneCollection::new();
    coll.add_scene("A".into(), test_chain());
    coll.add_scene("C".into(), test_chain());
    coll.insert_scene(1, "B".into(), test_chain());

    assert_eq!(coll.len(), 3);
    assert_eq!(coll.get_scene(0).unwrap().name, "A");
    assert_eq!(coll.get_scene(1).unwrap().name, "B");
    assert_eq!(coll.get_scene(2).unwrap().name, "C");
}

#[test]
fn test_set_active_clamped() {
    let mut coll = SceneCollection::new();
    coll.add_scene("A".into(), test_chain());
    coll.set_active(5); // out of bounds → ignored
    assert_eq!(coll.active_index(), None);

    coll.set_active(0);
    assert_eq!(coll.active_index(), Some(0));
}

#[test]
fn remove_before_active_shifts_selection() {
    let mut coll = SceneCollection::new();
    coll.add_scene("A".into(), test_chain());
    coll.add_scene("B".into(), test_chain());
    coll.add_scene("C".into(), test_chain());
    coll.set_active(2);
    coll.remove_scene(0);
    assert_eq!(coll.active_index(), Some(1));
    assert_eq!(coll.active_scene().unwrap().name, "C");
}

#[test]
fn remove_last_active_scene_selects_new_last() {
    let mut coll = SceneCollection::new();
    coll.add_scene("A".into(), test_chain());
    coll.add_scene("B".into(), test_chain());
    coll.set_active(1);
    coll.remove_scene(1);
    assert_eq!(coll.active_index(), Some(0));
    assert!(coll.remove_scene(7).is_none());
    assert_eq!(coll.len(), 1);
}

#[test]
fn insert_past_end_appends() {
    let mut coll = SceneCollection::new();
    coll.add_scene("A".into(), test_chain());
    coll.insert_scene(9, "Z".into(), test_chain());
    assert_eq!(coll.get_scene(1).unwrap().name, "Z");
}

#[test]
fn reorder_rejects_same_or_out_of_range() {
    let mut coll = SceneCollection::new();
    coll.add_scene("A".into(), test_chain());
    coll.add_scene("B".into(), test_chain());
    assert!(coll.reorder_scene(1, 1).is_none());
    assert!(coll.reorder_scene(0, 2).is_none());
    assert!(coll.rename_scene(2, "X".into()).is_none());
    assert!(coll.reorder_scene(1, 0).is_some());
    assert!(coll.reorder_scene(0, 1).is_some());
    assert_eq!(coll.get_scene(0).unwrap().name, "A");
}

#[test]
fn next_wraps_after_full_cycle() {
    let mut coll = SceneCollection::new();
    for name in ["A", "B", "C", "D"] {
        coll.add_scene(name.into(), test_chain());
    }
    coll.set_active(2);
    for _ in 0..4 {
        coll.next_scene();
    }
    assert_eq!(coll.active_index(), Some(2));
    coll.next_scene();
    coll.prev_scene();
    assert_eq!(coll.active_index(), Some(2));
}

#[test]
fn prev_without_active_selects_first() {
    let mut coll = SceneCollection::new();
    coll.add_scene("A".into(), test_chain());
    coll.add_scene("B".into(), test_chain());
    assert_eq!(coll.prev_scene(), Some(0));
    assert_eq!(coll.prev_scene(), Some(1));
}

#[test]
fn prev_scene_with_out_of_range_active_selects_first() {
    let mut coll = SceneCollection::new();
    coll.add_scene("A".into(), test_chain());
    coll.add_scene("B".into(), test_chain());
    coll.add_scene("C".into(), test_chain());
    coll.active_scene = Some(5);
    assert_eq!(coll.prev_scene(), Some(0));
    assert_eq!(coll.active_index(), Some(0));
    assert_eq!(coll.prev_scene(), Some(2));
}

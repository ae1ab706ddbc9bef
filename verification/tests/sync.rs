use hollow_earth::sync::{ExplorerRegistry, ExplorerState};

/// Position and radiation carried by each explorer in these tests.
#[derive(Debug, Clone, Copy, PartialEq)]
struct Body {
    x: f32,
    radiation: f32,
}

fn explorer(id: u64, x: f32) -> ExplorerState<Body> {
    ExplorerState::with_body(id, Body { x, radiation: 0.0 })
}

#[test]
fn new_explorers_are_untethered() {
    let e = explorer(42, 1.0);
    assert_eq!(e.player_id, 42);
    assert!(!e.tether_deployed);
    assert_eq!(e.tethered_to, None);
    assert!(!e.disoriented);
    assert_eq!(e.body, Body { x: 1.0, radiation: 0.0 });
}

#[test]
fn registered_explorers_are_found_by_id() {
    let mut reg = ExplorerRegistry::new();
    assert!(reg.get(1).is_none());
    reg.register(explorer(1, 0.0));
    reg.register(explorer(2, 5.0));
    assert_eq!(reg.get(2).unwrap().body.x, 5.0);
    assert_eq!(reg.explorers().len(), 2);
    let mut moved = explorer(2, 7.0);
    moved.disoriented = true;
    reg.update_explorer(moved);
    assert_eq!(reg.get(2).unwrap().body.x, 7.0);
    assert!(reg.get(2).unwrap().disoriented);
    assert_eq!(reg.explorers().len(), 2);
}

#[test]
fn linking_tethers_both_ways() {
    let mut reg = ExplorerRegistry::new();
    reg.register(explorer(1, 0.0));
    reg.register(explorer(2, 5.0));
    assert!(reg.link_tether(1, 2));
    assert_eq!(reg.get(1).unwrap().tethered_to, Some(2));
    assert_eq!(reg.get(2).unwrap().tethered_to, Some(1));
    assert!(reg.get(1).unwrap().tether_deployed);
    assert!(reg.get(2).unwrap().tether_deployed);
    assert_eq!(reg.get(2).unwrap().body.x, 5.0);
}

#[test]
fn linking_needs_both_explorers() {
    let mut reg = ExplorerRegistry::new();
    reg.register(explorer(1, 0.0));
    assert!(!reg.link_tether(1, 9));
    assert!(!reg.link_tether(9, 1));
    assert_eq!(reg.get(1).unwrap().tethered_to, None);
    assert!(!reg.get(1).unwrap().tether_deployed);
}

#[test]
fn breaking_frees_both_ends() {
    let mut reg = ExplorerRegistry::new();
    reg.register(explorer(1, 0.0));
    reg.register(explorer(2, 5.0));
    reg.register(explorer(3, 9.0));
    reg.link_tether(1, 2);
    reg.break_tether(1);
    assert!(reg.get(1).unwrap().tethered_to.is_none());
    assert!(reg.get(2).unwrap().tethered_to.is_none());
    assert!(!reg.get(2).unwrap().tether_deployed);

    reg.link_tether(2, 3);
    reg.break_tether(3);
    assert!(reg.get(2).unwrap().tethered_to.is_none());
    assert!(reg.get(3).unwrap().tethered_to.is_none());
}

#[test]
fn removing_reports_presence() {
    let mut reg: ExplorerRegistry<Body> = ExplorerRegistry::default();
    reg.register(explorer(1, 0.0));
    assert!(reg.remove(1));
    assert!(!reg.remove(1));
    assert!(reg.get(1).is_none());
    assert!(reg.explorers().is_empty());
}

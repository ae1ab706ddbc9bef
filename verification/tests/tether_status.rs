use hollow_earth::tether_status::{TetherEntry, TetherStatus};

/// Measurements carried by each entry in these tests.
#[derive(Debug, Clone, Copy, PartialEq)]
struct Gauge {
    tension_ratio: f32,
    length: f32,
}

fn gauge(tension_ratio: f32, length: f32) -> Gauge {
    Gauge { tension_ratio, length }
}

#[test]
fn test_add_tether() {
    let mut status = TetherStatus::new(4);
    status.add_entry(gauge(0.3, 15.0));
    assert_eq!(status.tethers.len(), 1);
    assert!(status.is_tethered);
}

#[test]
fn test_add_tether_respects_max() {
    let mut status = TetherStatus::new(2);
    status.add_entry(gauge(0.3, 10.0));
    status.add_entry(gauge(0.3, 10.0));
    status.add_entry(gauge(0.3, 10.0)); // Should not add
    assert_eq!(status.tethers.len(), 2);
}

#[test]
fn test_break_tether() {
    let mut status = TetherStatus::new(4);
    status.add_entry(gauge(0.3, 10.0));
    status.break_tether(0);
    assert!(status.tethers[0].is_broken);
    assert!(!status.is_tethered);
}

#[test]
fn test_intact_count() {
    let mut status = TetherStatus::new(4);
    status.add_entry(gauge(0.3, 10.0));
    status.add_entry(gauge(0.3, 10.0));
    status.break_tether(0);
    assert_eq!(status.intact_count(), 1);
}

#[test]
fn new_entries_are_numbered_in_order_and_keep_their_gauge() {
    let mut status = TetherStatus::new(4);
    status.add_entry(gauge(0.1, 5.0));
    status.add_entry(gauge(0.2, 6.0));
    status.add_entry(gauge(0.3, 7.0));
    let ids: Vec<u8> = status.tethers.iter().map(|t| t.id).collect();
    assert_eq!(ids, vec![1, 2, 3]);
    assert_eq!(status.tethers[1].gauge, gauge(0.2, 6.0));
    assert!(status.tethers.iter().all(|t| !t.is_broken));
}

#[test]
fn removing_a_tether_renumbers_the_rest() {
    let mut status = TetherStatus::new(4);
    status.add_entry(gauge(0.1, 5.0));
    status.add_entry(gauge(0.2, 6.0));
    status.add_entry(gauge(0.3, 7.0));
    status.remove_tether(0);
    assert_eq!(status.tethers.len(), 2);
    assert_eq!(status.tethers[0], TetherEntry { gauge: gauge(0.2, 6.0), is_broken: false, id: 1 });
    assert_eq!(status.tethers[1], TetherEntry { gauge: gauge(0.3, 7.0), is_broken: false, id: 2 });
    assert!(status.is_tethered);
}

#[test]
fn removing_the_last_intact_tether_untethers() {
    let mut status = TetherStatus::new(4);
    status.add_entry(gauge(0.1, 5.0));
    status.add_entry(gauge(0.2, 6.0));
    status.break_tether(0);
    assert!(status.is_tethered);
    status.remove_tether(1);
    assert!(!status.is_tethered);
    assert_eq!(status.intact_count(), 0);
    assert_eq!(status.tethers.len(), 1);
}

#[test]
fn out_of_range_indices_change_nothing() {
    let mut status = TetherStatus::new(4);
    status.add_entry(gauge(0.1, 5.0));
    let before = status.clone();
    status.break_tether(7);
    status.remove_tether(7);
    assert_eq!(status, before);
}

#[test]
fn clear_and_default() {
    let mut status: TetherStatus<Gauge> = TetherStatus::default();
    assert_eq!(status.max_tethers, 4);
    assert!(!status.is_tethered);
    status.add_entry(gauge(0.5, 1.0));
    status.clear();
    assert!(status.tethers.is_empty());
    assert!(!status.is_tethered);
    assert_eq!(status.max_tethers, 4);
}

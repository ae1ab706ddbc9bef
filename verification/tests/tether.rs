use hollow_earth::tether::{attach_tether, chain_tethers, check_tether, detach_tether, TetherError};

#[test]
fn test_anchor_attach_detach() {
    let mut attached: Vec<usize> = Vec::new();
    attach_tether(&mut attached, 0);
    attach_tether(&mut attached, 1);
    assert_eq!(attached.len(), 2);

    detach_tether(&mut attached, 0);
    assert_eq!(attached.len(), 1);
    assert_eq!(attached[0], 1);
}

#[test]
fn attaching_twice_keeps_one_entry() {
    let mut attached = vec![4, 2];
    attach_tether(&mut attached, 2);
    assert_eq!(attached, vec![4, 2]);
    attach_tether(&mut attached, 9);
    assert_eq!(attached, vec![4, 2, 9]);
    detach_tether(&mut attached, 9);
    assert_eq!(attached, vec![4, 2]);
    detach_tether(&mut attached, 7);
    assert_eq!(attached, vec![4, 2]);
    let mut repeated = vec![3, 1, 3, 3, 5];
    detach_tether(&mut repeated, 3);
    assert_eq!(repeated, vec![1, 5]);
}

fn chain_total(anchors: &[Vec<usize>], lengths: &[f32], broken: &[bool]) -> f32 {
    let flat: Vec<usize> = anchors.iter().flatten().copied().collect();
    chain_tethers(&flat, broken).iter().map(|&i| lengths[i]).sum()
}

#[test]
fn test_chain_length_single() {
    let total = chain_total(&[vec![0]], &[10.0], &[false]);
    assert!((total - 10.0).abs() < 0.001);
}

#[test]
fn test_chain_length_multiple() {
    let total = chain_total(&[vec![0], vec![0, 1], vec![1]], &[10.0, 10.0], &[false, false]);
    assert!((total - 20.0).abs() < 0.001);
}

#[test]
fn chain_skips_broken_and_unknown_tethers() {
    assert_eq!(chain_tethers(&[2, 0, 7, 1, 2, 0], &[false, true, false]), vec![2, 0]);
    assert_eq!(chain_tethers(&[], &[false]), Vec::<usize>::new());
    assert_eq!(chain_tethers(&[0, 0], &[]), Vec::<usize>::new());
}

#[test]
fn vacuum_breach_is_reported_before_length() {
    assert_eq!(check_tether(false, false, false), Ok(()));
    assert_eq!(check_tether(true, false, true), Err(TetherError::VacuumBreach));
    assert_eq!(check_tether(false, true, false), Err(TetherError::VacuumBreach));
    assert_eq!(check_tether(false, false, true), Err(TetherError::TooLong));
}

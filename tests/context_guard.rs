use libpd_rs::{ActiveInstanceGuard, InstanceId, Restore};

const DEFAULT: InstanceId = InstanceId { number: 0 };

fn id(n: i32) -> InstanceId {
    InstanceId { number: n }
}

/// Acquires a guard on the simulated thread selection.
fn enter(selection: &mut Option<InstanceId>, target: InstanceId) -> ActiveInstanceGuard {
    let (guard, switch) = ActiveInstanceGuard::acquire(*selection, target);
    if let Some(i) = switch {
        *selection = Some(i);
    }
    assert_eq!(*selection, Some(target));
    guard
}

/// Releases a guard on the simulated thread selection.
fn leave(selection: &mut Option<InstanceId>, guard: ActiveInstanceGuard) {
    if let Some(i) = guard.release(DEFAULT) {
        *selection = Some(i);
    }
}

#[test]
fn acquire_switches_and_records_previous() {
    let (guard, switch) = ActiveInstanceGuard::acquire(Some(id(1)), id(2));
    assert_eq!(switch, Some(id(2)));
    assert_eq!(guard.restore(), Restore::Previous(id(1)));
    assert_eq!(guard.release(DEFAULT), Some(id(1)));
}

#[test]
fn acquire_on_current_instance_is_a_no_op() {
    let (guard, switch) = ActiveInstanceGuard::acquire(Some(id(3)), id(3));
    assert_eq!(switch, None);
    assert_eq!(guard.restore(), Restore::Nothing);
    assert_eq!(guard.release(DEFAULT), None);
}

#[test]
fn guard_restoration_nested() {
    let mut selection = Some(id(1));
    let g1 = enter(&mut selection, id(2));
    let g2 = enter(&mut selection, id(3));
    let g3 = enter(&mut selection, id(3));
    let g4 = enter(&mut selection, id(1));
    let g5 = enter(&mut selection, id(2));
    leave(&mut selection, g5);
    assert_eq!(selection, Some(id(1)));
    leave(&mut selection, g4);
    assert_eq!(selection, Some(id(3)));
    leave(&mut selection, g3);
    assert_eq!(selection, Some(id(3)));
    leave(&mut selection, g2);
    assert_eq!(selection, Some(id(2)));
    leave(&mut selection, g1);
    assert_eq!(selection, Some(id(1)));
}

#[test]
fn guard_restoration_with_siblings() {
    let mut selection = Some(id(4));
    let outer = enter(&mut selection, id(5));
    let a = enter(&mut selection, id(6));
    leave(&mut selection, a);
    let b = enter(&mut selection, id(5));
    leave(&mut selection, b);
    let c = enter(&mut selection, id(4));
    leave(&mut selection, c);
    assert_eq!(selection, Some(id(5)));
    leave(&mut selection, outer);
    assert_eq!(selection, Some(id(4)));
}

#[test]
fn default_fallback() {
    let (guard, switch) = ActiveInstanceGuard::acquire(None, id(7));
    assert_eq!(switch, Some(id(7)));
    assert_eq!(guard.restore(), Restore::Default);
    assert_eq!(guard.release(DEFAULT), Some(DEFAULT));

    let mut selection: Option<InstanceId> = None;
    let g1 = enter(&mut selection, id(7));
    let g2 = enter(&mut selection, id(8));
    leave(&mut selection, g2);
    assert_eq!(selection, Some(id(7)));
    leave(&mut selection, g1);
    assert_eq!(selection, Some(DEFAULT));
}

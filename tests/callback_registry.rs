use libpd_rs::{Callbacks, HookCategory, HookOwner, HookSlots, InstanceId, RecieveError, RegistrationPolicy};
use std::cell::Cell;
use std::rc::Rc;

fn id(n: i32) -> InstanceId {
    InstanceId { number: n }
}

const ALL: [HookCategory; 14] = [
    HookCategory::Print,
    HookCategory::Bang,
    HookCategory::Float,
    HookCategory::Double,
    HookCategory::Symbol,
    HookCategory::List,
    HookCategory::Message,
    HookCategory::MidiNoteOn,
    HookCategory::MidiControlChange,
    HookCategory::MidiProgramChange,
    HookCategory::MidiPitchBend,
    HookCategory::MidiAfterTouch,
    HookCategory::MidiPolyAfterTouch,
    HookCategory::MidiByte,
];

#[test]
fn category_indices_round_trip() {
    for (i, c) in ALL.iter().enumerate() {
        assert_eq!(c.index(), i);
        assert_eq!(HookCategory::from_index(i), *c);
    }
}

#[test]
fn slots_start_empty() {
    let slots = HookSlots::new();
    for c in ALL {
        assert_eq!(slots.holder(c), None);
    }
}

#[test]
fn new_registry_is_empty() {
    let callbacks: Callbacks<u8> = Callbacks::new();
    assert_eq!(callbacks.len(), 0);
}

#[test]
fn registering_replaces_the_slot() {
    let mut slots = HookSlots::new();
    let mut a: Callbacks<&str> = Callbacks::new();
    let mut b: Callbacks<&str> = Callbacks::new();
    let policy = RegistrationPolicy::permissive();
    let first = a.register(id(1), HookCategory::Float, "a-float", policy, false, &mut slots).unwrap();
    assert_eq!(first, HookOwner { instance: id(1), entry: 0 });
    let second = a.register(id(1), HookCategory::Float, "a-float-2", policy, false, &mut slots).unwrap();
    assert_eq!(second, HookOwner { instance: id(1), entry: 1 });
    assert_eq!(slots.holder(HookCategory::Float), Some(second));
    // Last writer wins across instances.
    let third = b.register(id(2), HookCategory::Float, "b-float", policy, false, &mut slots).unwrap();
    assert_eq!(slots.holder(HookCategory::Float), Some(third));
    assert_eq!(slots.holder(HookCategory::Bang), None);
    // Replaced handlers are still kept.
    assert_eq!(a.len(), 2);
}

#[test]
fn policy_refuses_while_audio_active() {
    let mut slots = HookSlots::new();
    let mut callbacks: Callbacks<u8> = Callbacks::new();
    let strict = RegistrationPolicy { refuse_while_audio_active: true };
    assert_eq!(
        callbacks.register(id(1), HookCategory::Bang, 1, strict, true, &mut slots),
        Err(RecieveError::DspActive)
    );
    assert_eq!(callbacks.len(), 0);
    assert_eq!(slots.holder(HookCategory::Bang), None);
    assert!(callbacks.register(id(1), HookCategory::Bang, 1, strict, false, &mut slots).is_ok());
    let default = RegistrationPolicy::default();
    assert!(default.permits(true));
    assert!(callbacks.register(id(1), HookCategory::List, 2, default, true, &mut slots).is_ok());
}

#[test]
fn add_callback_returns_positions() {
    let mut callbacks: Callbacks<u8> = Callbacks::new();
    assert_eq!(callbacks.add_callback(HookCategory::Print, 10), 0);
    assert_eq!(callbacks.add_callback(HookCategory::MidiByte, 11), 1);
    assert_eq!(callbacks.len(), 2);
}

#[test]
fn release_clears_only_own_slots() {
    let mut slots = HookSlots::new();
    let mut a: Callbacks<u8> = Callbacks::new();
    let mut b: Callbacks<u8> = Callbacks::new();
    let p = RegistrationPolicy::permissive();
    a.register(id(1), HookCategory::Bang, 1, p, false, &mut slots).unwrap();
    a.register(id(1), HookCategory::List, 2, p, false, &mut slots).unwrap();
    a.register(id(1), HookCategory::Float, 3, p, false, &mut slots).unwrap();
    let b_float = b.register(id(2), HookCategory::Float, 4, p, false, &mut slots).unwrap();
    let (cleared, entries) = a.release(id(1), &mut slots);
    assert_eq!(cleared, vec![HookCategory::Bang, HookCategory::List]);
    assert_eq!(entries, vec![(HookCategory::Bang, 1), (HookCategory::List, 2), (HookCategory::Float, 3)]);
    assert_eq!(slots.holder(HookCategory::Bang), None);
    assert_eq!(slots.holder(HookCategory::List), None);
    assert_eq!(slots.holder(HookCategory::Float), Some(b_float));
}

#[test]
fn released_slots_can_be_cleared_directly() {
    let mut slots = HookSlots::new();
    slots.install(HookCategory::MidiNoteOn, HookOwner { instance: id(3), entry: 0 });
    slots.install(HookCategory::Print, HookOwner { instance: id(4), entry: 0 });
    let cleared = slots.release_owner(id(3));
    assert_eq!(cleared, vec![HookCategory::MidiNoteOn]);
    assert_eq!(slots.holder(HookCategory::MidiNoteOn), None);
    assert!(slots.holder(HookCategory::Print).is_some());
    assert_eq!(slots.release_owner(id(3)), vec![]);
}

#[test]
fn callback_lifetime() {
    // Dispatch goes through the slot table: a slot that points to nothing
    // invokes nothing.
    fn dispatch(slots: &HookSlots, handlers: &[(HookCategory, Box<dyn Fn()>)], c: HookCategory) {
        if let Some(owner) = slots.holder(c) {
            (handlers[owner.entry].1)();
        }
    }

    let counter = Rc::new(Cell::new(0));
    let mut slots = HookSlots::new();
    let mut callbacks: Callbacks<Box<dyn Fn()>> = Callbacks::new();
    let c = counter.clone();
    callbacks
        .register(
            id(1),
            HookCategory::Bang,
            Box::new(move || c.set(c.get() + 1)),
            RegistrationPolicy::permissive(),
            false,
            &mut slots,
        )
        .unwrap();

    let (cleared, entries) = callbacks.release(id(1), &mut slots);
    assert_eq!(cleared, vec![HookCategory::Bang]);
    dispatch(&slots, &entries, HookCategory::Bang);
    drop(entries);
    assert_eq!(counter.get(), 0);
    assert_eq!(Rc::strong_count(&counter), 1);
}

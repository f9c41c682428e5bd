use thread_local_slot::error::SlotError;
use thread_local_slot::object::{TLSObject, FRESH_VALUE};
use thread_local_slot::slot::ThreadLocalSlot;

#[test]
fn fresh_value_is_forty_two() {
    assert_eq!(FRESH_VALUE, 42);
}

#[test]
fn new_object_holds_the_fresh_value() {
    let object = TLSObject::new().expect("one integer of storage");
    assert_eq!(object.get_value(), 42);
}

#[test]
fn new_slot_is_absent() {
    let slot = ThreadLocalSlot::new();
    assert!(!slot.is_present());
    assert_eq!(slot.read(), Err(SlotError::EmptyThreadLocal));
}

#[test]
fn read_right_after_initialize_gives_the_stored_value() {
    let mut slot = ThreadLocalSlot::new();
    assert_eq!(slot.initialize(), Ok(()));
    assert_eq!(slot.read(), Ok(42));
    slot.destroy();
    assert_eq!(slot.initialize(), Ok(()));
    assert_eq!(slot.read(), Ok(42));
}

#[test]
fn read_does_not_change_the_slot() {
    let mut slot = ThreadLocalSlot::new();
    assert_eq!(slot.initialize(), Ok(()));
    assert_eq!(slot.read(), Ok(42));
    assert_eq!(slot.read(), Ok(42));
    assert!(slot.is_present());
}

#[test]
fn destroy_twice_is_destroy_once() {
    let mut slot = ThreadLocalSlot::new();
    assert_eq!(slot.initialize(), Ok(()));
    slot.destroy();
    assert!(!slot.is_present());
    assert_eq!(slot.read(), Err(SlotError::EmptyThreadLocal));
    slot.destroy();
    assert!(!slot.is_present());
    assert_eq!(slot.read(), Err(SlotError::EmptyThreadLocal));
}

#[test]
fn destroy_on_an_untouched_slot_does_nothing() {
    let mut slot = ThreadLocalSlot::new();
    slot.destroy();
    assert!(!slot.is_present());
    assert_eq!(slot.read(), Err(SlotError::EmptyThreadLocal));
}

#[test]
fn read_of_an_absent_slot_reports_empty() {
    let untouched = ThreadLocalSlot::new();
    assert_eq!(untouched.read(), Err(SlotError::EmptyThreadLocal));

    let mut destroyed = ThreadLocalSlot::new();
    assert_eq!(destroyed.initialize(), Ok(()));
    destroyed.destroy();
    assert_eq!(destroyed.read(), Err(SlotError::EmptyThreadLocal));

    let mut ended = ThreadLocalSlot::new();
    assert_eq!(ended.initialize(), Ok(()));
    ended.teardown();
    assert_eq!(ended.read(), Err(SlotError::EmptyThreadLocal));
}

#[test]
fn initialize_read_destroy_read() {
    let mut slot = ThreadLocalSlot::new();
    assert_eq!(slot.initialize(), Ok(()));
    assert_eq!(slot.read(), Ok(42));
    slot.destroy();
    assert_eq!(slot.read(), Err(SlotError::EmptyThreadLocal));
}

#[test]
fn initialize_twice_then_read() {
    let mut slot = ThreadLocalSlot::new();
    assert_eq!(slot.initialize(), Ok(()));
    assert_eq!(slot.initialize(), Ok(()));
    assert!(slot.is_present());
    assert_eq!(slot.read(), Ok(42));
    slot.destroy();
    assert!(!slot.is_present());
}

#[test]
fn teardown_leaves_the_slot_absent() {
    let mut slot = ThreadLocalSlot::new();
    assert_eq!(slot.initialize(), Ok(()));
    slot.teardown();
    assert!(!slot.is_present());
    assert_eq!(slot.read(), Err(SlotError::EmptyThreadLocal));
    slot.teardown();
    assert!(!slot.is_present());
}

#[test]
fn install_takes_the_object_in() {
    let mut slot = ThreadLocalSlot::new();
    assert_eq!(slot.install(TLSObject::new()), Ok(()));
    assert!(slot.is_present());
    assert_eq!(slot.read(), Ok(42));
}

#[test]
fn failed_allocation_leaves_an_absent_slot_absent() {
    let mut slot = ThreadLocalSlot::new();
    assert_eq!(slot.install(None), Err(SlotError::AllocationFailure));
    assert!(!slot.is_present());
    assert_eq!(slot.read(), Err(SlotError::EmptyThreadLocal));
}

#[test]
fn failed_allocation_leaves_a_present_slot_present() {
    let mut slot = ThreadLocalSlot::new();
    assert_eq!(slot.initialize(), Ok(()));
    assert_eq!(slot.install(None), Err(SlotError::AllocationFailure));
    assert!(slot.is_present());
    assert_eq!(slot.read(), Ok(42));
}

#[test]
fn two_slots_do_not_touch_each_other() {
    let mut a = ThreadLocalSlot::new();
    let mut b = ThreadLocalSlot::new();

    assert_eq!(a.initialize(), Ok(()));
    assert_eq!(b.read(), Err(SlotError::EmptyThreadLocal));

    assert_eq!(b.initialize(), Ok(()));
    a.destroy();
    assert_eq!(a.read(), Err(SlotError::EmptyThreadLocal));
    assert_eq!(b.read(), Ok(42));

    assert_eq!(a.initialize(), Ok(()));
    b.teardown();
    assert_eq!(a.read(), Ok(42));
    assert_eq!(b.read(), Err(SlotError::EmptyThreadLocal));
}

#[test]
fn errors_compare_by_variant() {
    assert_eq!(SlotError::EmptyThreadLocal, SlotError::EmptyThreadLocal);
    assert_ne!(SlotError::EmptyThreadLocal, SlotError::AllocationFailure);
    assert_eq!(format!("{:?}", SlotError::AllocationFailure), "AllocationFailure");
}

#[test]
fn storage_that_was_given_holds_the_fresh_value() {
    let mut storage: Vec<i32> = Vec::new();
    let reserved = storage.try_reserve(1);
    assert!(reserved.is_ok());
    let object = TLSObject::from_storage(storage, reserved).expect("the storage was given");
    assert_eq!(object.get_value(), 42);
}

#[test]
fn storage_that_held_something_holds_only_the_fresh_value() {
    let mut storage: Vec<i32> = vec![7, 8, 9];
    let reserved = storage.try_reserve(1);
    assert!(reserved.is_ok());
    let object = TLSObject::from_storage(storage, reserved).expect("the storage was given");
    assert_eq!(object.get_value(), 42);
}

#[test]
fn storage_that_was_refused_makes_no_object() {
    let mut storage: Vec<i32> = Vec::new();
    let reserved = storage.try_reserve(usize::MAX);
    assert!(reserved.is_err());
    assert!(TLSObject::from_storage(storage, reserved).is_none());
}

#[test]
fn refused_storage_fails_the_install_and_keeps_the_value() {
    let mut slot = ThreadLocalSlot::new();
    assert_eq!(slot.initialize(), Ok(()));
    let mut storage: Vec<i32> = Vec::new();
    let reserved = storage.try_reserve(usize::MAX);
    let allocation = TLSObject::from_storage(storage, reserved);
    assert_eq!(slot.install(allocation), Err(SlotError::AllocationFailure));
    assert_eq!(slot.read(), Ok(42));
}

#[test]
fn new_slot_has_not_ended() {
    let slot = ThreadLocalSlot::new();
    assert!(!slot.has_ended());
}

#[test]
fn destroy_does_not_end_the_thread() {
    let mut slot = ThreadLocalSlot::new();
    assert_eq!(slot.initialize(), Ok(()));
    slot.destroy();
    assert!(!slot.has_ended());
    assert_eq!(slot.initialize(), Ok(()));
    assert_eq!(slot.read(), Ok(42));
}

#[test]
fn initialize_after_teardown_fails_and_the_slot_stays_absent() {
    let mut slot = ThreadLocalSlot::new();
    assert_eq!(slot.initialize(), Ok(()));
    slot.teardown();
    assert!(slot.has_ended());
    assert_eq!(slot.initialize(), Err(SlotError::AllocationFailure));
    assert!(!slot.is_present());
    assert_eq!(slot.read(), Err(SlotError::EmptyThreadLocal));
    assert!(slot.has_ended());
}

#[test]
fn install_after_teardown_fails_and_the_slot_stays_absent() {
    let mut slot = ThreadLocalSlot::new();
    slot.teardown();
    let object = TLSObject::new();
    assert!(object.is_some());
    assert_eq!(slot.install(object), Err(SlotError::AllocationFailure));
    assert!(!slot.is_present());
    assert_eq!(slot.read(), Err(SlotError::EmptyThreadLocal));
}

#[test]
fn destroy_and_teardown_after_teardown_change_nothing() {
    let mut slot = ThreadLocalSlot::new();
    assert_eq!(slot.initialize(), Ok(()));
    slot.teardown();
    slot.destroy();
    assert!(slot.has_ended());
    assert!(!slot.is_present());
    slot.teardown();
    assert!(slot.has_ended());
    assert_eq!(slot.read(), Err(SlotError::EmptyThreadLocal));
}

#[test]
fn teardown_of_an_untouched_slot_ends_it() {
    let mut slot = ThreadLocalSlot::new();
    slot.teardown();
    assert!(slot.has_ended());
    assert_eq!(slot.initialize(), Err(SlotError::AllocationFailure));
    assert_eq!(slot.read(), Err(SlotError::EmptyThreadLocal));
}

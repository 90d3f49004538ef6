//! The reference-lifetime protocol, exercised against the mock runtime.

use jvm_handles::array::jvm_int_array::MyJvmIntArray;
use jvm_handles::array::jvm_object_array::MyJvmObjectArray;
use jvm_handles::jvm_class::JvmClass;
use jvm_handles::mock_jvm::MockJvm;
use jvm_handles::promotion::{promote, promotion_begin, promotion_finish, PromotionStep};

#[test]
fn create_int_array_reports_length() {
    let mut m = MockJvm::new();
    let a = MyJvmIntArray::new(&mut m, 10).expect("creation must succeed");
    assert_eq!(a.get_length(&m), 10);
    assert_ne!(a.jvm_array_ptr(), 0);
}

#[test]
fn create_int_array_of_length_zero() {
    let mut m = MockJvm::new();
    let a = MyJvmIntArray::new(&mut m, 0).expect("creation must succeed");
    assert_eq!(a.get_length(&m), 0);
}

#[test]
fn create_int_array_rejects_negative_length() {
    let mut m = MockJvm::new();
    let a = MyJvmIntArray::new(&mut m, -1);
    assert!(a.is_none());
    assert_eq!(m.pin_count(), 0);
    assert_eq!(m.release_count(), 0);
}

#[test]
fn null_transient_is_absent_without_registration() {
    let mut m = MockJvm::new();
    assert!(promote(&mut m, 0).is_none());
    assert!(MyJvmIntArray::from_array_ptr(&mut m, 0).is_none());
    assert!(MyJvmObjectArray::from_array_ptr(&mut m, 0).is_none());
    assert!(JvmClass::new(&mut m, 0).is_none());
    assert_eq!(m.pin_count(), 0);
    assert_eq!(m.release_count(), 0);
}

#[test]
fn int_array_allocation_failure_is_absent() {
    let mut m = MockJvm::new();
    m.set_fail_allocation(true);
    let a = MyJvmIntArray::new(&mut m, 10);
    assert!(a.is_none());
    assert_eq!(m.pin_count(), 0);
}

#[test]
fn cleared_failure_grants_again() {
    let mut m = MockJvm::new();
    m.set_fail_allocation(true);
    assert!(MyJvmIntArray::new(&mut m, 2).is_none());
    m.set_fail_allocation(false);
    let a = MyJvmIntArray::new(&mut m, 2).expect("creation must succeed");
    assert_eq!(a.get_length(&m), 2);
}

#[test]
fn failed_promotion_leaves_transient_untouched() {
    let mut m = MockJvm::new();
    m.set_fail_promotion(true);
    let a = MyJvmIntArray::from_array_ptr(&mut m, 42);
    assert!(a.is_none());
    // Nothing was registered, so nothing may ever be released for 42.
    assert_eq!(m.pin_count(), 0);
    assert_eq!(m.release_count(), 0);
}

#[test]
fn release_hands_back_the_pinned_handle() {
    let mut m = MockJvm::new();
    let a = MyJvmIntArray::from_array_ptr(&mut m, 42).expect("promotion must succeed");
    let pinned = a.jvm_array_ptr();
    assert_ne!(pinned, 42, "the pinned reference is a fresh handle");
    assert_eq!(m.pin_count(), 1);
    assert_eq!(m.pinned_at(0), pinned);
    a.release(&mut m);
    assert_eq!(m.release_count(), 1);
    assert_eq!(m.released_at(0), pinned);
}

fn hand_off(a: MyJvmIntArray) -> MyJvmIntArray {
    a
}

#[test]
fn moved_wrapper_releases_exactly_once() {
    let mut m = MockJvm::new();
    let a = MyJvmIntArray::new(&mut m, 3).expect("creation must succeed");
    let b = hand_off(a);
    let c = hand_off(b);
    c.release(&mut m);
    assert_eq!(m.release_count(), 1);
}

#[test]
fn object_array_reports_length() {
    let mut m = MockJvm::new();
    let class = JvmClass::new(&mut m, 7).expect("class promotion must succeed");
    let a = MyJvmObjectArray::new(&mut m, 4, &class, 0).expect("creation must succeed");
    assert_eq!(a.get_length(&m), 4);
}

#[test]
fn object_array_with_fill_object_reports_length() {
    let mut m = MockJvm::new();
    let class = JvmClass::new(&mut m, 7).expect("class promotion must succeed");
    let fill = JvmClass::new(&mut m, 8).expect("fill promotion must succeed");
    let a = MyJvmObjectArray::new(&mut m, 5, &class, fill.jvm_class_ptr())
        .expect("creation must succeed");
    assert_eq!(a.get_length(&m), 5);
}

#[test]
fn object_array_allocation_failure_is_absent() {
    let mut m = MockJvm::new();
    let class = JvmClass::new(&mut m, 7).expect("class promotion must succeed");
    let pins_before = m.pin_count();
    m.set_fail_allocation(true);
    let a = MyJvmObjectArray::new(&mut m, 4, &class, 0);
    assert!(a.is_none());
    assert_eq!(m.pin_count(), pins_before);
}

#[test]
fn object_array_rejects_negative_length() {
    let mut m = MockJvm::new();
    let class = JvmClass::new(&mut m, 7).expect("class promotion must succeed");
    let a = MyJvmObjectArray::new(&mut m, -1, &class, 0);
    assert!(a.is_none());
}

#[test]
fn class_wrap_and_release() {
    let mut m = MockJvm::new();
    let c = JvmClass::new(&mut m, 9).expect("class promotion must succeed");
    let pinned = c.jvm_class_ptr();
    assert_ne!(pinned, 0);
    c.release(&mut m);
    assert_eq!(m.release_count(), 1);
    assert_eq!(m.released_at(0), pinned);
}

#[test]
fn class_failed_promotion_is_absent() {
    let mut m = MockJvm::new();
    m.set_fail_promotion(true);
    assert!(JvmClass::new(&mut m, 9).is_none());
    assert_eq!(m.pin_count(), 0);
}

#[test]
fn create_scenario_valid_then_invalid_length() {
    let mut m = MockJvm::new();
    let a = MyJvmIntArray::new(&mut m, 10).expect("creation must succeed");
    assert_eq!(a.get_length(&m), 10);
    assert!(MyJvmIntArray::new(&mut m, -1).is_none());
}

#[test]
fn promotion_steps_decide_by_nullness() {
    assert_eq!(promotion_begin(0), PromotionStep::Done(None));
    assert_eq!(promotion_begin(5), PromotionStep::RequestPin(5));
    assert_eq!(promotion_finish(0), None);
    assert_eq!(promotion_finish(17), Some(17));
}

#[test]
fn promote_returns_fresh_nonnull_handle() {
    let mut m = MockJvm::new();
    let p = promote(&mut m, 5).expect("promotion must succeed");
    assert_ne!(p, 0);
    assert_eq!(m.pin_count(), 1);
    assert_eq!(m.pinned_at(0), p);
}

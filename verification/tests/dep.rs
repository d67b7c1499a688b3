//! The shared-ownership holder.

use std::sync::Arc;
use structify::Dep;

#[test]
fn new_holds_the_value() {
    let dep = Dep::new(41);
    assert_eq!(*dep.inner(), 41);
    assert_eq!(*dep.get(), 41);
    let text = Dep::new(String::from("shared"));
    assert_eq!(text.inner(), "shared");
}

#[test]
fn get_hands_out_handles_to_one_allocation() {
    let dep = Dep::new(vec![1, 2, 3]);
    let first = dep.get();
    let second = dep.get();
    assert!(Arc::ptr_eq(&first, &second));
    assert!(std::ptr::eq(dep.inner(), &*first));
    // The holder, and the two handles.
    assert_eq!(Arc::strong_count(&first), 3);
    assert_eq!(*first, vec![1, 2, 3]);
}

#[test]
fn from_a_bare_value_wraps_it() {
    let dep: Dep<i32> = Dep::from(7);
    assert_eq!(*dep.inner(), 7);
    let dep: Dep<&str> = "seven".into();
    assert_eq!(*dep.inner(), "seven");
}

#[test]
fn from_a_handle_adopts_it_without_copying() {
    let handle = Arc::new(String::from("adopted"));
    let dep: Dep<String> = Dep::from(handle.clone());
    assert_eq!(dep.inner(), "adopted");
    assert!(Arc::ptr_eq(&handle, &dep.get()));
    assert!(std::ptr::eq(dep.inner(), &*handle));
    let dep: Dep<String> = handle.clone().into();
    assert!(Arc::ptr_eq(&handle, &dep.get()));
}

#[test]
fn inner_lives_as_long_as_the_holder() {
    let dep = Dep::new(5u64);
    let alias = dep.inner();
    let handle = dep.get();
    assert_eq!(*alias + *handle, 10);
}

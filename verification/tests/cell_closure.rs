use xx_core::cell::{Cell, UnsafeCell};
use xx_core::closure::{Closure, FnCallOnce, OpaqueClosure};

#[test]
fn cell_get_set_replace() {
    let mut cell = Cell::new(3u32);
    assert_eq!(cell.get(), 3);
    cell.set(7);
    assert_eq!(cell.get(), 7);
    assert_eq!(cell.replace(9), 7);
    assert_eq!(cell.into_inner(), 9);
}

#[test]
fn cell_update_returns_new_value() {
    let mut cell = Cell::new(10u64);
    let v = cell.update(|x| x * 2 + 1);
    assert_eq!(v, 21);
    assert_eq!(cell.get(), 21);
}

#[test]
fn unsafe_cell_get_mut_writes_through() {
    let mut cell = UnsafeCell::new(vec![1u8, 2]);
    cell.get_mut().push(3);
    assert_eq!(cell.get(), &vec![1u8, 2, 3]);
    assert_eq!(cell.into_inner(), vec![1u8, 2, 3]);
}

#[test]
fn closure_passes_its_capture() {
    let closure = Closure::new(5u32, |capture: u32, arg: u32| capture * 10 + arg);
    assert_eq!(closure.call(7u32), 57);
}

#[test]
fn opaque_closure_calls_function() {
    let closure = OpaqueClosure::new(|s: &str| s.len());
    assert_eq!(closure.call("four"), 4);
}

#[test]
fn fn_call_once_hands_out_once() {
    let mut once = FnCallOnce::new(|x: i32| x - 1);
    let d = once.as_dyn();
    assert_eq!(d.call_once(10), 9);
}

#[test]
fn fn_call_once_hands_out_until_called() {
    let mut once = FnCallOnce::new(|x: i32| x + 1);
    let first = once.as_dyn();
    drop(first);
    let second = once.as_dyn();
    assert!(second.slot.is_some());
    assert_eq!(second.call_once(1), 2);
}

use std::cell::Cell;
use std::rc::Rc;

use unleakable::Lock;

#[test]
fn it_works() {
    let mut lock = Lock::new();
    let handle = lock.lock().fill(0i32);
    assert_eq!(*handle.deref(), 0i32);
}

#[test]
fn read_write_round_trip() {
    let mut lock = Lock::new();
    let mut handle = lock.lock().fill(0i32);
    assert_eq!(*handle.deref(), 0i32);
    *handle.deref_mut() = 42;
    assert_eq!(*handle.deref(), 42);
}

#[test]
fn fill_and_read_back_string() {
    let mut lock = Lock::new();
    let handle = lock.lock().fill(String::from("stored"));
    assert_eq!(handle.deref().as_str(), "stored");
}

#[test]
fn relocation_moves_value() {
    let mut destination = Lock::new();
    let mut source = Lock::new();
    let source_handle = source.lock().fill(7u8);
    let dest_handle = destination.lock().fill_from(source_handle);
    assert_eq!(*dest_handle.deref(), 7u8);
}

#[test]
fn relocated_value_writable_at_destination() {
    let mut destination = Lock::new();
    let mut source = Lock::new();
    let source_handle = source.lock().fill(String::from("before"));
    let mut dest_handle = destination.lock().fill_from(source_handle);
    *dest_handle.deref_mut() = String::from("after");
    assert_eq!(dest_handle.deref().as_str(), "after");
}

/// A resource that counts how many times its destructor has run.
struct Res {
    hits: Rc<Cell<u32>>,
}

impl Drop for Res {
    fn drop(&mut self) {
        self.hits.set(self.hits.get() + 1);
    }
}

#[test]
fn stored_value_drops_exactly_once() {
    let hits = Rc::new(Cell::new(0u32));
    {
        let mut lock = Lock::new();
        let _handle = lock.lock().fill(Res { hits: Rc::clone(&hits) });
        assert_eq!(hits.get(), 0);
    }
    assert_eq!(hits.get(), 1);
}

#[test]
fn relocated_value_drops_once_with_destination() {
    let hits = Rc::new(Cell::new(0u32));
    {
        let mut destination = Lock::new();
        {
            let mut source = Lock::new();
            let source_handle = source.lock().fill(Res { hits: Rc::clone(&hits) });
            let _dest_handle = destination.lock().fill_from(source_handle);
            assert_eq!(hits.get(), 0);
        }
        // The source lock is gone, but it was drained by the relocation:
        // the destructor has still not run.
        assert_eq!(hits.get(), 0);
    }
    // The destination lock is gone, and with it the value: exactly one drop.
    assert_eq!(hits.get(), 1);
}

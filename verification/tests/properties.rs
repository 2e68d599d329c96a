use std::cell::Cell;
use std::rc::Rc;

use trapdoor::triple::MontyHall;
use trapdoor::Trapdoor;

/// A payload that counts, in a shared tally, how often it is destroyed.
struct Counted(i32, Rc<Cell<u32>>);

impl Drop for Counted {
    fn drop(&mut self) {
        self.1.set(self.1.get() + 1);
    }
}

#[test]
fn handoff_with_value_then_take() {
    let (_tx, mut rx) = Trapdoor::with_value(5u32).split();
    assert_eq!(rx.take(), 5);
    assert_eq!(rx.try_take(), None);
}

#[test]
fn handoff_with_default_holds_default() {
    let (_tx, mut rx) = Trapdoor::<u32>::with_default().split();
    assert_eq!(*rx.peek(), 0);
    assert_eq!(rx.take(), 0);
}

#[test]
fn handoff_try_store_occupied_returns_value_unchanged() {
    let (mut tx, mut rx) = Trapdoor::new().split();
    assert_eq!(tx.try_store(&mut rx, 1i32), Ok(()));
    assert_eq!(tx.try_store(&mut rx, 2i32), Err(2));
    assert_eq!(rx.take(), 1);
}

#[test]
fn handoff_empty_try_take_and_try_peek_return_none() {
    let (_tx, mut rx) = Trapdoor::<i32>::new().split();
    assert_eq!(rx.try_peek(), None);
    assert_eq!(rx.try_take(), None);
}

#[test]
fn handoff_peek_leaves_value_in_place() {
    let (mut tx, mut rx) = Trapdoor::new().split();
    tx.store(&mut rx, 9i32);
    assert_eq!(*rx.peek(), 9);
    assert_eq!(rx.try_peek(), Some(&9));
    assert_eq!(rx.take(), 9);
}

#[test]
fn handoff_pending_value_destroyed_exactly_once() {
    let drops = Rc::new(Cell::new(0u32));
    let (mut tx, mut rx) = Trapdoor::new().split();
    tx.store(&mut rx, Counted(7, drops.clone()));
    std::mem::drop(tx);
    std::mem::drop(rx);
    assert_eq!(drops.get(), 1);
}

#[test]
fn handoff_taken_value_not_destroyed_again() {
    let drops = Rc::new(Cell::new(0u32));
    let (mut tx, mut rx) = Trapdoor::new().split();
    tx.store(&mut rx, Counted(7, drops.clone()));
    let v = rx.take();
    assert_eq!(drops.get(), 0);
    std::mem::drop(v);
    assert_eq!(drops.get(), 1);
    std::mem::drop(tx);
    std::mem::drop(rx);
    assert_eq!(drops.get(), 1);
}

#[test]
fn triple_with_default_holds_default() {
    let (_tx, mut rx) = MontyHall::<u64>::with_default().split();
    let handle = rx.load();
    assert_eq!(*rx.read(&handle), 0);
    rx.release(handle);
}

#[test]
fn triple_initial_value_destroyed_exactly_once_without_use() {
    let drops = Rc::new(Cell::new(0u32));
    let (tx, rx) = MontyHall::new(Counted(1, drops.clone())).split();
    std::mem::drop(tx);
    std::mem::drop(rx);
    assert_eq!(drops.get(), 1);
}

#[test]
fn triple_supersede_scenario_counts_each_destruction_once() {
    let drops = Rc::new(Cell::new(0u32));

    let (mut tx, mut rx) = MontyHall::new(Counted(1, drops.clone())).split();

    let h1 = rx.load();
    assert_eq!(rx.read(&h1).0, 1);

    tx.store(&mut rx, Counted(2, drops.clone()));
    // The value 2 was canonical only transiently: storing 3 supersedes it
    // while no handle pins it, so it is destroyed right there.
    tx.store(&mut rx, Counted(3, drops.clone()));
    assert_eq!(rx.read(&h1).0, 1);
    assert_eq!(drops.get(), 1);

    // The handle pinned the value 1 while it was superseded, so releasing
    // the handle destroys it.
    rx.release(h1);
    assert_eq!(drops.get(), 2);

    let h2 = rx.load();
    assert_eq!(rx.read(&h2).0, 3);
    rx.release(h2);

    // Teardown destroys the one remaining live value, 3.
    std::mem::drop(tx);
    std::mem::drop(rx);
    assert_eq!(drops.get(), 3);
}

#[test]
fn triple_write_through_canonical_handle_is_observed_later() {
    let (_tx, mut rx) = MontyHall::new(10i32).split();
    let handle = rx.load();
    rx.write(&handle, 11);
    assert_eq!(*rx.read(&handle), 11);
    rx.release(handle);
    let handle = rx.load();
    assert_eq!(*rx.read(&handle), 11);
    rx.release(handle);
}

#[test]
fn triple_write_through_stale_handle_dies_with_release() {
    let (mut tx, mut rx) = MontyHall::new(10i32).split();
    let handle = rx.load();
    tx.store(&mut rx, 20);
    // The handle's bucket was superseded: mutating through it is legal but
    // the mutation is discarded when the handle is released.
    rx.write(&handle, 11);
    assert_eq!(*rx.read(&handle), 11);
    rx.release(handle);
    let handle = rx.load();
    assert_eq!(*rx.read(&handle), 20);
    rx.release(handle);
}

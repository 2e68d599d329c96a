use trapdoor::triple::MontyHall;
use trapdoor::Trapdoor;

struct DropObserver<'a>(&'a mut bool);

impl<'a> Drop for DropObserver<'a> {
    fn drop(&mut self) {
        *self.0 = true;
    }
}

/// Ensures that the value contained in a Trapdoor is dropped when the two halves are
#[test]
fn test_drop() {
    let (mut tx, mut rx) = Trapdoor::new().split();
    let mut did_drop = false;

    tx.store(&mut rx, DropObserver(&mut did_drop));
    std::mem::drop(tx);
    std::mem::drop(rx);

    assert!(did_drop);
}

/// Ensures that the trapdoor properly moves values instead of dropping/copying them
#[test]
fn test_move() {
    let (mut tx, mut rx) = Trapdoor::new().split();
    let mut did_drop = false;

    // We move the DropObserver into the trapdoor
    tx.store(&mut rx, DropObserver(&mut did_drop));
    // Take it from the trapdoor and forget it
    std::mem::forget(rx.take());

    // Drop the two ends
    std::mem::drop(tx);
    std::mem::drop(rx);

    // If the value was properly moved, this flag will remain unset as it was never dropped
    assert!(!did_drop);
}

/// Ensures that a matched store/take sequence works
#[test]
fn test_store_take() {
    // Some unique object, doesn't matter which
    let now = std::time::SystemTime::now();

    let (mut tx, mut rx) = Trapdoor::new().split();

    tx.store(&mut rx, now);
    match tx.try_store(&mut rx, now) {
        Ok(_) => panic!("Double store"),
        _ => {}
    }

    assert_eq!(rx.take(), now);
    match rx.try_take() {
        Some(_) => panic!("Double take"),
        _ => {}
    }
}

#[test]
fn test_store_load() {
    let (mut tx, mut rx) = MontyHall::new(1).split();

    let handle = rx.load();
    assert_eq!(*rx.read(&handle), 1);
    tx.store(&mut rx, 2);
    assert_eq!(*rx.read(&handle), 1);

    rx.release(handle);

    let handle = rx.load();
    assert_eq!(*rx.read(&handle), 2);
    tx.store(&mut rx, 3);
    tx.store(&mut rx, 4);
    assert_eq!(*rx.read(&handle), 2);

    rx.release(handle);

    let handle = rx.load();
    assert_eq!(*rx.read(&handle), 4);
    tx.store(&mut rx, 5);
    tx.store(&mut rx, 6);
    assert_eq!(*rx.read(&handle), 4);

    rx.release(handle);
    let handle = rx.load();
    assert_eq!(*rx.read(&handle), 6);
    rx.release(handle);
}

#[test]
fn integration_tests_test_drop() {
    let mut did_drop = false;
    let (tx, rx) = MontyHall::new(DropObserver(&mut did_drop)).split();

    std::mem::drop(tx);
    std::mem::drop(rx);

    assert!(did_drop);
}

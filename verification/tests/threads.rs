use crossbeam_utils::thread;
use mvar::{LockError, Mvar};

#[test]
fn put_once() {
    let v = Mvar::default();
    assert!(v.is_empty().unwrap());
    thread::scope(|s| {
        s.spawn(|_| {
            v.put("x").unwrap();
        });
        assert_eq!(v.take().unwrap(), "x");
        assert!(v.is_empty().unwrap());
    })
    .unwrap();
}

#[test]
fn put_twice() {
    let v = Mvar::default();
    thread::scope(|s| {
        let producer = s.spawn(|_| {
            v.put("x").unwrap();
            v.put("y").unwrap();
        });
        assert_eq!(v.take().unwrap(), "x");
        assert_eq!(v.take().unwrap(), "y");
        producer.join().unwrap();
    })
    .unwrap();
}

#[test]
fn take_blocks_until_put() {
    let v = Mvar::empty();
    thread::scope(|s| {
        let taker = s.spawn(|_| v.take().unwrap());
        v.put("x").unwrap();
        assert_eq!(taker.join().unwrap(), "x");
        assert!(v.is_empty().unwrap());
    })
    .unwrap();
}

#[test]
fn racing_try_puts_exactly_one_wins() {
    let v: Mvar<u32> = Mvar::empty();
    thread::scope(|s| {
        let a = s.spawn(|_| v.try_put(1).unwrap());
        let b = s.spawn(|_| v.try_put(2).unwrap());
        let first_won = a.join().unwrap();
        let second_won = b.join().unwrap();
        assert!(first_won != second_won);
        let stored = v.try_read().unwrap().unwrap();
        if first_won {
            assert_eq!(stored, 1);
        } else {
            assert_eq!(stored, 2);
        }
    })
    .unwrap();
}

#[test]
fn each_put_wakes_one_taker() {
    let v: Mvar<i32> = Mvar::empty();
    thread::scope(|s| {
        let takers: Vec<_> = (0..3).map(|_| s.spawn(|_| v.take().unwrap())).collect();
        for value in [10, 20, 30] {
            v.put(value).unwrap();
        }
        let mut got: Vec<i32> = takers.into_iter().map(|t| t.join().unwrap()).collect();
        got.sort();
        assert_eq!(got, vec![10, 20, 30]);
    })
    .unwrap();
}

#[test]
fn swap_never_exposes_empty() {
    let v = Mvar::new(0u32);
    thread::scope(|s| {
        let swapper = s.spawn(|_| {
            for i in 1..100u32 {
                let _ = v.swap(i).unwrap();
            }
        });
        for _ in 0..100 {
            assert!(v.try_read().unwrap().is_some());
        }
        swapper.join().unwrap();
    })
    .unwrap();
}

struct PanicOnClone;

impl Clone for PanicOnClone {
    fn clone(&self) -> Self {
        panic!("clone refused");
    }
}

#[test]
fn poisoned_lock_reports_error() {
    let v = Mvar::new(PanicOnClone);
    thread::scope(|s| {
        let reader = s.spawn(|_| {
            let _ = v.read();
        });
        assert!(reader.join().is_err());
    })
    .unwrap();
    assert_eq!(v.is_empty().unwrap_err(), LockError);
}

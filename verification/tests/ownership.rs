use fbvec::FbVec;
use std::cell::RefCell;
use std::rc::Rc;

/// An element that writes its id into a shared log when it is destroyed.
struct Logged {
    id: u32,
    log: Rc<RefCell<Vec<u32>>>,
}

impl Drop for Logged {
    fn drop(&mut self) {
        self.log.borrow_mut().push(self.id);
    }
}

fn new_log() -> Rc<RefCell<Vec<u32>>> {
    Rc::new(RefCell::new(Vec::new()))
}

fn logged(id: u32, log: &Rc<RefCell<Vec<u32>>>) -> Logged {
    Logged { id, log: Rc::clone(log) }
}

fn filled(n: u32, log: &Rc<RefCell<Vec<u32>>>) -> FbVec<Logged> {
    let mut v: FbVec<Logged> = FbVec::new();
    for id in 0..n {
        v.push(logged(id, log));
    }
    v
}

fn sorted(log: &Rc<RefCell<Vec<u32>>>) -> Vec<u32> {
    let mut ids: Vec<u32> = log.borrow().clone();
    ids.sort();
    ids
}

#[test]
fn growing_destroys_nothing() {
    let log = new_log();
    let v = filled(9, &log);
    assert_eq!(v.cap(), 16);
    assert!(log.borrow().is_empty());
    drop(v);
    assert_eq!(log.borrow().len(), 9);
}

#[test]
fn dropping_the_array_destroys_each_element_once_in_index_order() {
    let log = new_log();
    let v = filled(5, &log);
    drop(v);
    assert_eq!(*log.borrow(), vec![0, 1, 2, 3, 4]);
}

#[test]
fn pop_hands_ownership_to_the_caller() {
    let log = new_log();
    let mut v = filled(3, &log);
    let last = v.pop();
    assert!(log.borrow().is_empty());
    assert_eq!(last.as_ref().map(|t| t.id), Some(2));
    drop(last);
    assert_eq!(*log.borrow(), vec![2]);
    drop(v);
    assert_eq!(*log.borrow(), vec![2, 0, 1]);
}

#[test]
fn insert_and_remove_destroy_nothing_themselves() {
    let log = new_log();
    let mut v = filled(4, &log);
    v.insert(2, logged(100, &log));
    assert!(log.borrow().is_empty());
    let taken = v.remove(1);
    assert!(log.borrow().is_empty());
    assert_eq!(taken.id, 1);
    drop(taken);
    assert_eq!(*log.borrow(), vec![1]);
    drop(v);
    assert_eq!(*log.borrow(), vec![1, 0, 100, 2, 3]);
}

#[test]
fn index_mut_destroys_what_it_overwrites() {
    let log = new_log();
    let mut v = filled(2, &log);
    *v.index_mut(0) = logged(50, &log);
    assert_eq!(*log.borrow(), vec![0]);
    drop(v);
    assert_eq!(*log.borrow(), vec![0, 50, 1]);
}

#[test]
fn into_iter_consumed_destroys_each_element_once() {
    let log = new_log();
    let v = filled(4, &log);
    let mut it = v.into_iter();
    while let Some(t) = it.next() {
        drop(t);
    }
    assert_eq!(*log.borrow(), vec![0, 1, 2, 3]);
    drop(it);
    assert_eq!(*log.borrow(), vec![0, 1, 2, 3]);
}

#[test]
fn into_iter_dropped_early_destroys_the_rest() {
    let log = new_log();
    let v = filled(5, &log);
    let mut it = v.into_iter();
    let first = it.next();
    let last = it.next_back();
    assert!(log.borrow().is_empty());
    drop(it);
    assert_eq!(*log.borrow(), vec![1, 2, 3]);
    drop(first);
    drop(last);
    assert_eq!(sorted(&log), vec![0, 1, 2, 3, 4]);
}

#[test]
fn drain_consumed_destroys_each_element_once() {
    let log = new_log();
    let mut v = filled(3, &log);
    {
        let mut d = v.drain();
        while let Some(t) = d.next_back() {
            drop(t);
        }
    }
    assert_eq!(*log.borrow(), vec![2, 1, 0]);
    assert_eq!(v.len(), 0);
    drop(v);
    assert_eq!(*log.borrow(), vec![2, 1, 0]);
}

#[test]
fn drain_dropped_early_destroys_the_rest_at_once() {
    let log = new_log();
    let mut v = filled(5, &log);
    {
        let mut d = v.drain();
        let first = d.next();
        assert_eq!(first.map(|t| t.id), Some(0));
        assert_eq!(*log.borrow(), vec![0]);
    }
    assert_eq!(*log.borrow(), vec![0, 1, 2, 3, 4]);
    assert_eq!(v.len(), 0);
    assert_eq!(v.cap(), 8);
    v.push(logged(9, &log));
    drop(v);
    assert_eq!(*log.borrow(), vec![0, 1, 2, 3, 4, 9]);
}

#[test]
fn mixed_run_destroys_each_element_once() {
    let log = new_log();
    let mut v = filled(6, &log);
    drop(v.pop());
    drop(v.remove(2));
    v.insert(0, logged(10, &log));
    {
        let mut d = v.drain();
        drop(d.next());
    }
    v.push(logged(11, &log));
    v.push(logged(12, &log));
    let mut it = v.into_iter();
    drop(it.next_back());
    drop(it);
    assert_eq!(sorted(&log), vec![0, 1, 2, 3, 4, 5, 10, 11, 12]);
}

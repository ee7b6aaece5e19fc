use axplat::handler_table::HandlerTable;
use std::sync::atomic::{AtomicUsize, Ordering};

static FIRST_CALLS: AtomicUsize = AtomicUsize::new(0);
static SECOND_CALLS: AtomicUsize = AtomicUsize::new(0);
static OCCUPIED_CALLS: AtomicUsize = AtomicUsize::new(0);
static RACE_CALLS: AtomicUsize = AtomicUsize::new(0);

fn first_handler() {
    FIRST_CALLS.fetch_add(1, Ordering::SeqCst);
}

fn second_handler() {
    SECOND_CALLS.fetch_add(1, Ordering::SeqCst);
}

fn occupied_handler() {
    OCCUPIED_CALLS.fetch_add(1, Ordering::SeqCst);
}

fn race_handler() {
    RACE_CALLS.fetch_add(1, Ordering::SeqCst);
}

fn idle_handler() {}

#[test]
fn registered_handler_runs_once_per_dispatch_until_unregistered() {
    let mut table: HandlerTable<fn()> = HandlerTable::new(16);
    assert!(table.register_handler(5, first_handler as fn()));
    assert!(table.handle(5));
    assert_eq!(FIRST_CALLS.load(Ordering::SeqCst), 1);
    assert!(table.handle(5));
    assert_eq!(FIRST_CALLS.load(Ordering::SeqCst), 2);
    let removed = table.unregister_handler(5);
    assert!(removed.is_some());
    assert!(!table.handle(5));
    assert_eq!(FIRST_CALLS.load(Ordering::SeqCst), 2);
}

#[test]
fn register_on_occupied_slot_keeps_first_handler() {
    let mut table: HandlerTable<fn()> = HandlerTable::new(8);
    assert!(table.register_handler(3, occupied_handler as fn()));
    assert!(!table.register_handler(3, second_handler as fn()));
    assert!(table.handle(3));
    assert_eq!(OCCUPIED_CALLS.load(Ordering::SeqCst), 1);
    assert_eq!(SECOND_CALLS.load(Ordering::SeqCst), 0);
}

#[test]
fn unregister_empty_slot_returns_nothing() {
    let mut table: HandlerTable<fn()> = HandlerTable::new(8);
    assert!(table.unregister_handler(2).is_none());
    assert!(table.get_handler(2).is_none());
    assert!(table.register_handler(2, idle_handler as fn()));
}

#[test]
fn out_of_range_numbers_are_refused() {
    let mut table: HandlerTable<fn()> = HandlerTable::new(4);
    assert_eq!(table.capacity(), 4);
    assert!(!table.register_handler(4, idle_handler as fn()));
    assert!(!table.register_handler(usize::MAX, idle_handler as fn()));
    assert!(table.unregister_handler(4).is_none());
    assert!(!table.handle(4));
    assert!(table.get_handler(100).is_none());
}

#[test]
fn racing_registrations_yield_one_winner() {
    let mut table: HandlerTable<u32> = HandlerTable::new(8);
    let a = table.register_handler(6, 1);
    let b = table.register_handler(6, 2);
    assert!(a);
    assert!(!b);
    assert_eq!(table.get_handler(6), Some(1));

    let mut fns: HandlerTable<fn()> = HandlerTable::new(8);
    assert!(fns.register_handler(1, race_handler as fn()));
    assert!(!fns.register_handler(1, idle_handler as fn()));
    assert!(fns.handle(1));
    assert_eq!(RACE_CALLS.load(Ordering::SeqCst), 1);
}

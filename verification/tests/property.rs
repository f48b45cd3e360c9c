use std::cell::Cell;
use std::rc::Rc;

use stern::property::PropertyHandle;
use stern::worker::{worker_step, WorkerAction, WorkerEvent, WORKER_CHANNEL_BUF};
use stern::MappedPropertyHandle;

#[test]
fn property_handle_watch_step_returns_err_when_stream_ends() {
    let val = Rc::new(Cell::new(0));
    let mut prop = PropertyHandle::new({
        let val = val.clone();
        move |v| {
            val.set(v);
        }
    });

    assert!(prop.watch_step(Some(1)).is_ok());
    assert_eq!(val.get(), 1);
    assert!(prop.watch_step(Some(2)).is_ok());
    assert_eq!(val.get(), 2);
    assert!(prop.watch_step(None).is_err());
    assert_eq!(prop.get(), 2);
}

#[test]
fn property_handle_starts_at_default_and_reads_back_what_is_set() {
    let seen = Rc::new(Cell::new(-1));
    let mut prop = PropertyHandle::new({
        let seen = seen.clone();
        move |v: i32| seen.set(v)
    });
    assert_eq!(prop.get(), 0);
    prop.set(7);
    assert_eq!(prop.get(), 7);
    assert_eq!(*prop.get_ref(), 7);
    assert_eq!(seen.get(), 7);
}

#[test]
fn mapped_property_handle_maps_before_setting() {
    let seen = Rc::new(Cell::new(0i32));
    let mut prop = MappedPropertyHandle::new_mapped(
        {
            let seen = seen.clone();
            move |v: i32| seen.set(v)
        },
        |v: u32| (v as i32) * 2,
    );
    assert_eq!(prop.get(), 0u32);
    prop.set(21);
    assert_eq!(prop.get(), 21);
    assert_eq!(seen.get(), 42);
}

#[test]
fn mapped_property_handle_stores_strings() {
    let seen = Rc::new(std::cell::RefCell::new(String::new()));
    let mut prop = MappedPropertyHandle::new_mapped(
        {
            let seen = seen.clone();
            move |v: String| *seen.borrow_mut() = v
        },
        |v: String| v.to_uppercase(),
    );
    assert_eq!(prop.get_ref(), "");
    prop.set("hello".to_string());
    assert_eq!(prop.get_ref(), "hello");
    assert_eq!(*seen.borrow(), "HELLO");
}

#[test]
fn worker_loop_decisions() {
    assert_eq!(worker_step(WorkerEvent::TaskReceived), WorkerAction::SpawnAndContinue);
    assert_eq!(worker_step(WorkerEvent::Cancelled), WorkerAction::Stop);
    assert_eq!(WORKER_CHANNEL_BUF, 8);
}

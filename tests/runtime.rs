use std::cell::RefCell;
use std::collections::hash_map::DefaultHasher;
use std::hash::{Hash, Hasher};
use std::mem::ManuallyDrop;
use std::rc::Rc;

use drop_with_owned_fields::slot::{finalize, FieldsSlot};
use drop_with_owned_fields::{drop_with_owned_fields_annotation, DestructureFields, DropWithOwnedFields};

type Log = Rc<RefCell<Vec<&'static str>>>;

/// Something that must be handed over by value exactly once.
struct Resource {
    log: Log,
}

impl Resource {
    fn consume(self) {
        self.log.borrow_mut().push("consumed");
    }
}

/// A field that the finalizer does not bind.
struct Noisy {
    log: Log,
}

impl Drop for Noisy {
    fn drop(&mut self) {
        self.log.borrow_mut().push("noisy dropped");
    }
}

struct GuardFields {
    a: Resource,
    b: Noisy,
}

/// What the expansion of `struct Guard { a: Resource, b: Noisy }` defines.
struct Guard {
    manually_drop_fields: FieldsSlot<GuardFields>,
}

impl drop_with_owned_fields_annotation for Guard {}

impl DestructureFields for Guard {
    type Fields = GuardFields;
}

impl DropWithOwnedFields for Guard {
    fn drop(GuardFields { a, .. }: GuardFields) {
        a.log.borrow_mut().push("finalizer");
        a.consume();
    }
}

impl Drop for Guard {
    fn drop(&mut self) {
        finalize::<Guard>(&mut self.manually_drop_fields);
    }
}

impl Guard {
    fn new(fields: GuardFields) -> Guard {
        Guard { manually_drop_fields: FieldsSlot::new(fields) }
    }

    fn destructure_fields_disabling_impl_drop(self) -> GuardFields {
        let mut this = ManuallyDrop::new(self);
        this.manually_drop_fields.take()
    }
}

fn guard(log: &Log) -> Guard {
    Guard::new(GuardFields { a: Resource { log: log.clone() }, b: Noisy { log: log.clone() } })
}

#[test]
fn finalizer_consumes_once_at_end_of_scope() {
    let log: Log = Rc::new(RefCell::new(Vec::new()));
    {
        let _g = guard(&log);
        assert!(log.borrow().is_empty());
    }
    assert_eq!(*log.borrow(), vec!["finalizer", "consumed", "noisy dropped"]);
}

#[test]
fn bypass_never_runs_the_finalizer() {
    let log: Log = Rc::new(RefCell::new(Vec::new()));
    let fields = guard(&log).destructure_fields_disabling_impl_drop();
    assert!(log.borrow().is_empty());
    let GuardFields { a, b } = fields;
    drop(b);
    assert_eq!(*log.borrow(), vec!["noisy dropped"]);
    drop(a);
    assert_eq!(*log.borrow(), vec!["noisy dropped"]);
}

#[test]
fn unbound_fields_are_dropped_within_the_finalizer_call() {
    let log: Log = Rc::new(RefCell::new(Vec::new()));
    let g = guard(&log);
    drop(g);
    log.borrow_mut().push("after");
    assert_eq!(*log.borrow(), vec!["finalizer", "consumed", "noisy dropped", "after"]);
}

#[test]
fn finalize_empties_the_holder() {
    let log: Log = Rc::new(RefCell::new(Vec::new()));
    let mut slot = FieldsSlot::new(GuardFields { a: Resource { log: log.clone() }, b: Noisy { log: log.clone() } });
    assert!(slot.is_occupied());
    finalize::<Guard>(&mut slot);
    assert!(!slot.is_occupied());
    assert_eq!(*log.borrow(), vec!["finalizer", "consumed", "noisy dropped"]);
}

#[derive(Debug, Clone, Default, PartialEq, Eq, PartialOrd, Ord, Hash)]
struct PointFields {
    x: i32,
    name: String,
}

#[test]
fn wrap_then_unwrap_gives_the_record_back() {
    let record = PointFields { x: 7, name: "p".to_string() };
    let slot = FieldsSlot::new(record.clone());
    let mut slot = slot;
    assert_eq!(slot.take(), record);
    assert!(!slot.is_occupied());
}

#[test]
fn fields_are_read_and_written_through_the_holder() {
    let mut slot = FieldsSlot::new(PointFields { x: 1, name: "a".to_string() });
    assert_eq!(slot.get().x, 1);
    slot.get_mut().x = 5;
    slot.get_mut().name.push('b');
    assert!(slot.is_occupied());
    assert_eq!(slot.take(), PointFields { x: 5, name: "ab".to_string() });
    assert!(!slot.is_occupied());
}

fn hash_of<T: Hash>(t: &T) -> u64 {
    let mut h = DefaultHasher::new();
    t.hash(&mut h);
    h.finish()
}

#[test]
fn forwarded_capabilities_read_the_record() {
    let r1 = PointFields { x: 1, name: "a".to_string() };
    let r2 = PointFields { x: 2, name: "a".to_string() };
    let w1 = FieldsSlot::new(r1.clone());
    let w2 = FieldsSlot::new(r2.clone());
    assert_eq!(w1.get() == w2.get(), r1 == r2);
    assert_eq!(w1.get().cmp(w2.get()), r1.cmp(&r2));
    assert_eq!(hash_of(w1.get()), hash_of(&r1));
    assert_eq!(format!("{:?}", w1.get()), format!("{:?}", r1));
}

#[test]
fn reconstructive_capabilities_go_field_by_field() {
    let w = FieldsSlot::new(PointFields { x: 3, name: "c".to_string() });
    let cloned = FieldsSlot::new(PointFields { x: w.get().x.clone(), name: w.get().name.clone() });
    assert_eq!(cloned.get(), w.get());
    let default = FieldsSlot::new(PointFields { x: i32::default(), name: String::default() });
    assert_eq!(*default.get(), PointFields::default());
}

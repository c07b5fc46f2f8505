//! The holder that an owning wrapper keeps its companion record in.
//!
//! A holder is a two-state object: it starts occupied, and it is emptied
//! exactly once, either by the end-of-life hook (which then runs the
//! finalizer) or by the bypass operation (which hands the record back and
//! never runs the finalizer). No operation makes it occupied again. The
//! holder keeps, as ghost state, the history of what emptied it.
use vstd::prelude::*;

use crate::DropWithOwnedFields;

verus! {

/// What can empty a holder.
pub ghost enum SlotEvent {
    /// The end-of-life hook: the finalizer runs on the record.
    Finalize,
    /// The bypass operation: the record is handed back, no finalizer runs.
    Bypass,
}

/// Whether the holder is occupied after event `e`, starting from
/// `occupied`; `None` where `e` cannot happen in that state.
pub open spec fn slot_step(occupied: bool, e: SlotEvent) -> Option<bool> {
    if occupied {
        Some(false)
    } else {
        None
    }
}

/// Whether the holder is occupied after the events `trace`, starting from
/// `occupied`; `None` where one of them cannot happen.
pub open spec fn slot_run(occupied: bool, trace: Seq<SlotEvent>) -> Option<bool>
    decreases trace.len(),
{
    if trace.len() == 0 {
        Some(occupied)
    } else {
        match slot_run(occupied, trace.drop_last()) {
            Some(o) => slot_step(o, trace.last()),
            None => None,
        }
    }
}

/// How many times event `e` occurs in `trace`.
pub open spec fn occurrences(trace: Seq<SlotEvent>, e: SlotEvent) -> nat
    decreases trace.len(),
{
    if trace.len() == 0 {
        0
    } else {
        occurrences(trace.drop_last(), e) + if trace.last() == e { 1nat } else { 0nat }
    }
}

/// Over the life of a holder, which starts occupied: the finalizer runs at
/// most once, never together with the bypass; and once the holder is
/// emptied, exactly one of the two has happened.
pub proof fn lemma_finalizer_runs_at_most_once(trace: Seq<SlotEvent>)
    requires
        slot_run(true, trace).is_some(),
    ensures
        occurrences(trace, SlotEvent::Finalize) + occurrences(trace, SlotEvent::Bypass) <= 1,
        slot_run(true, trace) == Some(true) ==> occurrences(trace, SlotEvent::Finalize) + occurrences(
            trace,
            SlotEvent::Bypass,
        ) == 0,
        slot_run(true, trace) == Some(false) ==> occurrences(trace, SlotEvent::Finalize) + occurrences(
            trace,
            SlotEvent::Bypass,
        ) == 1,
    decreases trace.len(),
{
    if trace.len() > 0 {
        lemma_finalizer_runs_at_most_once(trace.drop_last());
    }
}

/// A non-finalizing holder of a companion record.
pub struct FieldsSlot<F> {
    fields: Option<F>,
    history: Ghost<Seq<SlotEvent>>,
}

impl<F> View for FieldsSlot<F> {
    type V = Option<F>;

    /// `Some(record)` while occupied, `None` once emptied.
    closed spec fn view(&self) -> Option<F> {
        self.fields
    }
}

/// A fresh holder of `record`: occupied, with an empty history.
pub closed spec fn wrapped<F>(record: F) -> FieldsSlot<F> {
    FieldsSlot { fields: Some(record), history: Ghost(Seq::empty()) }
}

/// The bypass on holder `s`: the record it held, and the holder emptied.
pub closed spec fn taken<F>(s: FieldsSlot<F>) -> (F, FieldsSlot<F>) {
    (s.fields.unwrap(), FieldsSlot { fields: None, history: Ghost(s.history@.push(SlotEvent::Bypass)) })
}

impl<F> FieldsSlot<F> {
    /// What has emptied the holder so far.
    pub closed spec fn history(&self) -> Seq<SlotEvent> {
        self.history@
    }

    /// The holder is occupied exactly when its history, started occupied,
    /// has not emptied it.
    pub closed spec fn wf(&self) -> bool {
        slot_run(true, self.history@) == Some(self.fields.is_some())
    }

    /// The wrap conversion: moves a record into a fresh, occupied holder.
    pub fn new(fields: F) -> (r: Self)
        ensures
            r == wrapped(fields),
            r@ == Some(fields),
            r.history() == Seq::<SlotEvent>::empty(),
            r.wf(),
    {
        FieldsSlot { fields: Some(fields), history: Ghost(Seq::empty()) }
    }

    pub fn is_occupied(&self) -> (r: bool)
        ensures
            r == self@.is_some(),
    {
        self.fields.is_some()
    }

    /// Read access to the held record.
    pub fn get(&self) -> (r: &F)
        requires
            self@.is_some(),
        ensures
            Some(*r) == self@,
    {
        self.fields.as_ref().unwrap()
    }

    /// Write access to the held record; the holder stays occupied.
    pub fn get_mut(&mut self) -> (r: &mut F)
        requires
            old(self)@.is_some(),
        ensures
            Some(*r) == old(self)@,
            final(self)@ == Some(*final(r)),
            final(self).history() == old(self).history(),
            old(self).wf() ==> final(self).wf(),
    {
        self.fields.as_mut().unwrap()
    }

    /// Moves the record out, leaving the holder emptied with `e` recorded.
    fn empty(&mut self, e: Ghost<SlotEvent>) -> (r: F)
        requires
            old(self)@.is_some(),
        ensures
            Some(r) == old(self)@,
            final(self)@.is_none(),
            final(self).history() == old(self).history().push(e@),
            old(self).wf() ==> final(self).wf(),
    {
        let r = self.fields.take().unwrap();
        self.history = Ghost(self.history@.push(e@));
        proof {
            assert(self.history@.drop_last() =~= old(self).history@);
        }
        r
    }

    /// The bypass operation: moves the record out and leaves the holder
    /// emptied, without any finalizer being run.
    pub fn take(&mut self) -> (r: F)
        requires
            old(self)@.is_some(),
        ensures
            (r, *final(self)) == taken(*old(self)),
            Some(r) == old(self)@,
            final(self)@.is_none(),
            final(self).history() == old(self).history().push(SlotEvent::Bypass),
            old(self).wf() ==> final(self).wf(),
    {
        let r = self.empty(Ghost(SlotEvent::Bypass));
        proof {
            assert(self.history@ == taken(*old(self)).1.history@);
        }
        r
    }
}

/// Wrapping a record and then bypassing the finalizer gives the record
/// back, and leaves a holder that only the bypass has emptied.
pub proof fn lemma_wrap_then_bypass<F>(record: F)
    ensures
        taken(wrapped(record)).0 == record,
        taken(wrapped(record)).1@.is_none(),
        taken(wrapped(record)).1.history() == seq![SlotEvent::Bypass],
        taken(wrapped(record)).1.wf(),
{
    assert(Seq::<SlotEvent>::empty().push(SlotEvent::Bypass) =~= seq![SlotEvent::Bypass]);
    assert(seq![SlotEvent::Bypass].drop_last() =~= Seq::<SlotEvent>::empty());
    assert(slot_run(true, Seq::<SlotEvent>::empty()) == Some(true));
    assert(slot_run(true, seq![SlotEvent::Bypass]) == Some(false));
}

/// Whatever happened to a well-formed holder, the finalizer has run at most
/// once and never after the bypass; an occupied holder has seen neither, an
/// emptied one exactly one of them.
pub proof fn lemma_holder_finalized_at_most_once<F>(s: FieldsSlot<F>)
    requires
        s.wf(),
    ensures
        occurrences(s.history(), SlotEvent::Finalize) + occurrences(s.history(), SlotEvent::Bypass)
            <= 1,
        s@.is_some() ==> occurrences(s.history(), SlotEvent::Finalize) + occurrences(
            s.history(),
            SlotEvent::Bypass,
        ) == 0,
        s@.is_none() ==> occurrences(s.history(), SlotEvent::Finalize) + occurrences(
            s.history(),
            SlotEvent::Bypass,
        ) == 1,
{
    lemma_finalizer_runs_at_most_once(s.history());
}

/// The end-of-life hook: empties the holder, records the finalizer's run,
/// and hands the record it held, by value, to the owning finalizer of `T`
/// (the finalizer has run on exactly that record when the hook returns).
pub fn finalize<T: DropWithOwnedFields>(slot: &mut FieldsSlot<T::Fields>)
    requires
        old(slot)@.is_some(),
    ensures
        call_ensures(<T as DropWithOwnedFields>::drop, (old(slot)@.unwrap(),), ()),
        final(slot)@.is_none(),
        final(slot).history() == old(slot).history().push(SlotEvent::Finalize),
        old(slot).wf() ==> final(slot).wf(),
{
    let fields = slot.empty(Ghost(SlotEvent::Finalize));
    <T as DropWithOwnedFields>::drop(fields);
}

} // verus!

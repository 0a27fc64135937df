//! The events of one poll of the platform's queue.

use vstd::prelude::*;
use crate::event::Event;
use crate::sdl_event::{translate_event, translate_spec, NativeEvent};

verus! {

/// The events that the first `taken` records of `pending` stand for, in
/// the order of the records.
pub open spec fn translated(pending: Seq<NativeEvent>, taken: int) -> Seq<Event> {
    Seq::new(taken as nat, |i: int| translate_spec(pending[i]))
}

/// The events of one poll, translated and kept in a buffer that is
/// emptied, not given up, when the next poll begins.
///
/// The platform's queue is read by the caller, record by record:
/// [`SdlEventSource::begin_poll`] first, then [`SdlEventSource::accept`]
/// for each record that the queue holds, then
/// [`SdlEventSource::events`].
#[derive(Debug)]
pub struct SdlEventSource {
    buffer: Vec<Event>,
}

impl SdlEventSource {
    /// The events of the last poll, in the order of their arrival.
    pub closed spec fn view(&self) -> Seq<Event> {
        self.buffer@
    }

    /// A source that has not polled yet.
    pub fn new() -> (source: SdlEventSource)
        ensures
            source@ == Seq::<Event>::empty(),
    {
        SdlEventSource { buffer: Vec::new() }
    }

    /// Begins a poll: the events of the poll before are dropped.
    pub fn begin_poll(&mut self)
        ensures
            final(self)@ == Seq::<Event>::empty(),
    {
        self.buffer.clear();
    }

    /// Takes the next record of the platform's queue: whatever its tag,
    /// it leaves the one event that it stands for, after those of the
    /// records before it.
    pub fn accept(&mut self, native: NativeEvent)
        ensures
            final(self)@ == old(self)@.push(translate_spec(native)),
    {
        self.buffer.push(translate_event(native));
    }

    /// The events of the last poll, in the order of their arrival.
    pub fn events(&self) -> (events: &[Event])
        ensures
            events@ == self@,
    {
        self.buffer.as_slice()
    }

    /// One whole poll over the records `pending`, which are those that
    /// the platform's queue holds, in its order: every record is
    /// translated to one event, in order, and nothing of an earlier poll
    /// is left.
    pub fn poll_from(&mut self, pending: &[NativeEvent]) -> (events: &[Event])
        ensures
            events@ == final(self)@,
            final(self)@ == translated(pending@, pending@.len() as int),
            final(self)@.len() == pending@.len(),
    {
        self.begin_poll();
        let mut i: usize = 0;
        while i < pending.len()
            invariant
                i <= pending.len(),
                self@ =~= translated(pending@, i as int),
            decreases pending.len() - i,
        {
            self.accept(pending[i]);
            i += 1;
        }
        self.buffer.as_slice()
    }
}

impl Default for SdlEventSource {
    fn default() -> (source: SdlEventSource)
        ensures
            source@ == Seq::<Event>::empty(),
    {
        SdlEventSource::new()
    }
}

} // verus!

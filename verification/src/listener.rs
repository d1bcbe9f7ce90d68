use vstd::prelude::*;

use crate::reading::reading_of_word;
use crate::reading::word_to_reading;

verus! {

/// The single-slot listener: the adapter between the transport's raw
/// three-word upcall convention and the application. It records the reading
/// carried by the last upcall that reached it, and how often one did, so that
/// both the synchronous wrapper and the tests can observe deliveries.
#[derive(Clone, Copy, Debug, PartialEq, Eq, Structural)]
pub struct HumidityListener {
    /// The reading carried by the most recent delivery, if any happened.
    pub reading: Option<i32>,
    /// How many upcalls have been delivered to this listener. The count
    /// saturates at the machine limit, which no finite run reaches.
    pub count: u64,
}

/// The listener after one delivery carrying the raw word `w`: the word
/// reinterpreted as a signed reading is stored, and the invocation count grows
/// by one (saturating at the machine limit).
pub open spec fn spec_deliver(l: HumidityListener, w: u32) -> HumidityListener {
    HumidityListener {
        reading: Some(reading_of_word(w)),
        count: if l.count == u64::MAX {
            l.count
        } else {
            (l.count + 1) as u64
        },
    }
}

impl HumidityListener {
    /// A fresh listener: nothing delivered yet.
    pub fn new() -> (l: HumidityListener)
        ensures
            l == (HumidityListener { reading: None, count: 0 }),
    {
        HumidityListener { reading: None, count: 0 }
    }

    /// Receives one upcall in the driver's wire convention: one meaningful
    /// word and two reserved ones. The first word is reinterpreted as a
    /// signed reading and stored; the reserved words are discarded.
    pub fn upcall(&mut self, arg0: u32, _arg1: u32, _arg2: u32)
        ensures
            *final(self) == spec_deliver(*old(self), arg0),
    {
        let value = word_to_reading(arg0);
        self.reading = Some(value);
        if self.count < u64::MAX {
            self.count = self.count + 1;
        }
    }
}

} // verus!

//! The events that a device reports.

use vstd::prelude::*;

use crate::bytes::{
    lemma_word16_is_read_back, lemma_word32_is_read_back, lemma_words_of_signed_numbers, push_i32,
    push_u16, push_zeros, word16_at, word16_bytes, word32, word32_at, word32_bytes, zeros, ByteOrder,
};

verus! {

/// An event of an input device. It carries no time: the kernel stamps it.
#[derive(Clone, Copy, Debug, PartialEq, Eq, Structural)]
pub struct InputEvent {
    pub type_: u16,
    pub code: u16,
    pub value: i32,
}

impl InputEvent {
    /// The record that is written to the device: a time of `time_size` bytes, all
    /// zero, then type, code and value.
    pub open spec fn record(self, order: ByteOrder, time_size: nat) -> Seq<u8> {
        zeros(time_size) + word16_bytes(order, self.type_ as int) + word16_bytes(
            order,
            self.code as int,
        ) + word32_bytes(order, word32(self.value as int))
    }

    /// Lays the record out in memory. `time_size` is the size of a `timeval` on
    /// this machine.
    pub fn to_record(&self, order: ByteOrder, time_size: usize) -> (bytes: Vec<u8>)
        ensures
            bytes@ == self.record(order, time_size as nat),
    {
        let mut bytes: Vec<u8> = Vec::new();
        push_zeros(&mut bytes, time_size);
        push_u16(&mut bytes, order, self.type_);
        push_u16(&mut bytes, order, self.code);
        push_i32(&mut bytes, order, self.value);
        bytes
    }
}

/// The record of an event can be read back: behind the time, which is zero, stand the
/// type, the code and the value.
pub proof fn lemma_event_record_reads_back(event: InputEvent, order: ByteOrder, time_size: nat)
    ensures
        ({
            let record = event.record(order, time_size);
            &&& record.len() == time_size + 8
            &&& forall|i: int| 0 <= i < time_size ==> record[i] == 0
            &&& word16_at(order, record, time_size as int) == event.type_
            &&& word16_at(order, record, time_size as int + 2) == event.code
            &&& (word32_at(order, record, time_size as int + 4) - event.value) % 0x1_0000_0000 == 0
        }),
{
    let record = event.record(order, time_size);
    let at = time_size as int;
    lemma_words_of_signed_numbers(event.value as int);
    lemma_word16_is_read_back(order, record, at, event.type_ as int);
    lemma_word16_is_read_back(order, record, at + 2, event.code as int);
    lemma_word32_is_read_back(order, record, at + 4, word32(event.value as int));
}

/// Different events have different records.
pub proof fn lemma_event_records_differ(
    e1: InputEvent,
    e2: InputEvent,
    order: ByteOrder,
    time_size: nat,
)
    requires
        e1.record(order, time_size) == e2.record(order, time_size),
    ensures
        e1 == e2,
{
    lemma_event_record_reads_back(e1, order, time_size);
    lemma_event_record_reads_back(e2, order, time_size);
}

/// What a call lays out can be read back as the event that it was made from.
pub proof fn lemma_calls_write_events_that_read_back(
    event: InputEvent,
    order: ByteOrder,
    time_size: usize,
    bytes: Vec<u8>,
)
    requires
        call_ensures(InputEvent::to_record, (&event, order, time_size), bytes),
    ensures
        bytes@.len() == time_size + 8,
        forall|i: int| 0 <= i < time_size ==> bytes@[i] == 0,
        word16_at(order, bytes@, time_size as int) == event.type_,
        word16_at(order, bytes@, time_size + 2) == event.code,
        (word32_at(order, bytes@, time_size + 4) - event.value) % 0x1_0000_0000 == 0,
{
    lemma_event_record_reads_back(event, order, time_size as nat);
}

} // verus!

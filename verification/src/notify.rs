//! The callbacks that report the start and the end of processes and threads.

use vstd::prelude::*;
use crate::error::STATUS_SUCCESS;
use crate::frame::{is_frame, WireError, MAX_FRAME};
use crate::irp::{completes, dispatched, IoStackLocation, Routed, IRP_MJ_READ};
use crate::ring::RING_CAPACITY;
use crate::state::DeviceState;
use crate::types::Event;

verus! {

/// The event that a state asks to signal after a record was published.
pub open spec fn signal_of(state: DeviceState) -> Option<usize> {
    match state.memmap {
        Some(map) => Some(map.event),
        None => None,
    }
}

/// What reporting `event` does to a device: its frame, which ends in its
/// only zero byte and is short, is published, and the answer names the
/// event to signal.
pub open spec fn reported(
    before: DeviceState,
    event: Event,
    after: DeviceState,
    answer: Result<Option<usize>, WireError>,
) -> bool {
    &&& is_frame(event.frame())
    &&& event.frame().len() <= MAX_FRAME
    &&& before.published(event.frame(), after)
    &&& answer == Ok::<Option<usize>, WireError>(signal_of(before))
}

/// The record of a process that was created (`create` is not zero) or has
/// ended.
pub fn process_record(parent_id: usize, process_id: usize, create: u8) -> (event: Event)
    ensures
        event == (Event::Process { parent_id, process_id, create: create != 0 }),
{
    Event::Process { parent_id, process_id, create: create != 0 }
}

/// The record of a thread that was created (`create` is not zero) or has
/// ended.
pub fn thread_record(process_id: usize, thread_id: usize, create: u8) -> (event: Event)
    ensures
        event == (Event::Thread { process_id, thread_id, create: create != 0 }),
{
    Event::Thread { process_id, thread_id, create: create != 0 }
}

/// A record reported to a device whose ring has room for a frame is in the
/// ring as a whole, behind what the ring held, and the answer names the
/// event of the mapping: one signal for one record.
pub proof fn lemma_record_reaches_ring(
    before: DeviceState,
    event: Event,
    after: DeviceState,
    answer: Result<Option<usize>, WireError>,
)
    requires
        before.wf(),
        before.memmap is Some,
        before.memmap->Some_0.mapped_base@.len() + MAX_FRAME <= RING_CAPACITY - 1,
        reported(before, event, after, answer),
    ensures
        after.memmap is Some,
        after.memmap->Some_0.mapped_base@ == before.memmap->Some_0.mapped_base@ + event.frame(),
        is_frame(event.frame()),
        answer == Ok::<Option<usize>, WireError>(Some(before.memmap->Some_0.event)),
{
}

/// Two records reported to a device with an empty queue are both in the
/// queue, whole and in order, and nothing else is.
pub proof fn lemma_two_records_are_queued(
    start: DeviceState,
    first: Event,
    middle: DeviceState,
    first_answer: Result<Option<usize>, WireError>,
    second: Event,
    end: DeviceState,
    second_answer: Result<Option<usize>, WireError>,
)
    requires
        start.queue@.len() == 0,
        reported(start, first, middle, first_answer),
        reported(middle, second, end, second_answer),
    ensures
        end.queue@ == first.frame() + second.frame(),
        end.queue@.len() <= 2 * MAX_FRAME,
{
    assert(start.queue@ + first.frame() =~= first.frame());
}

/// A read request that asks for enough bytes, after two records were
/// reported to a device with an empty queue, is completed with success and
/// with the two frames in order, and leaves the queue empty.
pub proof fn lemma_read_returns_both_records(
    start: DeviceState,
    first: Event,
    middle: DeviceState,
    first_answer: Result<Option<usize>, WireError>,
    second: Event,
    end: DeviceState,
    second_answer: Result<Option<usize>, WireError>,
    location: IoStackLocation,
    last: DeviceState,
    routed: Routed,
)
    requires
        start.queue@.len() == 0,
        reported(start, first, middle, first_answer),
        reported(middle, second, end, second_answer),
        location.major_function == IRP_MJ_READ,
        location.read_length >= 2 * MAX_FRAME,
        dispatched(Some(end), Some(location), Some(last), routed),
    ensures
        completes(routed, STATUS_SUCCESS, first.frame() + second.frame(), None),
        last.queue@ == Seq::<u8>::empty(),
{
    lemma_two_records_are_queued(
        start,
        first,
        middle,
        first_answer,
        second,
        end,
        second_answer,
    );
    assert(end.queue@.take(end.queue@.len() as int) =~= end.queue@);
    assert(end.queue@.skip(end.queue@.len() as int) =~= Seq::<u8>::empty());
}

/// Encodes `event` and publishes its frame on the device, if there is one.
/// Returns the event object to signal. A caller that shares the device
/// encodes first, with `Event::encode`, and takes its lock for
/// `DeviceState::publish` alone.
pub fn notify(state: Option<&mut DeviceState>, event: Event) -> (answer: Result<
    Option<usize>,
    WireError,
>)
    requires
        state matches Some(s) ==> s.wf(),
    ensures
        match state {
            Some(s) => reported(*s, event, *final(s), answer) && final(s).wf(),
            None => answer == Ok::<Option<usize>, WireError>(None),
        },
{
    match state {
        Some(s) => {
            match event.encode() {
                Ok(frame) => Ok(s.publish(frame.as_slice())),
                Err(e) => Err(e),
            }
        },
        None => Ok(None),
    }
}

/// Reports that a process was created (`create` is not zero) or has ended.
pub fn process_notify(
    state: Option<&mut DeviceState>,
    parent_id: usize,
    process_id: usize,
    create: u8,
) -> (answer: Result<Option<usize>, WireError>)
    requires
        state matches Some(s) ==> s.wf(),
    ensures
        match state {
            Some(s) => reported(
                *s,
                Event::Process { parent_id, process_id, create: create != 0 },
                *final(s),
                answer,
            ) && final(s).wf(),
            None => answer == Ok::<Option<usize>, WireError>(None),
        },
{
    notify(state, process_record(parent_id, process_id, create))
}

/// Reports that a thread was created (`create` is not zero) or has ended.
pub fn thread_notify(
    state: Option<&mut DeviceState>,
    process_id: usize,
    thread_id: usize,
    create: u8,
) -> (answer: Result<Option<usize>, WireError>)
    requires
        state matches Some(s) ==> s.wf(),
    ensures
        match state {
            Some(s) => reported(
                *s,
                Event::Thread { process_id, thread_id, create: create != 0 },
                *final(s),
                answer,
            ) && final(s).wf(),
            None => answer == Ok::<Option<usize>, WireError>(None),
        },
{
    notify(state, thread_record(process_id, thread_id, create))
}

} // verus!

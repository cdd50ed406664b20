//! The state that one device instance protects with its lock: the bounded
//! byte queue drained by read requests and the optional shared-memory
//! mapping.

use std::collections::VecDeque;
use vstd::prelude::*;
use crate::ring::{accepted, advanced, after_write, stored, SharedMemory};

verus! {

/// Largest number of bytes that the device queue holds.
pub const QUEUE_CAPACITY: usize = 1024;

/// The last `limit` elements of `bytes`, or all of them if there are fewer.
pub open spec fn newest(bytes: Seq<u8>, limit: int) -> Seq<u8> {
    if bytes.len() <= limit {
        bytes
    } else if limit <= 0 {
        Seq::empty()
    } else {
        bytes.subrange(bytes.len() - limit, bytes.len() as int)
    }
}

/// How many bytes a read request for `length` bytes takes from a queue that
/// holds `available`.
pub open spec fn granted(length: int, available: int) -> int {
    if length <= available {
        length
    } else {
        available
    }
}

/// What the queue keeps never exceeds its bound.
pub proof fn lemma_newest_bounded(bytes: Seq<u8>, limit: int)
    requires
        0 <= limit,
    ensures
        newest(bytes, limit).len() <= limit,
        newest(bytes, limit).len() <= bytes.len(),
{
}

/// Once at least as many bytes were pushed as the queue can hold, the queue
/// holds exactly the last of them, whatever it held before, in the order in
/// which they were pushed.
pub proof fn lemma_queue_keeps_newest(queue: Seq<u8>, data: Seq<u8>, limit: int)
    requires
        0 <= limit <= data.len(),
    ensures
        newest(queue + data, limit) == data.subrange(data.len() - limit, data.len() as int),
{
    assert(newest(queue + data, limit) =~= data.subrange(data.len() - limit, data.len() as int));
}

/// Pushing in two parts keeps what pushing at once keeps.
pub proof fn lemma_queue_pushes_compose(queue: Seq<u8>, a: Seq<u8>, b: Seq<u8>, limit: int)
    requires
        0 <= limit,
    ensures
        newest(newest(queue + a, limit) + b, limit) == newest(queue + a + b, limit),
{
    assert(newest(newest(queue + a, limit) + b, limit) =~= newest(queue + a + b, limit));
}

/// One step of giving a mapping back to the system.
pub enum Release {
    /// Unmap the view of the ring from system space.
    UnmapView(Box<SharedMemory>),
    /// Drop one reference to the object with this address.
    Dereference(usize),
}

/// A section mapped into system space together with the event that tells the
/// consumer about new data. The mapping owns both object references and the
/// view.
pub struct MemoryMap {
    pub section: usize,
    pub event: usize,
    pub mapped_base: Box<SharedMemory>,
    pub view_size: u64,
}

impl MemoryMap {
    pub open spec fn wf(&self) -> bool {
        self.mapped_base.wf()
    }

    /// Takes ownership of two referenced objects and of a mapped view, and
    /// resets the ring in the view before anybody can observe it.
    pub fn initialize(
        section: usize,
        event: usize,
        mapped_base: Box<SharedMemory>,
        view_size: u64,
    ) -> (map: Self)
        ensures
            map.section == section,
            map.event == event,
            map.view_size == view_size,
            map.mapped_base.read == 0,
            map.mapped_base.write == 0,
            map.mapped_base.buffer@ == Seq::new(4096, |i: int| 0u8),
            map.mapped_base@ == Seq::<u8>::empty(),
            map.wf(),
    {
        let mut mapped_base = mapped_base;
        *mapped_base = SharedMemory::new();
        MemoryMap { section, event, mapped_base, view_size }
    }

    /// The steps that give the mapping back, in the order in which they have
    /// to run: the view first, then the event, then the section.
    pub fn teardown(self) -> (steps: Vec<Release>)
        ensures
            steps@ == seq![
                Release::UnmapView(self.mapped_base),
                Release::Dereference(self.event),
                Release::Dereference(self.section),
            ],
    {
        let mut steps: Vec<Release> = Vec::new();
        steps.push(Release::UnmapView(self.mapped_base));
        steps.push(Release::Dereference(self.event));
        steps.push(Release::Dereference(self.section));
        assert(steps@ =~= seq![
            Release::UnmapView(self.mapped_base),
            Release::Dereference(self.event),
            Release::Dereference(self.section),
        ]);
        steps
    }
}

pub struct DeviceState {
    pub queue: VecDeque<u8>,
    pub memmap: Option<MemoryMap>,
}

impl DeviceState {
    /// The queue is within its bound and an installed mapping is valid.
    pub open spec fn wf(&self) -> bool {
        &&& self.queue@.len() <= QUEUE_CAPACITY
        &&& self.memmap matches Some(map) ==> map.wf()
    }

    /// The state after `data` was published: what the queue holds and what
    /// the ring of an installed mapping holds.
    pub open spec fn published(self, data: Seq<u8>, after: Self) -> bool {
        &&& after.queue@ == newest(self.queue@ + data, QUEUE_CAPACITY as int)
        &&& match self.memmap {
            Some(map) => {
                &&& after.memmap matches Some(next)
                &&& next.section == map.section
                &&& next.event == map.event
                &&& next.view_size == map.view_size
                &&& next.mapped_base.read == map.mapped_base.read
                &&& next.mapped_base@ == after_write(map.mapped_base@, data)
                &&& next.mapped_base.write == advanced(
                    map.mapped_base.write as int,
                    accepted(data, map.mapped_base.free()).len() as int,
                )
                &&& next.mapped_base.buffer@ == stored(
                    map.mapped_base.buffer@,
                    map.mapped_base.write as int,
                    accepted(data, map.mapped_base.free()),
                )
                &&& next.wf()
            },
            None => after.memmap is None,
        }
    }

    /// Tells whether the state is valid.
    pub fn is_wf(&self) -> (ok: bool)
        ensures
            ok == self.wf(),
    {
        if self.queue.len() > QUEUE_CAPACITY {
            return false;
        }
        match &self.memmap {
            Some(map) => map.mapped_base.is_wf(),
            None => true,
        }
    }

    /// An empty queue and no mapping.
    pub fn new() -> (state: Self)
        ensures
            state.queue@ == Seq::<u8>::empty(),
            state.memmap is None,
            state.wf(),
    {
        DeviceState { queue: VecDeque::with_capacity(QUEUE_CAPACITY), memmap: None }
    }

    /// Appends `data` to the queue and then evicts from the front until the
    /// queue is within its bound again.
    pub fn enqueue(&mut self, data: &[u8])
        ensures
            final(self).queue@ == newest(old(self).queue@ + data@, QUEUE_CAPACITY as int),
            final(self).memmap == old(self).memmap,
    {
        let mut i: usize = 0;
        assert(self.queue@ + data@.take(0) =~= self.queue@);
        while i < data.len()
            invariant
                i <= data.len(),
                self.queue@ == old(self).queue@ + data@.take(i as int),
                self.memmap == old(self).memmap,
            decreases data.len() - i,
        {
            self.queue.push_back(data[i]);
            assert(data@.take(i + 1) =~= data@.take(i as int).push(data@[i as int]));
            assert(old(self).queue@ + data@.take(i + 1) =~= (old(self).queue@ + data@.take(
                i as int,
            )).push(data@[i as int]));
            i += 1;
        }
        assert(data@.take(i as int) =~= data@);
        let ghost all = self.queue@;
        while self.queue.len() > QUEUE_CAPACITY
            invariant
                self.memmap == old(self).memmap,
                self.queue@.len() <= all.len(),
                all.len() <= QUEUE_CAPACITY ==> self.queue@ == all,
                all.len() > QUEUE_CAPACITY ==> self.queue@.len() >= QUEUE_CAPACITY,
                self.queue@ == all.subrange(all.len() - self.queue@.len(), all.len() as int),
            decreases self.queue@.len(),
        {
            self.queue.pop_front();
            assert(self.queue@ =~= all.subrange(all.len() - self.queue@.len(), all.len() as int));
        }
        assert(self.queue@ =~= newest(all, QUEUE_CAPACITY as int));
    }

    /// Serves a read request: takes up to `length` of the oldest bytes out
    /// of the queue.
    pub fn drain(&mut self, length: usize) -> (out: Vec<u8>)
        ensures
            out@ == old(self).queue@.take(granted(length as int, old(self).queue@.len() as int)),
            final(self).queue@ == old(self).queue@.skip(
                granted(length as int, old(self).queue@.len() as int),
            ),
            final(self).memmap == old(self).memmap,
    {
        let available = self.queue.len();
        let requested = if length < available { length } else { available };
        let mut out: Vec<u8> = Vec::new();
        let mut i: usize = 0;
        assert(self.queue@.skip(0) =~= self.queue@);
        while i < requested
            invariant
                i <= requested <= old(self).queue@.len(),
                out@ == old(self).queue@.take(i as int),
                self.queue@ == old(self).queue@.skip(i as int),
                self.memmap == old(self).memmap,
            decreases requested - i,
        {
            let byte = self.queue.pop_front();
            match byte {
                Some(b) => {
                    out.push(b);
                },
                None => {},
            }
            assert(out@ =~= old(self).queue@.take(i + 1));
            assert(self.queue@ =~= old(self).queue@.skip(i + 1));
            i += 1;
        }
        out
    }

    /// Installs `map` and hands back the mapping that was installed before,
    /// so that the caller tears it down after it has let go of the lock.
    pub fn replace_mapping(&mut self, map: MemoryMap) -> (previous: Option<MemoryMap>)
        ensures
            previous == old(self).memmap,
            final(self).memmap == Some(map),
            final(self).queue == old(self).queue,
    {
        let previous = self.memmap.take();
        self.memmap = Some(map);
        previous
    }

    /// Removes the installed mapping, if any, and hands it back for a
    /// teardown outside the lock.
    pub fn take_mapping(&mut self) -> (previous: Option<MemoryMap>)
        ensures
            previous == old(self).memmap,
            final(self).memmap is None,
            final(self).queue == old(self).queue,
    {
        self.memmap.take()
    }

    /// Publishes one encoded record: it always goes to the queue, and to the
    /// ring too if a mapping is installed. Returns the event to signal.
    pub fn publish(&mut self, data: &[u8]) -> (signal: Option<usize>)
        requires
            old(self).wf(),
        ensures
            old(self).published(data@, *final(self)),
            final(self).wf(),
            signal == match old(self).memmap {
                Some(map) => Some(map.event),
                None => None,
            },
    {
        self.enqueue(data);
        match &mut self.memmap {
            Some(memmap) => {
                memmap.mapped_base.write(data);
                Some(memmap.event)
            },
            None => None,
        }
    }
}

} // verus!

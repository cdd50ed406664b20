//! Fixed-capacity byte ring with one producer and one consumer.
//!
//! The ring lives in memory shared by the two sides. The producer only moves
//! the write cursor, the consumer only moves the read cursor, and one slot is
//! never filled so that equal cursors always mean "empty".
//!
//! A call describes one side's turn: for its duration it has the ring to
//! itself. Each call puts an acquire fence behind its loads of the cursors
//! and a release fence before the one store that moves its cursor, so that
//! the other side finds the bytes in place when it finds the cursor moved.

use vstd::prelude::*;
use crate::barrier::{acquire, release};

verus! {

/// Number of slots in the ring. At most `RING_CAPACITY - 1` bytes are live.
pub const RING_CAPACITY: usize = 4096;

/// The ring as it lies in the shared memory: the cursor of the consumer, the
/// cursor of the producer, and the slots.
pub struct SharedMemory {
    pub read: usize,
    pub write: usize,
    pub buffer: [u8; 4096],
}

/// The leading part of `data` that fits into `free` slots.
pub open spec fn accepted(data: Seq<u8>, free: int) -> Seq<u8> {
    if data.len() <= free {
        data
    } else if free <= 0 {
        Seq::empty()
    } else {
        data.take(free)
    }
}

/// The cursor that stands `count` slots behind `start`, going round at the
/// end of the buffer.
pub open spec fn advanced(start: int, count: int) -> int {
    if start + count < RING_CAPACITY {
        start + count
    } else {
        start + count - RING_CAPACITY
    }
}

/// How many slots `slot` stands behind `start`, going round at the end of
/// the buffer.
pub open spec fn distance(start: int, slot: int) -> int {
    if slot >= start {
        slot - start
    } else {
        slot + RING_CAPACITY - start
    }
}

/// Whether `slot` is one of the `count` slots from `start` on, going round
/// at the end of the buffer.
pub open spec fn in_run(start: int, count: int, slot: int) -> bool {
    distance(start, slot) < count
}

/// The slots after `bytes` went into the slots from `start` on.
pub open spec fn stored(slots: Seq<u8>, start: int, bytes: Seq<u8>) -> Seq<u8> {
    Seq::new(
        slots.len(),
        |slot: int|
            if in_run(start, bytes.len() as int, slot) {
                bytes[distance(start, slot)]
            } else {
                slots[slot]
            },
    )
}

/// The live bytes after `data` was offered to a ring that held `live`.
pub open spec fn after_write(live: Seq<u8>, data: Seq<u8>) -> Seq<u8> {
    live + accepted(data, RING_CAPACITY - 1 - live.len())
}

/// The live bytes after each chunk of `chunks` was offered in turn.
pub open spec fn after_writes(live: Seq<u8>, chunks: Seq<Seq<u8>>) -> Seq<u8>
    decreases chunks.len(),
{
    if chunks.len() == 0 {
        live
    } else {
        after_write(after_writes(live, chunks.drop_last()), chunks.last())
    }
}

/// All chunks joined in order.
pub open spec fn joined(chunks: Seq<Seq<u8>>) -> Seq<u8>
    decreases chunks.len(),
{
    if chunks.len() == 0 {
        Seq::empty()
    } else {
        joined(chunks.drop_last()) + chunks.last()
    }
}

impl View for SharedMemory {
    type V = Seq<u8>;

    /// The live bytes, oldest first.
    open spec fn view(&self) -> Seq<u8> {
        if self.read <= self.write {
            self.buffer@.subrange(self.read as int, self.write as int)
        } else {
            self.buffer@.subrange(self.read as int, RING_CAPACITY as int)
                + self.buffer@.subrange(0, self.write as int)
        }
    }
}

impl SharedMemory {
    /// Both cursors are offsets into the buffer.
    pub open spec fn wf(&self) -> bool {
        self.read < RING_CAPACITY && self.write < RING_CAPACITY
    }

    /// The ring with its write cursor at `write`.
    pub open spec fn moved_to(self, write: usize) -> Self {
        SharedMemory { write, ..self }
    }

    /// Slots that can still be filled.
    pub open spec fn free(&self) -> int {
        RING_CAPACITY - 1 - self@.len()
    }

    /// Tells whether both cursors are offsets into the buffer.
    pub fn is_wf(&self) -> (ok: bool)
        ensures
            ok == self.wf(),
    {
        self.read < RING_CAPACITY && self.write < RING_CAPACITY
    }

    /// An empty ring over a zeroed buffer.
    pub fn new() -> (ring: Self)
        ensures
            ring.wf(),
            ring.read == 0,
            ring.write == 0,
            ring.buffer@ == Seq::new(RING_CAPACITY as nat, |i: int| 0u8),
            ring@ == Seq::<u8>::empty(),
    {
        let ring = SharedMemory { read: 0, write: 0, buffer: [0u8; 4096] };
        assert(ring.buffer@ =~= Seq::new(RING_CAPACITY as nat, |i: int| 0u8));
        assert(ring@ =~= Seq::<u8>::empty());
        ring
    }

    /// Hands out every live byte, oldest first, and leaves the ring empty.
    pub fn read(&mut self) -> (out: Vec<u8>)
        requires
            old(self).wf(),
        ensures
            out@ == old(self)@,
            final(self)@ == Seq::<u8>::empty(),
            final(self).read == old(self).write,
            final(self).write == old(self).write,
            final(self).buffer == old(self).buffer,
            final(self).wf(),
    {
        let read = self.read;
        let write = self.write;
        acquire();
        let mut out: Vec<u8> = Vec::new();
        if read == write {
            assert(self@ =~= Seq::<u8>::empty());
            return out;
        }
        if read < write {
            copy_range(&self.buffer, read, write, &mut out);
            assert(out@ =~= self@);
        } else {
            copy_range(&self.buffer, read, RING_CAPACITY, &mut out);
            copy_range(&self.buffer, 0, write, &mut out);
            assert(out@ =~= self@);
        }
        // Everything seen is consumed: the cursor moves once the bytes are out.
        release();
        self.read = write;
        assert(self@ =~= Seq::<u8>::empty());
        out
    }

    /// Stores as much of the front of `data` as the free slots take and
    /// drops the rest. The bytes go into the slots from the write cursor on,
    /// the cursor ends behind the last of them, and every other slot keeps
    /// its byte.
    pub fn write(&mut self, data: &[u8])
        requires
            old(self).wf(),
        ensures
            final(self).wf(),
            final(self).read == old(self).read,
            final(self)@ == after_write(old(self)@, data@),
            final(self).write == advanced(
                old(self).write as int,
                accepted(data@, old(self).free()).len() as int,
            ),
            final(self).buffer@ == stored(
                old(self).buffer@,
                old(self).write as int,
                accepted(data@, old(self).free()),
            ),
            accepted(data@, old(self).free()).len() == 0 ==> *final(self) == *old(self),
    {
        let read = self.read;
        let start = self.write;
        acquire();
        let mut write = self.write;
        let mut i: usize = 0;
        let ghost count = accepted(data@, old(self).free()).len() as int;
        assert(self.buffer@ =~= stored(old(self).buffer@, start as int, data@.take(0)));
        assert(data@.take(0) =~= Seq::<u8>::empty());
        assert(self@ + Seq::<u8>::empty() =~= self@);
        while i < data.len()
            invariant_except_break
                self.moved_to(write)@ == old(self)@ + data@.take(i as int),
            invariant
                i <= data.len(),
                read < RING_CAPACITY,
                start < RING_CAPACITY,
                write < RING_CAPACITY,
                self.read == read,
                self.write == start,
                start == old(self).write,
                read == old(self).read,
                old(self).wf(),
                count == accepted(data@, old(self).free()).len(),
                self.moved_to(write)@.len() == old(self)@.len() + i,
                write == advanced(start as int, i as int),
                self.buffer@ == stored(old(self).buffer@, start as int, data@.take(i as int)),
            ensures
                self.read == read,
                self.write == start,
                write < RING_CAPACITY,
                self.moved_to(write)@ == after_write(old(self)@, data@),
                write == advanced(start as int, count),
                self.buffer@ == stored(
                    old(self).buffer@,
                    start as int,
                    accepted(data@, old(self).free()),
                ),
            decreases data.len() - i,
        {
            let next = if write + 1 == RING_CAPACITY { 0 } else { write + 1 };
            if next == read {
                assert(self.moved_to(write)@.len() == RING_CAPACITY - 1);
                assert(accepted(data@, RING_CAPACITY - 1 - old(self)@.len()) =~= data@.take(i as int));
                break;
            }
            let ghost before = self.moved_to(write);
            let ghost slots = self.buffer@;
            self.buffer[write] = data[i];
            assert(self.buffer@ =~= slots.update(write as int, data@[i as int]));
            assert(self.buffer@ =~= stored(old(self).buffer@, start as int, data@.take(i + 1)));
            write = next;
            assert(self.moved_to(write)@ =~= before@.push(data@[i as int]));
            assert(data@.take(i + 1) =~= data@.take(i as int).push(data@[i as int]));
            assert(before@.push(data@[i as int]) =~= old(self)@ + data@.take(i + 1));
            i += 1;
        }
        // The cursor moves once, after every byte is in its slot.
        release();
        self.write = write;
        proof {
            if count == 0 {
                assert(self.buffer@ =~= old(self).buffer@);
                assert(self.buffer == old(self).buffer);
            }
        }
    }
}

/// Writes whose lengths together fit into the free slots are all stored:
/// the ring then holds what it held before followed by every chunk, in
/// order. One `read` hands out exactly these bytes and leaves nothing for
/// the next.
pub proof fn lemma_writes_within_capacity(live: Seq<u8>, chunks: Seq<Seq<u8>>)
    requires
        live.len() + joined(chunks).len() <= RING_CAPACITY - 1,
    ensures
        after_writes(live, chunks) == live + joined(chunks),
    decreases chunks.len(),
{
    if chunks.len() == 0 {
        assert(live + joined(chunks) =~= live);
    } else {
        lemma_writes_within_capacity(live, chunks.drop_last());
        assert(live + joined(chunks) =~= (live + joined(chunks.drop_last())) + chunks.last());
    }
}

/// A write that asks for more than the free slots stores exactly as many of
/// its leading bytes as there are free slots, and fills the ring.
pub proof fn lemma_write_beyond_capacity(live: Seq<u8>, data: Seq<u8>)
    requires
        live.len() <= RING_CAPACITY - 1,
        data.len() > RING_CAPACITY - 1 - live.len(),
    ensures
        after_write(live, data) == live + data.take(RING_CAPACITY - 1 - live.len()),
        after_write(live, data).len() == RING_CAPACITY - 1,
{
    assert(data.take(0) =~= Seq::<u8>::empty());
}

/// Wherever the cursors of an empty ring stand, also close to the end of
/// the buffer, a write that fits is read back unchanged.
pub proof fn lemma_cycle_keeps_data(ring: SharedMemory, data: Seq<u8>)
    requires
        ring.wf(),
        ring.read == ring.write,
        data.len() <= RING_CAPACITY - 1,
    ensures
        after_write(ring@, data) == data,
{
    assert(ring@ =~= Seq::<u8>::empty());
    assert(Seq::<u8>::empty() + data =~= data);
}

/// A ring never holds more than one byte less than it has slots.
pub proof fn lemma_live_bytes_bounded(ring: SharedMemory)
    requires
        ring.wf(),
    ensures
        ring@.len() <= RING_CAPACITY - 1,
        ring.read == ring.write <==> ring@.len() == 0,
{
}

/// Appends `buffer[from..to]` to `out`.
fn copy_range(buffer: &[u8; 4096], from: usize, to: usize, out: &mut Vec<u8>)
    requires
        from <= to <= RING_CAPACITY,
    ensures
        final(out)@ == old(out)@ + buffer@.subrange(from as int, to as int),
{
    let mut pos: usize = from;
    assert(buffer@.subrange(from as int, from as int) =~= Seq::<u8>::empty());
    assert(out@ + Seq::<u8>::empty() =~= out@);
    while pos < to
        invariant
            from <= pos <= to <= RING_CAPACITY,
            out@ == old(out)@ + buffer@.subrange(from as int, pos as int),
        decreases to - pos,
    {
        out.push(buffer[pos]);
        assert(buffer@.subrange(from as int, pos + 1) =~= buffer@.subrange(
            from as int,
            pos as int,
        ).push(buffer@[pos as int]));
        pos += 1;
    }
}

} // verus!

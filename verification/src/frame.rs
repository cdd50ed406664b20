//! The wire format of event records: one self-delimiting frame per record.
//!
//! A frame is the compact encoding of the record's variant and fields, byte
//! stuffed so that no zero byte is left in it, and closed by a single zero
//! byte. A reader finds the end of each frame by looking for that byte.

use vstd::prelude::*;
use crate::ring::joined;
use crate::types::Event;

verus! {

/// The error of the serializer, `postcard::Error`. Nothing is known of a
/// value of it; the library only tells it from a success.
#[verifier::external_type_specification]
#[verifier::external_body]
pub struct ExPostcardError(postcard::Error);

/// What can go wrong between a record and its frame.
#[derive(Debug, Clone, Copy, PartialEq, Eq, Structural)]
pub enum WireError {
    /// The serializer reported an error.
    Encode,
    /// The bytes are not a frame of four fields.
    Malformed,
    /// The frame names a variant that no record has.
    UnknownVariant(u32),
    /// An identifier in the frame does not fit this machine's word.
    IdentifierTooLarge,
}

/// `bytes` is one frame: it ends in its only zero byte.
pub open spec fn is_frame(bytes: Seq<u8>) -> bool {
    &&& bytes.len() > 0
    &&& bytes.last() == 0
    &&& forall|i: int| 0 <= i < bytes.len() - 1 ==> bytes[i] != 0
}

/// No byte of `bytes` is zero.
pub open spec fn zero_free(bytes: Seq<u8>) -> bool {
    forall|i: int| 0 <= i < bytes.len() ==> bytes[i] != 0
}

/// Largest number of bytes in a frame: five for the variant, ten for each
/// identifier, one for the flag, one count byte and the closing zero.
pub const MAX_FRAME: usize = 28;

/// The frame that the serializer builds for a variant index, two identifiers
/// and a flag.
pub uninterp spec fn cobs_frame(variant: u32, first: u64, second: u64, flag: bool) -> Seq<u8>;

/// The four fields that the deserializer reads from a frame; `None` where it
/// reports an error.
pub uninterp spec fn cobs_fields(frame: Seq<u8>) -> Option<(u32, u64, u64, bool)>;

/// Calls `postcard::to_allocvec_cobs` on the tuple of the four fields. The
/// result is a function of the fields alone. The call succeeds, since the
/// growing buffer that it writes to takes every byte. The frame is the
/// encoded tuple after byte stuffing, which leaves no zero byte in it,
/// followed by the terminating zero byte. The tuple takes at most 26 bytes
/// (a 32-bit integer at most five, a 64-bit integer at most ten, the flag
/// one), the stuffing adds one count byte to fewer than 254 bytes, and the
/// terminator makes 28.
#[verifier::external_body]
fn to_allocvec_cobs(variant: u32, first: u64, second: u64, flag: bool) -> (r: Result<
    Vec<u8>,
    postcard::Error,
>)
    ensures
        r is Ok,
        r matches Ok(bytes) ==> bytes@ == cobs_frame(variant, first, second, flag),
        r matches Ok(bytes) ==> is_frame(bytes@),
        r matches Ok(bytes) ==> bytes@.len() <= MAX_FRAME,
{
    postcard::to_allocvec_cobs(&(variant, first, second, flag))
}

/// Calls `postcard::from_bytes_cobs` on a copy of `frame` and asks for a
/// tuple of four fields. The result is a function of the bytes alone.
#[verifier::external_body]
fn from_bytes_cobs(frame: &[u8]) -> (r: Result<(u32, u64, u64, bool), postcard::Error>)
    ensures
        r matches Ok(fields) ==> cobs_fields(frame@) == Some(fields),
        r is Err ==> cobs_fields(frame@) is None,
{
    let mut scratch = frame.to_vec();
    postcard::from_bytes_cobs::<(u32, u64, u64, bool)>(&mut scratch)
}

/// The record that four decoded fields stand for, or why there is none.
pub open spec fn record_of(fields: (u32, u64, u64, bool)) -> Result<Event, WireError> {
    let (variant, first, second, flag) = fields;
    if variant > 1 {
        Err(WireError::UnknownVariant(variant))
    } else if first > usize::MAX || second > usize::MAX {
        Err(WireError::IdentifierTooLarge)
    } else if variant == 0 {
        Ok(Event::Process { parent_id: first as usize, process_id: second as usize, create: flag })
    } else {
        Ok(Event::Thread { process_id: first as usize, thread_id: second as usize, create: flag })
    }
}

/// The four fields of a record stand for that record again.
pub proof fn lemma_fields_name_their_record(event: Event)
    ensures
        record_of((event.variant(), event.first(), event.second(), event.created())) == Ok::<
            Event,
            WireError,
        >(event),
{
}

/// Builds the record from four decoded fields.
pub fn record_from_fields(fields: (u32, u64, u64, bool)) -> (r: Result<Event, WireError>)
    ensures
        r == record_of(fields),
{
    let (variant, first, second, flag) = fields;
    if variant > 1 {
        return Err(WireError::UnknownVariant(variant));
    }
    if first > usize::MAX as u64 || second > usize::MAX as u64 {
        return Err(WireError::IdentifierTooLarge);
    }
    if variant == 0 {
        Ok(Event::Process { parent_id: first as usize, process_id: second as usize, create: flag })
    } else {
        Ok(Event::Thread { process_id: first as usize, thread_id: second as usize, create: flag })
    }
}

impl Event {
    /// The bytes that stand for this record on the wire.
    pub open spec fn frame(self) -> Seq<u8> {
        cobs_frame(self.variant(), self.first(), self.second(), self.created())
    }

    /// The frame of this record. The serializer does not fail on a record;
    /// should it ever report an error, the error is passed on.
    pub fn encode(&self) -> (r: Result<Vec<u8>, WireError>)
        ensures
            r matches Ok(bytes) && bytes@ == self.frame(),
            is_frame(self.frame()),
            self.frame().len() <= MAX_FRAME,
    {
        let encoded = match *self {
            Event::Process { parent_id, process_id, create } => to_allocvec_cobs(
                0,
                parent_id as u64,
                process_id as u64,
                create,
            ),
            Event::Thread { process_id, thread_id, create } => to_allocvec_cobs(
                1,
                process_id as u64,
                thread_id as u64,
                create,
            ),
        };
        match encoded {
            Ok(bytes) => Ok(bytes),
            Err(_) => Err(WireError::Encode),
        }
    }

    /// The record in a frame.
    pub fn decode(frame: &[u8]) -> (r: Result<Event, WireError>)
        ensures
            r == decoded(frame@),
    {
        match from_bytes_cobs(frame) {
            Ok(fields) => record_from_fields(fields),
            Err(_) => Err(WireError::Malformed),
        }
    }
}

/// The record in `frame`, or why there is none.
pub open spec fn decoded(frame: Seq<u8>) -> Result<Event, WireError> {
    match cobs_fields(frame) {
        Some(fields) => record_of(fields),
        None => Err(WireError::Malformed),
    }
}

/// Frames joined in order end in a zero byte.
proof fn lemma_joined_ends_in_zero(frames: Seq<Seq<u8>>)
    requires
        frames.len() > 0,
        forall|i: int| 0 <= i < frames.len() ==> is_frame(#[trigger] frames[i]),
    ensures
        joined(frames).len() > 0,
        joined(frames).last() == 0,
{
    assert(is_frame(frames[frames.len() - 1]));
    assert(frames.last() == frames[frames.len() - 1]);
}

/// A stream of bytes is cut into frames and a rest in one way only: two
/// lists of frames, each followed by a rest without a zero byte, that give
/// the same bytes are the same lists with the same rest.
pub proof fn lemma_split_is_unique(
    a: Seq<Seq<u8>>,
    rest_a: Seq<u8>,
    b: Seq<Seq<u8>>,
    rest_b: Seq<u8>,
)
    requires
        forall|i: int| 0 <= i < a.len() ==> is_frame(#[trigger] a[i]),
        forall|i: int| 0 <= i < b.len() ==> is_frame(#[trigger] b[i]),
        zero_free(rest_a),
        zero_free(rest_b),
        joined(a) + rest_a == joined(b) + rest_b,
    ensures
        a == b,
        rest_a == rest_b,
    decreases a.len(),
{
    let s = joined(a) + rest_a;
    let ja = joined(a).len() as int;
    let jb = joined(b).len() as int;
    if a.len() > 0 {
        lemma_joined_ends_in_zero(a);
        assert(s[ja - 1] == 0);
    }
    if b.len() > 0 {
        lemma_joined_ends_in_zero(b);
        assert((joined(b) + rest_b)[jb - 1] == 0);
    }
    if ja < jb {
        assert(s[jb - 1] == rest_a[jb - 1 - ja]);
        assert(false);
    }
    if jb < ja {
        assert((joined(b) + rest_b)[ja - 1] == rest_b[ja - 1 - jb]);
        assert(false);
    }
    assert(joined(a) =~= s.take(ja));
    assert(joined(b) =~= (joined(b) + rest_b).take(jb));
    assert(rest_a =~= s.skip(ja));
    assert(rest_b =~= (joined(b) + rest_b).skip(jb));
    if a.len() == 0 {
        if b.len() > 0 {
            assert(false);
        }
        assert(a =~= b);
    } else {
        if b.len() == 0 {
            assert(false);
        }
        let la = a.last();
        let lb = b.last();
        let pa = joined(a.drop_last());
        let pb = joined(b.drop_last());
        assert(is_frame(a[a.len() - 1]));
        assert(is_frame(b[b.len() - 1]));
        assert(pa + la == pb + lb);
        if la.len() < lb.len() {
            assert(pa.len() > pb.len());
            lemma_joined_ends_in_zero(a.drop_last());
            assert((pa + la)[pa.len() - 1] == 0);
            assert((pb + lb)[pa.len() - 1] == lb[pa.len() - 1 - pb.len()]);
            assert(false);
        }
        if lb.len() < la.len() {
            assert(pb.len() > pa.len());
            lemma_joined_ends_in_zero(b.drop_last());
            assert((pb + lb)[pb.len() - 1] == 0);
            assert((pa + la)[pb.len() - 1] == la[pb.len() - 1 - pa.len()]);
            assert(false);
        }
        assert(pa =~= (pa + la).take(pa.len() as int));
        assert(pb =~= (pb + lb).take(pb.len() as int));
        assert(la =~= (pa + la).skip(pa.len() as int));
        assert(lb =~= (pb + lb).skip(pb.len() as int));
        let none = Seq::<u8>::empty();
        assert(pa + none =~= pb + none);
        lemma_split_is_unique(a.drop_last(), none, b.drop_last(), none);
        assert(a =~= a.drop_last().push(la));
        assert(b =~= b.drop_last().push(lb));
    }
}

/// A reader with no bytes waiting that is fed whole frames hands out these
/// frames and keeps nothing: whatever meets the contract of `feed` on such
/// an input is this answer.
pub proof fn lemma_reader_returns_frames(frames: Seq<Seq<u8>>, out: Seq<Seq<u8>>, rest: Seq<u8>)
    requires
        forall|i: int| 0 <= i < frames.len() ==> is_frame(#[trigger] frames[i]),
        forall|i: int| 0 <= i < out.len() ==> is_frame(#[trigger] out[i]),
        zero_free(rest),
        joined(out) + rest == Seq::<u8>::empty() + joined(frames),
    ensures
        out == frames,
        rest == Seq::<u8>::empty(),
{
    let none = Seq::<u8>::empty();
    assert(none + joined(frames) =~= joined(frames) + none);
    lemma_split_is_unique(out, rest, frames, none);
}

/// The byte sequences that a list of buffers holds.
pub open spec fn contents(frames: Seq<Vec<u8>>) -> Seq<Seq<u8>> {
    Seq::new(frames.len(), |i: int| frames[i]@)
}

/// Cuts a stream of bytes into frames. What follows the last zero byte seen
/// so far waits in `current` for the rest of its frame.
pub struct FrameReader {
    pub current: Vec<u8>,
}

impl FrameReader {
    /// The waiting bytes hold no end of a frame.
    pub open spec fn wf(&self) -> bool {
        zero_free(self.current@)
    }

    /// Tells whether no waiting byte is zero.
    pub fn is_wf(&self) -> (ok: bool)
        ensures
            ok == self.wf(),
    {
        let mut i: usize = 0;
        while i < self.current.len()
            invariant
                i <= self.current@.len(),
                forall|k: int| 0 <= k < i ==> self.current@[k] != 0,
            decreases self.current@.len() - i,
        {
            if self.current[i] == 0 {
                return false;
            }
            i += 1;
        }
        true
    }

    pub fn new() -> (reader: Self)
        ensures
            reader.current@ == Seq::<u8>::empty(),
            reader.wf(),
    {
        FrameReader { current: Vec::new() }
    }

    /// Takes the next bytes of the stream and hands out the frames that
    /// they complete, in order. The frames followed by the bytes that still
    /// wait are the bytes that waited before followed by `data`.
    pub fn feed(&mut self, data: &[u8]) -> (frames: Vec<Vec<u8>>)
        requires
            old(self).wf(),
        ensures
            final(self).wf(),
            forall|i: int| 0 <= i < frames@.len() ==> is_frame(#[trigger] contents(frames@)[i]),
            joined(contents(frames@)) + final(self).current@ == old(self).current@ + data@,
    {
        let mut frames: Vec<Vec<u8>> = Vec::new();
        let mut i: usize = 0;
        assert(contents(frames@) =~= Seq::<Seq<u8>>::empty());
        assert(joined(contents(frames@)) + self.current@ =~= old(self).current@ + data@.take(0));
        while i < data.len()
            invariant
                i <= data.len(),
                self.wf(),
                forall|k: int| 0 <= k < frames@.len() ==> is_frame(#[trigger] contents(frames@)[k]),
                joined(contents(frames@)) + self.current@ == old(self).current@ + data@.take(
                    i as int,
                ),
            decreases data.len() - i,
        {
            let byte = data[i];
            let ghost before = self.current@;
            let ghost done = contents(frames@);
            self.current.push(byte);
            assert(data@.take(i + 1) =~= data@.take(i as int).push(byte));
            if byte == 0 {
                let mut frame: Vec<u8> = Vec::new();
                std::mem::swap(&mut frame, &mut self.current);
                let ghost closed = frame@;
                assert(is_frame(closed));
                frames.push(frame);
                assert(contents(frames@).drop_last() =~= done);
                assert forall|k: int| 0 <= k < frames@.len() implies is_frame(
                    #[trigger] contents(frames@)[k],
                ) by {
                    if k < done.len() {
                        assert(contents(frames@)[k] == done[k]);
                    } else {
                        assert(contents(frames@)[k] == closed);
                    }
                }
                assert(contents(frames@).last() == before.push(byte));
                assert(joined(contents(frames@)) + self.current@ =~= (joined(done) + before).push(
                    byte,
                ));
            } else {
                assert(joined(done) + self.current@ =~= (joined(done) + before).push(byte));
            }
            assert((old(self).current@ + data@.take(i as int)).push(byte) =~= old(self).current@
                + data@.take(i + 1));
            i += 1;
        }
        assert(data@.take(i as int) =~= data@);
        frames
    }

    /// Takes the next bytes of the stream and hands out the frames that
    /// they complete, as `feed` does, each with the record in it or the
    /// reason why it holds none.
    pub fn read_records(&mut self, data: &[u8]) -> (records: Vec<
        (Vec<u8>, Result<Event, WireError>),
    >)
        requires
            old(self).wf(),
        ensures
            final(self).wf(),
            forall|i: int|
                0 <= i < records@.len() ==> is_frame(#[trigger] frames_of(records@)[i]),
            forall|i: int|
                0 <= i < records@.len() ==> (#[trigger] records@[i]).1 == decoded(records@[i].0@),
            joined(frames_of(records@)) + final(self).current@ == old(self).current@ + data@,
    {
        let mut frames = self.feed(data);
        let ghost all = contents(frames@);
        let mut records: Vec<(Vec<u8>, Result<Event, WireError>)> = Vec::new();
        assert(frames_of(records@) =~= all.take(0));
        assert(contents(frames@) =~= all.skip(0));
        while frames.len() > 0
            invariant
                records@.len() + frames@.len() == all.len(),
                contents(frames@) == all.skip(records@.len() as int),
                frames_of(records@) == all.take(records@.len() as int),
                forall|k: int|
                    0 <= k < records@.len() ==> (#[trigger] records@[k]).1 == decoded(
                        records@[k].0@,
                    ),
            decreases frames@.len(),
        {
            let ghost waiting = frames@;
            let ghost rest = contents(frames@);
            let ghost done = frames_of(records@);
            let ghost count = records@.len() as int;
            let frame = frames.remove(0);
            assert(frame@ == rest[0]);
            let record = Event::decode(frame.as_slice());
            records.push((frame, record));
            assert forall|k: int| 0 <= k < frames@.len() implies contents(frames@)[k] == all.skip(
                count + 1,
            )[k] by {
                assert(frames@[k] == waiting[k + 1]);
                assert(rest[k + 1] == waiting[k + 1]@);
                assert(rest[k + 1] == all.skip(count)[k + 1]);
            }
            assert(contents(frames@) =~= all.skip(records@.len() as int));
            assert(frames_of(records@) =~= done.push(rest[0]));
            assert(frames_of(records@) =~= all.take(records@.len() as int));
        }
        assert(all.take(all.len() as int) =~= all);
        records
    }
}

/// The frames of a list of frames with their records.
pub open spec fn frames_of(records: Seq<(Vec<u8>, Result<Event, WireError>)>) -> Seq<Seq<u8>> {
    Seq::new(records.len(), |i: int| records[i].0@)
}

} // verus!

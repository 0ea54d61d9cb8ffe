//! Snapshots of the engine state.
//!
//! The engine offers its state as a run of chunks and takes it back as
//! chunks of the same sizes. A snapshot is a tag that names this format,
//! followed by the chunks one after the other. [`StateWriter`] is the sink
//! that collects the chunks; [`StateReader`] hands them out again.
use vstd::prelude::*;
use crate::constants::SPC_STATE_SIZE;
use crate::error::{Error, ErrorKind};

verus! {

/// Length of the tag that a snapshot starts with.
pub const SNAPSHOT_TAG_SIZE: usize = 8;

/// The tag that a snapshot starts with: the format's name and its version.
pub const SNAPSHOT_TAG: [u8; SNAPSHOT_TAG_SIZE] = [0x53, 0x50, 0x43, 0x53, 0x54, 0x41, 0x54, 0x01];

/// The chunks one after the other.
pub open spec fn joined(chunks: Seq<Seq<u8>>) -> Seq<u8>
    decreases chunks.len(),
{
    if chunks.len() == 0 {
        Seq::empty()
    } else {
        chunks.first() + joined(chunks.drop_first())
    }
}

/// The snapshot that holds the given chunks.
pub open spec fn snapshot_of(chunks: Seq<Seq<u8>>) -> Seq<u8> {
    SNAPSHOT_TAG@ + joined(chunks)
}

/// The lengths of the chunks.
pub open spec fn sizes_of(chunks: Seq<Seq<u8>>) -> Seq<nat> {
    Seq::new(chunks.len(), |i: int| chunks[i].len())
}

/// Cuts chunks of the given sizes off the front of `data`: the chunks and
/// what is left, or nothing where `data` ends too early.
pub open spec fn split(data: Seq<u8>, sizes: Seq<nat>) -> Option<(Seq<Seq<u8>>, Seq<u8>)>
    decreases sizes.len(),
{
    if sizes.len() == 0 {
        Some((Seq::empty(), data))
    } else if data.len() < sizes.first() {
        None
    } else {
        match split(data.skip(sizes.first() as int), sizes.drop_first()) {
            Some((chunks, rest)) => Some((seq![data.take(sizes.first() as int)] + chunks, rest)),
            None => None,
        }
    }
}

/// Whether some byte of `bytes` differs from the tag's byte at its place.
pub open spec fn tag_mismatch(bytes: Seq<u8>) -> bool {
    exists|i: int| 0 <= i < bytes.len() && i < SNAPSHOT_TAG_SIZE && bytes[i] != SNAPSHOT_TAG@[i]
}

/// The sink that collects the chunks of a snapshot. Its view is what was
/// collected so far, without the tag.
#[derive(Debug)]
pub struct StateWriter {
    payload: Vec<u8>,
}

impl View for StateWriter {
    type V = Seq<u8>;

    closed spec fn view(&self) -> Seq<u8> {
        self.payload@
    }
}

impl StateWriter {
    /// A sink that holds nothing yet.
    pub fn new() -> (writer: StateWriter)
        ensures
            writer@ == Seq::<u8>::empty(),
    {
        StateWriter { payload: Vec::with_capacity(SPC_STATE_SIZE) }
    }

    /// Takes the next chunk.
    pub fn push(&mut self, chunk: &[u8])
        ensures
            final(self)@ == old(self)@ + chunk@,
    {
        let mut i: usize = 0;
        while i < chunk.len()
            invariant
                i <= chunk@.len(),
                self.payload@ == old(self).payload@ + chunk@.subrange(0, i as int),
            decreases chunk@.len() - i,
        {
            self.payload.push(chunk[i]);
            i = i + 1;
        }
        assert(chunk@.subrange(0, chunk@.len() as int) =~= chunk@);
    }

    /// The snapshot: the tag, then all that was collected.
    pub fn finish(self) -> (snapshot: Vec<u8>)
        ensures
            snapshot@ == SNAPSHOT_TAG@ + self@,
    {
        let mut snapshot: Vec<u8> = Vec::new();
        let mut i: usize = 0;
        while i < SNAPSHOT_TAG_SIZE
            invariant
                i <= SNAPSHOT_TAG_SIZE,
                snapshot@ == SNAPSHOT_TAG@.subrange(0, i as int),
            decreases SNAPSHOT_TAG_SIZE - i,
        {
            snapshot.push(SNAPSHOT_TAG[i]);
            i = i + 1;
        }
        assert(snapshot@ =~= SNAPSHOT_TAG@);
        let mut payload = self.payload;
        snapshot.append(&mut payload);
        snapshot
    }
}

/// The source that hands the chunks of a snapshot out again. Its view is
/// what is left to hand out.
#[derive(Debug)]
pub struct StateReader<'a> {
    rest: &'a [u8],
}

impl<'a> View for StateReader<'a> {
    type V = Seq<u8>;

    closed spec fn view(&self) -> Seq<u8> {
        self.rest@
    }
}

impl<'a> StateReader<'a> {
    /// Opens a snapshot for reading. One whose bytes differ from the tag is
    /// of an unknown version; one that ends within the tag is truncated.
    pub fn open(snapshot: &'a [u8]) -> (r: Result<StateReader<'a>, Error>)
        ensures
            tag_mismatch(snapshot@) ==> (r matches Err(e) && e.spec_kind()
                == ErrorKind::UnknownSnapshotVersion),
            !tag_mismatch(snapshot@) && snapshot@.len() < SNAPSHOT_TAG_SIZE ==> (r matches Err(e)
                && e.spec_kind() == ErrorKind::TruncatedSnapshot),
            !tag_mismatch(snapshot@) && snapshot@.len() >= SNAPSHOT_TAG_SIZE ==> (r matches Ok(
                reader,
            ) && reader@ == snapshot@.skip(SNAPSHOT_TAG_SIZE as int)),
    {
        let mut i: usize = 0;
        while i < SNAPSHOT_TAG_SIZE && i < snapshot.len()
            invariant
                i <= SNAPSHOT_TAG_SIZE,
                i <= snapshot@.len(),
                forall|k: int| 0 <= k < i ==> snapshot@[k] == SNAPSHOT_TAG@[k],
            decreases SNAPSHOT_TAG_SIZE - i,
        {
            if snapshot[i] != SNAPSHOT_TAG[i] {
                return Err(Error::from_kind(ErrorKind::UnknownSnapshotVersion));
            }
            i = i + 1;
        }
        if snapshot.len() < SNAPSHOT_TAG_SIZE {
            return Err(Error::from_kind(ErrorKind::TruncatedSnapshot));
        }
        let (_, rest) = snapshot.split_at(SNAPSHOT_TAG_SIZE);
        Ok(StateReader { rest })
    }

    /// The number of bytes that are left to hand out.
    pub fn remaining(&self) -> (len: usize)
        ensures
            len == self@.len(),
    {
        self.rest.len()
    }

    /// Tells whether what is left is a state of `state_size` bytes, the
    /// size that the engine is about to ask for. With fewer bytes left the
    /// snapshot is truncated; with more it is the state of another engine,
    /// of an unknown version.
    pub fn check_len(&self, state_size: usize) -> (r: Result<(), Error>)
        ensures
            self@.len() == state_size <==> r is Ok,
            self@.len() < state_size ==> (r matches Err(e) && e.spec_kind()
                == ErrorKind::TruncatedSnapshot),
            self@.len() > state_size ==> (r matches Err(e) && e.spec_kind()
                == ErrorKind::UnknownSnapshotVersion),
    {
        if self.rest.len() < state_size {
            Err(Error::from_kind(ErrorKind::TruncatedSnapshot))
        } else if self.rest.len() > state_size {
            Err(Error::from_kind(ErrorKind::UnknownSnapshotVersion))
        } else {
            Ok(())
        }
    }

    /// Hands out the next `size` bytes. Where fewer are left the snapshot is
    /// truncated, and nothing is taken.
    pub fn read(&mut self, size: usize) -> (r: Result<&'a [u8], Error>)
        ensures
            size <= old(self)@.len() ==> (r matches Ok(chunk) && chunk@ == old(self)@.take(
                size as int,
            ) && final(self)@ == old(self)@.skip(size as int)),
            size > old(self)@.len() ==> (r matches Err(e) && e.spec_kind()
                == ErrorKind::TruncatedSnapshot && final(self)@ == old(self)@),
    {
        if size > self.rest.len() {
            return Err(Error::from_kind(ErrorKind::TruncatedSnapshot));
        }
        let (chunk, rest) = self.rest.split_at(size);
        self.rest = rest;
        Ok(chunk)
    }
}

/// Collecting one more chunk joins it to the end.
pub proof fn joined_push(chunks: Seq<Seq<u8>>, chunk: Seq<u8>)
    ensures
        joined(chunks.push(chunk)) == joined(chunks) + chunk,
    decreases chunks.len(),
{
    if chunks.len() == 0 {
        let one = chunks.push(chunk);
        assert(one.drop_first() =~= Seq::<Seq<u8>>::empty());
        assert(joined(one.drop_first()) =~= Seq::<u8>::empty());
        assert(joined(one) == one.first() + joined(one.drop_first()));
        assert(joined(one) =~= chunk);
        assert(joined(chunks) + chunk =~= chunk);
    } else {
        joined_push(chunks.drop_first(), chunk);
        assert(chunks.push(chunk).drop_first() =~= chunks.drop_first().push(chunk));
        assert(chunks.first() + (joined(chunks.drop_first()) + chunk) =~= (chunks.first() + joined(
            chunks.drop_first(),
        )) + chunk);
    }
}

/// What was written chunk by chunk is read back chunk by chunk: cutting
/// the joined chunks by their own sizes gives the chunks again, each with
/// the bytes it had, and leaves whatever followed them.
pub proof fn split_of_joined(chunks: Seq<Seq<u8>>, rest: Seq<u8>)
    ensures
        split(joined(chunks) + rest, sizes_of(chunks)) == Some((chunks, rest)),
    decreases chunks.len(),
{
    let data = joined(chunks) + rest;
    let sizes = sizes_of(chunks);
    if chunks.len() == 0 {
        assert(data =~= rest);
        assert(chunks =~= Seq::<Seq<u8>>::empty());
    } else {
        let head = chunks.first();
        let tail = chunks.drop_first();
        split_of_joined(tail, rest);
        assert(sizes.first() == head.len());
        assert(sizes.drop_first() =~= sizes_of(tail));
        assert(data =~= head + (joined(tail) + rest));
        assert(data.take(head.len() as int) =~= head);
        assert(data.skip(head.len() as int) =~= joined(tail) + rest);
        assert(seq![head] + tail =~= chunks);
    }
}

/// A snapshot that was written can be opened, and reading it with the
/// sizes of the chunks that went in gives those chunks and leaves nothing.
pub proof fn snapshot_round_trip(chunks: Seq<Seq<u8>>)
    ensures
        !tag_mismatch(snapshot_of(chunks)),
        snapshot_of(chunks).len() >= SNAPSHOT_TAG_SIZE,
        snapshot_of(chunks).skip(SNAPSHOT_TAG_SIZE as int) == joined(chunks),
        split(joined(chunks), sizes_of(chunks)) == Some((chunks, Seq::<u8>::empty())),
{
    assert(snapshot_of(chunks).skip(SNAPSHOT_TAG_SIZE as int) =~= joined(chunks));
    split_of_joined(chunks, Seq::empty());
    assert(joined(chunks) + Seq::<u8>::empty() =~= joined(chunks));
}

} // verus!

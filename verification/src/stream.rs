//! Append-only stream buffer.
//!
//! The byte sequence backing the stream source: a network producer
//! appends chunks as they arrive and finally closes the buffer, while
//! the decoder reads strictly in append order through a cursor. Bytes,
//! once appended, are never mutated or removed. The blocking that turns
//! this buffer into a pull interface (waiting until bytes exist or the
//! producer is done) lives with the caller; every decision about what a
//! read yields is made here.

use vstd::prelude::*;

verus! {

/// The mathematical model of a stream buffer: every byte appended so
/// far, how many of them the reader has consumed, and whether the
/// producer has finished.
pub ghost struct StreamModel {
    pub data: Seq<u8>,
    pub cursor: int,
    pub closed: bool,
}

impl StreamModel {
    /// The cursor never runs past the data.
    pub open spec fn wf(self) -> bool {
        0 <= self.cursor <= self.data.len()
    }

    /// The model after the producer appends `chunk`.
    pub open spec fn after_append(self, chunk: Seq<u8>) -> StreamModel {
        StreamModel { data: self.data + chunk, ..self }
    }

    /// The bytes a read observes next: everything appended but not yet
    /// consumed.
    pub open spec fn next_bytes(self) -> Seq<u8> {
        self.data.subrange(self.cursor, self.data.len() as int)
    }
}

/// What one read of the stream yields: the bytes that arrived since the
/// last read, or nothing yet from a still-open source, or the end of a
/// closed, fully consumed source.
pub enum ReadOutcome {
    Bytes(Vec<u8>),
    Pending,
    Closed,
}

/// The growing byte sequence shared by the network producer and the
/// decoder.
pub struct StreamBuffer {
    data: Vec<u8>,
    cursor: usize,
    closed: bool,
}

impl View for StreamBuffer {
    type V = StreamModel;

    closed spec fn view(&self) -> StreamModel {
        StreamModel { data: self.data@, cursor: self.cursor as int, closed: self.closed }
    }
}

impl StreamBuffer {
    /// An empty, open buffer with the reader at its start.
    pub fn new() -> (b: StreamBuffer)
        ensures
            b@ == (StreamModel { data: Seq::<u8>::empty(), cursor: 0int, closed: false }),
            b@.wf(),
    {
        let b = StreamBuffer { data: Vec::new(), cursor: 0, closed: false };
        proof {
            assert(b@.data =~= Seq::<u8>::empty());
        }
        b
    }

    /// Append a chunk of arriving bytes. Everything already appended,
    /// the reader's position, and the open state stay as they were.
    pub fn append(&mut self, chunk: &[u8])
        requires
            old(self)@.wf(),
            !old(self)@.closed,
        ensures
            final(self)@ == old(self)@.after_append(chunk@),
            final(self)@.wf(),
    {
        let n: usize = chunk.len();
        let mut i: usize = 0;
        while i < n
            invariant
                i <= n,
                n == chunk@.len(),
                self.cursor == old(self).cursor,
                self.closed == old(self).closed,
                self@.data == old(self)@.data + chunk@.subrange(0, i as int),
            decreases n - i,
        {
            let byte: u8 = chunk[i];
            self.data.push(byte);
            proof {
                assert(self@.data =~= old(self)@.data + chunk@.subrange(0, i + 1));
            }
            i = i + 1;
        }
        proof {
            assert(chunk@.subrange(0, n as int) =~= chunk@);
            assert(self@ =~= old(self)@.after_append(chunk@));
        }
    }

    /// The producer is done: no byte will be appended after this.
    pub fn close(&mut self)
        requires
            old(self)@.wf(),
        ensures
            final(self)@ == (StreamModel { closed: true, ..old(self)@ }),
            final(self)@.wf(),
    {
        self.closed = true;
    }

    /// Read whatever arrived since the last read. Yields exactly the
    /// unconsumed bytes, in append order, and consumes them; on an
    /// empty remainder, reports `Pending` while the producer is still
    /// running and `Closed` once it has finished. The appended data
    /// itself is never changed by a read.
    pub fn read_next(&mut self) -> (r: ReadOutcome)
        requires
            old(self)@.wf(),
        ensures
            final(self)@.wf(),
            final(self)@.data == old(self)@.data,
            final(self)@.closed == old(self)@.closed,
            old(self)@.cursor < old(self)@.data.len() ==> {
                &&& r matches ReadOutcome::Bytes(bytes) && bytes@ == old(self)@.next_bytes()
                &&& final(self)@.cursor == old(self)@.data.len()
            },
            old(self)@.cursor == old(self)@.data.len() && !old(self)@.closed ==> {
                &&& r matches ReadOutcome::Pending
                &&& *final(self) == *old(self)
            },
            old(self)@.cursor == old(self)@.data.len() && old(self)@.closed ==> {
                &&& r matches ReadOutcome::Closed
                &&& *final(self) == *old(self)
            },
    {
        let len: usize = self.data.len();
        if self.cursor < len {
            let mut bytes: Vec<u8> = Vec::new();
            let mut i: usize = self.cursor;
            while i < len
                invariant
                    *self == *old(self),
                    self@.wf(),
                    self.cursor <= i <= len,
                    len == self@.data.len(),
                    bytes@ == self@.data.subrange(self.cursor as int, i as int),
                decreases len - i,
            {
                let byte: u8 = self.data[i];
                bytes.push(byte);
                proof {
                    assert(bytes@ =~= self@.data.subrange(self.cursor as int, i + 1));
                }
                i = i + 1;
            }
            self.cursor = len;
            ReadOutcome::Bytes(bytes)
        } else if self.closed {
            ReadOutcome::Closed
        } else {
            ReadOutcome::Pending
        }
    }

    /// How many appended bytes the reader has not consumed yet.
    pub fn available(&self) -> (n: usize)
        requires
            self@.wf(),
        ensures
            n == self@.next_bytes().len(),
    {
        self.data.len() - self.cursor
    }

    /// Whether the producer has closed the buffer.
    pub fn is_closed(&self) -> (c: bool)
        ensures
            c == self@.closed,
    {
        self.closed
    }
}

/// Stream ordering law: for chunks appended in order `a` then `b`, a
/// reader that has consumed exactly through the end of `a` observes
/// exactly `b` next — no byte missing, none repeated.
pub proof fn lemma_chunks_in_order(m: StreamModel, a: Seq<u8>, b: Seq<u8>)
    requires
        m.wf(),
        m.cursor == m.data.len(),
    ensures
        ({
            let grown = m.after_append(a).after_append(b);
            let at_a_end = StreamModel { cursor: m.data.len() + a.len() as int, ..grown };
            at_a_end.next_bytes() == b
        }),
{
    let grown = m.after_append(a).after_append(b);
    let at_a_end = StreamModel { cursor: m.data.len() + a.len() as int, ..grown };
    assert(at_a_end.next_bytes() =~= b);
}

} // verus!

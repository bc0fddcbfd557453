//! A pull-style byte reader over a sequence of chunks handed in one at a time.
use vstd::prelude::*;

verus! {

/// What one poll of the raw body yielded.
pub enum BodyEvent<E> {
    /// The next chunk of bytes.
    Chunk(Vec<u8>),
    /// The body has ended.
    End,
    /// The body failed.
    Failed(E),
}

/// Where the reader stands.
pub enum ReadState {
    /// A chunk with unread bytes, and the position of the first unread one.
    Ready(Vec<u8>, usize),
    /// No unread bytes: the next chunk must be handed in.
    NotReady,
    /// The body has ended.
    Eof,
}

/// What handing in one body event told the reader.
#[derive(PartialEq, Eq, Structural, Debug, Clone, Copy)]
pub enum StreamState {
    /// More bytes may follow.
    HasMore,
    /// No more bytes will follow.
    Eof,
}

/// What one read returned.
pub enum ReadOutcome {
    /// Bytes copied out of the current chunk.
    Bytes(Vec<u8>),
    /// The body has ended: no bytes now or later.
    Eof,
    /// No data yet: a chunk must be handed in first.
    WouldBlock,
}

/// A reader over a body whose chunks arrive one by one.
pub struct ReadableChunks {
    pub state: ReadState,
}

impl ReadableChunks {
    pub open spec fn wf(&self) -> bool {
        match self.state {
            ReadState::Ready(c, pos) => pos < c@.len(),
            _ => true,
        }
    }

    /// The bytes buffered and not yet read.
    pub open spec fn unread(&self) -> Seq<u8> {
        match self.state {
            ReadState::Ready(c, pos) => c@.subrange(pos as int, c@.len() as int),
            _ => Seq::empty(),
        }
    }

    /// Whether a read would block until the next event is handed in.
    pub open spec fn needs_chunk(&self) -> bool {
        self.state is NotReady
    }

    /// Whether the body has ended.
    pub open spec fn at_eof(&self) -> bool {
        self.state is Eof
    }

    /// A reader before the first chunk.
    pub fn new() -> (r: ReadableChunks)
        ensures
            r.wf(),
            r.needs_chunk(),
            r.unread() == Seq::<u8>::empty(),
    {
        ReadableChunks { state: ReadState::NotReady }
    }

    /// Whether a read would block until the next event is handed in.
    pub fn wants_chunk(&self) -> (r: bool)
        ensures
            r == self.needs_chunk(),
    {
        matches!(self.state, ReadState::NotReady)
    }

    /// Hands in what the body yielded on its next poll. A chunk is buffered
    /// (an empty one leaves the reader waiting), the end makes the reader
    /// ended for good, and a failure is given back untouched.
    pub fn poll_next<E>(&mut self, ev: BodyEvent<E>) -> (r: Result<StreamState, E>)
        requires
            old(self).wf(),
            old(self).needs_chunk(),
        ensures
            final(self).wf(),
            match ev {
                BodyEvent::Chunk(c) => {
                    &&& r == Ok::<StreamState, E>(StreamState::HasMore)
                    &&& final(self).unread() == c@
                    &&& final(self).needs_chunk() == (c@.len() == 0)
                    &&& !final(self).at_eof()
                },
                BodyEvent::End => {
                    &&& r == Ok::<StreamState, E>(StreamState::Eof)
                    &&& final(self).at_eof()
                    &&& final(self).unread() == Seq::<u8>::empty()
                },
                BodyEvent::Failed(e) => {
                    &&& r == Err::<StreamState, E>(e)
                    &&& *final(self) == *old(self)
                },
            },
    {
        match ev {
            BodyEvent::Chunk(c) => {
                if c.len() > 0 {
                    self.state = ReadState::Ready(c, 0);
                    proof {
                        assert(self.unread() =~= c@);
                    }
                } else {
                    assert(c@ =~= Seq::<u8>::empty());
                }
                Ok(StreamState::HasMore)
            },
            BodyEvent::End => {
                self.state = ReadState::Eof;
                Ok(StreamState::Eof)
            },
            BodyEvent::Failed(e) => Err(e),
        }
    }

    /// Copies out up to `max` buffered bytes. When the current chunk runs
    /// out, the reader waits for the next one.
    pub fn read(&mut self, max: usize) -> (r: ReadOutcome)
        requires
            old(self).wf(),
        ensures
            final(self).wf(),
            old(self).needs_chunk() ==> r is WouldBlock && *final(self) == *old(self),
            old(self).at_eof() ==> r is Eof && *final(self) == *old(self),
            old(self).unread().len() > 0 ==> {
                &&& r is Bytes
                &&& r->Bytes_0@.len() == if max < old(self).unread().len() { max as int } else { old(self).unread().len() as int }
                &&& r->Bytes_0@ + final(self).unread() == old(self).unread()
                &&& final(self).needs_chunk() == (final(self).unread().len() == 0)
                &&& !final(self).at_eof()
            },
    {
        let ghost before = *self;
        let (out, next, size) = match &self.state {
            ReadState::NotReady => return ReadOutcome::WouldBlock,
            ReadState::Eof => return ReadOutcome::Eof,
            ReadState::Ready(chunk, pos) => {
                let pos = *pos;
                let remaining = chunk.len() - pos;
                let len = if max < remaining { max } else { remaining };
                let mut out: Vec<u8> = Vec::with_capacity(len);
                let mut i: usize = 0;
                while i < len
                    invariant
                        pos + len <= chunk@.len(),
                        chunk@.len() <= usize::MAX,
                        i <= len,
                        out@ == chunk@.subrange(pos as int, pos + i),
                    decreases len - i,
                {
                    out.push(chunk[pos + i]);
                    i += 1;
                    assert(out@ =~= chunk@.subrange(pos as int, pos + i));
                }
                (out, pos + len, chunk.len())
            },
        };
        if next < size {
            match &mut self.state {
                ReadState::Ready(_, pos) => {
                    *pos = next;
                },
                _ => {},
            }
        } else {
            self.state = ReadState::NotReady;
        }
        proof {
            if let ReadState::Ready(c, pos) = before.state {
                assert(out@ + self.unread() =~= c@.subrange(pos as int, c@.len() as int));
            }
        }
        ReadOutcome::Bytes(out)
    }
}

} // verus!

//! The gzip stage: feeds the compressed bytes of a chunk reader to the
//! decompressor and hands out what it produces as new chunks.
use vstd::prelude::*;
use vstd::slice::slice_subrange;
use crate::decoder::{DecodeError, Decoded};
use crate::inflate::{
    gunzip_of, gz_consumed, gz_ended, gz_finished, gz_flush, gz_new, gz_output, gz_take_output, gz_taken,
    gz_try_finish, gz_write, Inflater,
};
use crate::reader::{BodyEvent, ReadOutcome, ReadableChunks};

verus! {

/// How many compressed bytes one step hands to the decompressor at a time.
pub const READ_SIZE: usize = 8192;

/// The gzip stage of a decoder.
pub struct Gzip {
    /// The decompressor.
    pub inner: Inflater,
    /// The compressed body, read by this stage.
    pub body: ReadableChunks,
    /// Set once the stage has reported its end or a failure: it yields nothing more.
    pub done: bool,
    /// Every compressed byte this stage has been handed, in order.
    pub received: Ghost<Seq<u8>>,
    /// The compressed bytes handed on to the decompressor, in order.
    pub fed: Ghost<Seq<u8>>,
    /// The decompressed bytes yielded so far, in order.
    pub emitted: Ghost<Seq<u8>>,
    /// Set once the gzip member has been read whole, up to the end of the body.
    pub complete: bool,
    /// Set once the stage has reported a failure.
    pub failed: bool,
}

impl Gzip {
    pub open spec fn wf(&self) -> bool {
        &&& self.body.wf()
        &&& self.done ==> self.complete || self.failed
        &&& !self.done ==> {
            &&& !gz_finished(self.inner)
            &&& !self.failed
            &&& !self.complete
            &&& self.fed@ + self.body.unread() == self.received@
            &&& self.fed@ == gz_consumed(self.inner)
            &&& self.emitted@ == gz_taken(self.inner)
        }
        &&& self.complete ==> {
            &&& self.done
            &&& self.fed@ == self.received@
            &&& self.emitted@ == gunzip_of(self.received@)
        }
    }

    /// Whether the decompressor has read the whole gzip member.
    pub open spec fn member_ended(&self) -> bool {
        gz_ended(self.inner)
    }

    /// Whether the stage waits for the next event of the compressed body.
    pub open spec fn awaits_input(&self) -> bool {
        !self.done && self.body.needs_chunk()
    }

    /// A stage over a body of which `body` has been read so far.
    pub fn new(body: ReadableChunks) -> (r: Gzip)
        requires
            body.wf(),
        ensures
            r.wf(),
            !r.done,
            !r.member_ended(),
            r.body == body,
            r.received@ == body.unread(),
            r.fed@ == Seq::<u8>::empty(),
            r.emitted@ == Seq::<u8>::empty(),
            !r.complete,
            !r.failed,
    {
        let ghost start = body.unread();
        let r = Gzip {
            inner: gz_new(),
            body,
            done: false,
            received: Ghost(start),
            fed: Ghost(Seq::empty()),
            emitted: Ghost(Seq::empty()),
            complete: false,
            failed: false,
        };
        assert(r.fed@ + r.body.unread() =~= r.received@);
        r
    }

    /// Whether the stage waits for the next event of the compressed body.
    pub fn wants_input(&self) -> (r: bool)
        ensures
            r == self.awaits_input(),
    {
        !self.done && self.body.wants_chunk()
    }

    /// Hands all of `b`, the next compressed bytes read from the body, to
    /// the decompressor. Fails when it takes none of them (its member has
    /// ended) or reports corrupt data; the caller then ends the stage.
    fn feed<E>(&mut self, b: &Vec<u8>) -> (r: Result<(), DecodeError<E>>)
        requires
            old(self).body.wf(),
            !old(self).done,
            !old(self).failed,
            !old(self).complete,
            !gz_finished(old(self).inner),
            old(self).fed@ + b@ + old(self).body.unread() == old(self).received@,
            old(self).fed@ == gz_consumed(old(self).inner),
            old(self).emitted@ == gz_taken(old(self).inner),
        ensures
            final(self).body == old(self).body,
            final(self).received == old(self).received,
            final(self).emitted == old(self).emitted,
            final(self).done == old(self).done,
            final(self).failed == old(self).failed,
            final(self).complete == old(self).complete,
            final(self).emitted@ == gz_taken(final(self).inner),
            gz_ended(old(self).inner) ==> gz_ended(final(self).inner),
            gz_ended(old(self).inner) && b@.len() > 0 ==> r matches Err(DecodeError::TrailingData),
            r is Ok ==> {
                &&& !gz_finished(final(self).inner)
                &&& final(self).fed@ == old(self).fed@ + b@
                &&& final(self).fed@ == gz_consumed(final(self).inner)
            },
            r matches Err(DecodeError::TrailingData) ==> {
                &&& gz_ended(final(self).inner)
                &&& final(self).fed@.len() < final(self).received@.len()
            },
            !(r matches Err(DecodeError::Body(_))),
    {
        let mut off: usize = 0;
        assert(b@.subrange(0, b@.len() as int) =~= b@);
        while off < b.len()
            invariant
                off <= b@.len(),
                self.body == old(self).body,
                self.received == old(self).received,
                self.emitted == old(self).emitted,
                self.done == old(self).done,
                self.failed == old(self).failed,
                self.complete == old(self).complete,
                self.fed@ + b@.subrange(off as int, b@.len() as int) + self.body.unread() == self.received@,
                self.fed@ == gz_consumed(self.inner),
                self.emitted@ == gz_taken(self.inner),
                gz_ended(old(self).inner) ==> gz_ended(self.inner) && off == 0,
                !gz_finished(self.inner),
            decreases b@.len() - off,
        {
            let rest = slice_subrange(b.as_slice(), off, b.len());
            match gz_write(&mut self.inner, rest) {
                Ok(n) => {
                    if n == 0 {
                        return Err(DecodeError::TrailingData);
                    }
                    proof {
                        let tail = b@.subrange(off as int, b@.len() as int);
                        assert(tail.subrange(0, n as int) + b@.subrange(off + n, b@.len() as int) =~= tail);
                        self.fed@ = self.fed@ + b@.subrange(off as int, off + n);
                        assert(b@.subrange(off as int, off + n) =~= tail.subrange(0, n as int));
                        assert(rest@ =~= tail);
                        assert(rest@.take(n as int) =~= b@.subrange(off as int, off + n));
                        assert(self.fed@ + b@.subrange(off + n, b@.len() as int) + self.body.unread() =~= self.received@);
                    }
                    off = off + n;
                },
                Err(e) => {
                    return Err(DecodeError::Corrupt(e));
                },
            }
        }
        proof {
            assert(b@.subrange(off as int, b@.len() as int) =~= Seq::<u8>::empty());
            assert(self.fed@ + Seq::<u8>::empty() =~= self.fed@);
            assert(self.fed@ + b@.subrange(off as int, b@.len() as int) + self.body.unread() =~= self.fed@ + self.body.unread());
            assert(old(self).fed@ + b@ + self.body.unread() =~= (old(self).fed@ + b@) + self.body.unread());
            assert(self.fed@ =~= old(self).fed@ + b@) by {
                assert(self.fed@ + self.body.unread() == (old(self).fed@ + b@) + self.body.unread());
                assert(self.fed@.len() == old(self).fed@.len() + b@.len());
                assert forall|i: int| 0 <= i < self.fed@.len() implies self.fed@[i] == (old(self).fed@ + b@)[i] by {
                    assert((self.fed@ + self.body.unread())[i] == ((old(self).fed@ + b@) + self.body.unread())[i]);
                };
            };
        }
        Ok(())
    }

    /// One step: takes the next body event if the stage asked for one, and
    /// yields the next decompressed chunk, the end, a failure, or a request
    /// for more input. Bytes that arrive after the gzip member has ended
    /// are a failure, and so is a body that ends before the member does.
    #[verifier::loop_isolation(false)]
    pub fn poll_next<E>(&mut self, ev: Option<BodyEvent<E>>) -> (r: Decoded<E>)
        requires
            old(self).wf(),
            ev is Some ==> old(self).awaits_input(),
        ensures
            final(self).wf(),
            old(self).done ==> r is End && *final(self) == *old(self),
            r is Chunk ==> r->Chunk_0@.len() > 0,
            r is NeedInput ==> final(self).awaits_input() && final(self).fed@ == final(self).received@,
            r is End ==> final(self).done,
            r is Failed ==> final(self).done,
            !old(self).done && r is End ==> final(self).body.at_eof() && final(self).member_ended() && final(self).complete,
            r is Chunk ==> final(self).emitted@ == old(self).emitted@ + r->Chunk_0@,
            !(r is Chunk) ==> final(self).emitted@ == old(self).emitted@,
            match ev {
                Some(BodyEvent::Failed(e)) => r == Decoded::<E>::Failed(DecodeError::Body(e)),
                Some(BodyEvent::Chunk(c)) => {
                    &&& final(self).received@ == old(self).received@ + c@
                    &&& old(self).member_ended() && c@.len() > 0 ==> r == Decoded::<E>::Failed(DecodeError::TrailingData)
                },
                _ => final(self).received@ == old(self).received@,
            },
            !old(self).done && old(self).member_ended() && old(self).body.unread().len() > 0
                ==> r == Decoded::<E>::Failed(DecodeError::TrailingData),
            !old(self).done && old(self).body.at_eof() ==> !(r is NeedInput),
            !old(self).done && ev is None && old(self).body.needs_chunk() ==> r is NeedInput,
            r == Decoded::<E>::Failed(DecodeError::TrailingData) ==> {
                &&& final(self).member_ended()
                &&& final(self).fed@.len() < final(self).received@.len()
            },
            r matches Decoded::Failed(DecodeError::Body(_)) ==> ev matches Some(BodyEvent::Failed(_)),
            !old(self).done && final(self).done ==> r is Failed || final(self).complete,
            r is Failed ==> final(self).failed,
            !old(self).done && !(r is Failed) ==> !final(self).failed,
    {
        if self.done {
            return Decoded::End;
        }
        let ghost start_waiting = ev is None && self.body.needs_chunk();
        match ev {
            Some(ev) => {
                let ghost more = if ev is Chunk {
                    ev->Chunk_0@
                } else {
                    Seq::<u8>::empty()
                };
                match self.body.poll_next(ev) {
                    Err(e) => {
                        self.done = true;
                        self.failed = true;
                        return Decoded::Failed(DecodeError::Body(e));
                    },
                    Ok(_) => {
                        proof {
                            self.received@ = self.received@ + more;
                            assert(self.fed@ + self.body.unread() =~= self.received@);
                        }
                    },
                }
            },
            None => {},
        }
        let ghost start_ended = gz_ended(self.inner);
        let ghost start_pending = self.body.unread().len() > 0;
        let ghost received_now = self.received@;
        let ghost emitted_now = self.emitted@;
        loop
            invariant
                self.wf(),
                !self.done,
                start_ended ==> gz_ended(self.inner),
                start_ended && start_pending ==> self.body.unread().len() > 0,
                self.received@ == received_now,
                old(self).body.at_eof() ==> self.body.at_eof(),
                self.emitted@ == emitted_now,
                !self.complete,
                !self.failed,
                start_waiting ==> self.body.needs_chunk(),
            decreases self.body.unread().len(),
        {
            match self.body.read(READ_SIZE) {
                ReadOutcome::WouldBlock => {
                    return Decoded::NeedInput;
                },
                ReadOutcome::Eof => {
                    match gz_try_finish(&mut self.inner) {
                        Err(e) => {
                            self.done = true;
                            self.failed = true;
                            return Decoded::Failed(DecodeError::Corrupt(e));
                        },
                        Ok(()) => {},
                    }
                    let out = gz_take_output(&mut self.inner);
                    proof {
                        self.emitted@ = self.emitted@ + out@;
                        assert(self.body.unread() =~= Seq::<u8>::empty());
                        assert(self.fed@ + self.body.unread() =~= self.fed@);
                    }
                    self.done = true;
                    self.complete = true;
                    if out.len() > 0 {
                        return Decoded::Chunk(out);
                    } else {
                        assert(out@ =~= Seq::<u8>::empty());
                        assert(self.emitted@ =~= old(self).emitted@);
                        return Decoded::End;
                    }
                },
                ReadOutcome::Bytes(b) => {
                    assert(self.fed@ + b@ + self.body.unread() =~= self.fed@ + (b@ + self.body.unread()));
                    match self.feed::<E>(&b) {
                        Err(e) => {
                            self.done = true;
                            self.failed = true;
                            return Decoded::Failed(e);
                        },
                        Ok(()) => {},
                    }
                    assert(self.fed@ + self.body.unread() =~= self.received@);
                    match gz_flush(&mut self.inner) {
                        Err(e) => {
                            self.done = true;
                            self.failed = true;
                            return Decoded::Failed(DecodeError::Corrupt(e));
                        },
                        Ok(()) => {},
                    }
                    let out = gz_take_output(&mut self.inner);
                    proof {
                        self.emitted@ = self.emitted@ + out@;
                    }
                    if out.len() > 0 {
                        return Decoded::Chunk(out);
                    }
                    assert(self.emitted@ =~= emitted_now);
                },
            }
        }
    }
}

/// A stage that has ended without a failure has read its gzip member whole,
/// up to the end of the body, and has yielded exactly the decompression of all the compressed bytes it was
/// handed, in order, however they were split into chunks.
pub proof fn lemma_complete_is_gunzip(g: Gzip)
    requires
        g.wf(),
        g.done,
        !g.failed,
    ensures
        g.emitted@ == gunzip_of(g.received@),
{
}

/// Two stages that ended without a failure over the same compressed bytes yielded the same
/// decompressed bytes, whatever the chunk boundaries of either.
pub proof fn lemma_chunking_does_not_matter(a: Gzip, b: Gzip)
    requires
        a.wf(),
        b.wf(),
        a.done,
        !a.failed,
        b.done,
        !b.failed,
        a.received@ == b.received@,
    ensures
        a.emitted@ == b.emitted@,
{
}

} // verus!

//! The content decoder: chooses once, from the response headers and the
//! first event of the body, between passing chunks through and gunzipping.
use vstd::prelude::*;
use hyper::HeaderMap;
use crate::gzip::Gzip;
use crate::headers::{header_remove, header_table, header_values, is_lower_name, values_at};
use crate::reader::{BodyEvent, ReadableChunks, StreamState};

verus! {

/// Why decoding failed.
pub enum DecodeError<E> {
    /// The raw body failed; its error, untouched.
    Body(E),
    /// The compressed data is malformed or truncated.
    Corrupt(std::io::Error),
    /// Bytes followed the end of the compressed stream.
    TrailingData,
}

/// What one step of a decoder yields.
pub enum Decoded<E> {
    /// The next decoded chunk.
    Chunk(Vec<u8>),
    /// The decoded body has ended.
    End,
    /// Decoding failed.
    Failed(DecodeError<E>),
    /// Nothing yet: the next event of the raw body must be handed in.
    NeedInput,
}

/// Which strategy a decoder follows.
#[derive(PartialEq, Eq, Structural, Debug, Clone, Copy)]
pub enum DecoderKind {
    PlainText,
    Gzip,
    Pending,
}

/// Where a decoder stands.
pub enum Inner {
    /// Chunks pass through unchanged. `raw` tells whether they come from
    /// the response body (rather than from an empty one); `ended`, whether
    /// that body has ended.
    PlainText { raw: bool, ended: bool },
    /// Chunks are gunzipped.
    Gzip(Gzip),
    /// The body is gzip-encoded but its first event has not come yet.
    Pending(ReadableChunks),
}

/// A response decompressor over a body whose events are handed in one by one.
pub struct Decoder {
    pub inner: Inner,
}

/// The bytes of the header value that marks gzip.
pub open spec fn gzip_token() -> Seq<u8> {
    seq![0x67u8, 0x7a, 0x69, 0x70]
}

/// Whether one of the values is exactly `gzip`.
pub open spec fn names_gzip(values: Seq<Seq<u8>>) -> bool {
    exists|i: int| 0 <= i < values.len() && values[i] == gzip_token()
}

/// Whether a `Content-Length` header (its values) announces an empty body.
pub open spec fn announces_empty(length: Seq<Seq<u8>>) -> bool {
    length.len() > 0 && length[0] == seq![0x30u8]
}

/// Whether a response with these headers is to be gunzipped.
pub open spec fn wants_gzip(table: Map<Seq<char>, Seq<Seq<u8>>>, check_gzip: bool) -> bool {
    &&& check_gzip
    &&& names_gzip(values_at(table, content_encoding())) || names_gzip(values_at(table, transfer_encoding()))
    &&& !announces_empty(values_at(table, content_length()))
}

/// The headers after detection: the framing headers leave when the content
/// encoding is gzip, since they no longer describe the decoded bytes.
pub open spec fn headers_after(table: Map<Seq<char>, Seq<Seq<u8>>>, check_gzip: bool) -> Map<Seq<char>, Seq<Seq<u8>>> {
    if check_gzip && names_gzip(values_at(table, content_encoding())) {
        table.remove(content_encoding()).remove(content_length())
    } else {
        table
    }
}

pub open spec fn content_encoding() -> Seq<char> {
    "content-encoding"@
}

pub open spec fn transfer_encoding() -> Seq<char> {
    "transfer-encoding"@
}

pub open spec fn content_length() -> Seq<char> {
    "content-length"@
}

/// Whether one of the values is exactly `gzip`.
fn any_gzip(values: &Vec<Vec<u8>>) -> (r: bool)
    ensures
        r == names_gzip(values@.map_values(|v: Vec<u8>| v@)),
{
    let ghost vs = values@.map_values(|v: Vec<u8>| v@);
    let mut i: usize = 0;
    while i < values.len()
        invariant
            i <= values@.len(),
            vs == values@.map_values(|v: Vec<u8>| v@),
            forall|j: int| 0 <= j < i ==> vs[j] != gzip_token(),
        decreases values@.len() - i,
    {
        let v = &values[i];
        if v.len() == 4 && v[0] == 0x67u8 && v[1] == 0x7au8 && v[2] == 0x69u8 && v[3] == 0x70u8 {
            assert(vs[i as int] =~= gzip_token());
            return true;
        }
        assert(vs[i as int] != gzip_token()) by {
            if vs[i as int] == gzip_token() {
                assert(v@.len() == 4);
                assert(v@[0] == gzip_token()[0]);
            }
        };
        i += 1;
    }
    false
}

impl Decoder {
    pub open spec fn wf(&self) -> bool {
        match self.inner {
            Inner::PlainText { raw, ended } => !raw ==> ended,
            Inner::Gzip(g) => g.wf(),
            Inner::Pending(body) => body.wf() && body.needs_chunk(),
        }
    }

    pub open spec fn kind_of(&self) -> DecoderKind {
        match self.inner {
            Inner::PlainText { .. } => DecoderKind::PlainText,
            Inner::Gzip(_) => DecoderKind::Gzip,
            Inner::Pending(_) => DecoderKind::Pending,
        }
    }

    /// Whether the decoder waits for the next event of the raw body.
    pub open spec fn awaits_input(&self) -> bool {
        match self.inner {
            Inner::PlainText { raw, ended } => raw && !ended,
            Inner::Gzip(g) => g.awaits_input(),
            Inner::Pending(_) => true,
        }
    }

    /// A decoder over an empty body: it yields the end and nothing else.
    pub fn empty() -> (r: Decoder)
        ensures
            r.wf(),
            r.kind_of() == DecoderKind::PlainText,
            !r.awaits_input(),
            r.inner == (Inner::PlainText { raw: false, ended: true }),
    {
        Decoder { inner: Inner::PlainText { raw: false, ended: true } }
    }

    /// A decoder that passes the body's chunks through unchanged.
    fn plain_text() -> (r: Decoder)
        ensures
            r.wf(),
            r.inner == (Inner::PlainText { raw: true, ended: false }),
    {
        Decoder { inner: Inner::PlainText { raw: true, ended: false } }
    }

    /// A decoder that gunzips the body, once its first event shows that
    /// the body is not empty.
    fn gzip() -> (r: Decoder)
        ensures
            r.wf(),
            r.kind_of() == DecoderKind::Pending,
            r.inner matches Inner::Pending(body) && body.unread() == Seq::<u8>::empty(),
    {
        Decoder { inner: Inner::Pending(ReadableChunks::new()) }
    }

    /// Chooses the decoder for a response from its headers. Without
    /// `check_gzip` the body passes through as it is. Otherwise it is
    /// gunzipped when `Content-Encoding` or `Transfer-Encoding` has a value
    /// `gzip`, unless `Content-Length` is `0`; and when `Content-Encoding`
    /// names gzip, `Content-Encoding` and `Content-Length` are removed.
    pub fn detect(headers: &mut HeaderMap, check_gzip: bool) -> (r: Decoder)
        ensures
            r.wf(),
            r.kind_of() == if wants_gzip(header_table(*old(headers)), check_gzip) {
                DecoderKind::Pending
            } else {
                DecoderKind::PlainText
            },
            r.awaits_input(),
            header_table(*final(headers)) == headers_after(header_table(*old(headers)), check_gzip),
            !check_gzip ==> r.kind_of() == DecoderKind::PlainText && *final(headers) == *old(headers),
            announces_empty(values_at(header_table(*old(headers)), content_length())) ==> r.kind_of() == DecoderKind::PlainText,
            check_gzip && names_gzip(values_at(header_table(*old(headers)), content_encoding())) ==> {
                &&& !header_table(*final(headers)).contains_key(content_encoding())
                &&& !header_table(*final(headers)).contains_key(content_length())
            },
    {
        if !check_gzip {
            return Decoder::plain_text();
        }
        proof {
            reveal_strlit("content-encoding");
            reveal_strlit("transfer-encoding");
            reveal_strlit("content-length");
        }
        let encoded = header_values(headers, "content-encoding");
        let content_encoding_gzip = any_gzip(&encoded);
        let transfer = header_values(headers, "transfer-encoding");
        let transfer_gzip = any_gzip(&transfer);
        let length = header_values(headers, "content-length");
        let ghost table = header_table(*headers);
        proof {
            assert(encoded@.map_values(|v: Vec<u8>| v@) =~= values_at(table, content_encoding()));
            assert(transfer@.map_values(|v: Vec<u8>| v@) =~= values_at(table, transfer_encoding()));
        }
        let mut is_gzip = content_encoding_gzip || transfer_gzip;
        if is_gzip && length.len() > 0 {
            let first = &length[0];
            if first.len() == 1 && first[0] == 0x30u8 {
                assert(first@ =~= seq![0x30u8]);
                is_gzip = false;
            } else {
                assert(length@[0]@ != seq![0x30u8]) by {
                    if length@[0]@ == seq![0x30u8] {
                        assert(first@.len() == 1);
                        assert(first@[0] == 0x30u8);
                    }
                };
            }
        }
        if content_encoding_gzip {
            header_remove(headers, "content-encoding");
            header_remove(headers, "content-length");
        }
        if is_gzip {
            Decoder::gzip()
        } else {
            Decoder::plain_text()
        }
    }

    /// Which strategy the decoder follows now.
    pub fn kind(&self) -> (r: DecoderKind)
        ensures
            r == self.kind_of(),
    {
        match &self.inner {
            Inner::PlainText { .. } => DecoderKind::PlainText,
            Inner::Gzip(_) => DecoderKind::Gzip,
            Inner::Pending(_) => DecoderKind::Pending,
        }
    }

    /// Whether the decoder waits for the next event of the raw body.
    pub fn wants_input(&self) -> (r: bool)
        requires
            self.wf(),
        ensures
            r == self.awaits_input(),
    {
        match &self.inner {
            Inner::PlainText { raw, ended } => *raw && !*ended,
            Inner::Gzip(g) => g.wants_input(),
            Inner::Pending(_) => true,
        }
    }

    /// The length of the decoded body where it is known in advance: that of
    /// the raw body (`body_length`) when it passes through, zero for an
    /// empty one, and unknown while or when gunzipping.
    pub fn content_length(&self, body_length: Option<u64>) -> (r: Option<u64>)
        ensures
            r == match self.inner {
                Inner::PlainText { raw: true, .. } => body_length,
                Inner::PlainText { raw: false, .. } => Some(0u64),
                _ => None,
            },
    {
        match &self.inner {
            Inner::PlainText { raw, .. } => {
                if *raw {
                    body_length
                } else {
                    Some(0)
                }
            },
            _ => None,
        }
    }

    /// One step of the decoded body. `ev` is the next event of the raw
    /// body, handed in only when the decoder waits for one. A pending
    /// decoder resolves on its first event: the end makes it pass through
    /// an empty body; a chunk starts gunzipping, that chunk included.
    pub fn poll_next<E>(&mut self, ev: Option<BodyEvent<E>>) -> (r: Decoded<E>)
        requires
            old(self).wf(),
            ev is Some ==> old(self).awaits_input(),
        ensures
            final(self).wf(),
            r is NeedInput ==> final(self).awaits_input(),
            r is Chunk && !(old(self).inner is PlainText) ==> r->Chunk_0@.len() > 0,
            match old(self).inner {
                Inner::PlainText { raw, ended } => match ev {
                    None => {
                        &&& *final(self) == *old(self)
                        &&& if ended { r is End } else { r is NeedInput }
                    },
                    Some(BodyEvent::Chunk(c)) => r == Decoded::<E>::Chunk(c) && *final(self) == *old(self),
                    Some(BodyEvent::End) => r is End && final(self).inner == (Inner::PlainText { raw, ended: true }),
                    Some(BodyEvent::Failed(e)) => r == Decoded::<E>::Failed(DecodeError::Body(e)) && *final(self) == *old(self),
                },
                Inner::Pending(_) => match ev {
                    None => r is NeedInput && *final(self) == *old(self),
                    Some(BodyEvent::End) => r is End && final(self).inner == (Inner::PlainText { raw: false, ended: true }),
                    Some(BodyEvent::Failed(e)) => r == Decoded::<E>::Failed(DecodeError::Body(e)) && *final(self) == *old(self),
                    Some(BodyEvent::Chunk(c)) => final(self).inner matches Inner::Gzip(g) && {
                        &&& g.received@ == c@
                        &&& c@.len() == 0 ==> r is NeedInput
                        &&& !(r is Failed && r->Failed_0 is Body)
                        &&& r == Decoded::<E>::Failed(DecodeError::TrailingData) ==> g.member_ended() && g.fed@.len() < g.received@.len()
                        &&& g.done ==> r is Failed || g.complete
                        &&& r is Failed <==> g.failed
                        &&& r is Chunk ==> g.emitted@ == r->Chunk_0@
                        &&& !(r is Chunk) ==> g.emitted@ == Seq::<u8>::empty()
                    },
                },
                Inner::Gzip(g) => final(self).inner matches Inner::Gzip(h) && {
                    &&& g.done ==> r is End
                    &&& r is End ==> h.done
                    &&& !g.done && ev is None && g.body.needs_chunk() ==> r is NeedInput
                    &&& r == Decoded::<E>::Failed(DecodeError::TrailingData) ==> h.member_ended() && h.fed@.len() < h.received@.len()
                    &&& (r is Failed && r->Failed_0 is Body) ==> (ev is Some && ev->Some_0 is Failed)
                    &&& !g.done && h.done ==> r is Failed || h.complete
                    &&& r is Failed ==> h.failed
                    &&& !g.done && !(r is Failed) ==> !h.failed
                    &&& r is End && !g.done ==> h.complete
                    &&& r is Chunk ==> h.emitted@ == g.emitted@ + r->Chunk_0@
                    &&& !(r is Chunk) ==> h.emitted@ == g.emitted@
                    &&& !g.done && g.member_ended() && g.body.unread().len() > 0 ==> r == Decoded::<E>::Failed(DecodeError::TrailingData)
                    &&& match ev {
                        Some(BodyEvent::Chunk(c)) => {
                            &&& h.received@ == g.received@ + c@
                            &&& g.member_ended() && c@.len() > 0 ==> r == Decoded::<E>::Failed(DecodeError::TrailingData)
                        },
                        Some(BodyEvent::Failed(e)) => r == Decoded::<E>::Failed(DecodeError::Body(e)),
                        _ => true,
                    }
                },
            },
    {
        match &mut self.inner {
            Inner::PlainText { raw: _, ended } => {
                if *ended {
                    return match ev {
                        Some(BodyEvent::Chunk(c)) => Decoded::Chunk(c),
                        Some(BodyEvent::Failed(e)) => Decoded::Failed(DecodeError::Body(e)),
                        _ => Decoded::End,
                    };
                }
                match ev {
                    None => Decoded::NeedInput,
                    Some(BodyEvent::Chunk(c)) => Decoded::Chunk(c),
                    Some(BodyEvent::End) => {
                        *ended = true;
                        Decoded::End
                    },
                    Some(BodyEvent::Failed(e)) => Decoded::Failed(DecodeError::Body(e)),
                }
            },
            Inner::Gzip(g) => g.poll_next(ev),
            Inner::Pending(body) => {
                let ev = match ev {
                    None => return Decoded::NeedInput,
                    Some(ev) => ev,
                };
                match body.poll_next(ev) {
                    Err(e) => Decoded::Failed(DecodeError::Body(e)),
                    Ok(StreamState::Eof) => {
                        self.inner = Inner::PlainText { raw: false, ended: true };
                        Decoded::End
                    },
                    Ok(StreamState::HasMore) => {
                        let mut taken = ReadableChunks::new();
                        core::mem::swap(body, &mut taken);
                        let mut g = Gzip::new(taken);
                        let r = g.poll_next::<E>(None);
                        self.inner = Inner::Gzip(g);
                        r
                    },
                }
            },
        }
    }
}

} // verus!

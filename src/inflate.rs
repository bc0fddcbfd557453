//! The gzip decompressor this library drives: flate2's push-style decoder,
//! whose decompressed output accumulates in a byte vector.
use vstd::prelude::*;
use flate2::write::GzDecoder;
use std::io::Write;

verus! {

#[verifier::external_type_specification]
#[verifier::external_body]
pub struct ExIoError(std::io::Error);

/// A gzip decompressor together with the vector its output goes to. Verus
/// cannot declare flate2's decoder type itself (its parameter is bounded by
/// `std::io::Write`), so it is held here, opaque.
#[verifier::external_body]
pub struct Inflater {
    inner: GzDecoder<Vec<u8>>,
}

/// What the output vector of a decompressor currently holds: the
/// decompressed bytes handed to it and not yet taken out.
pub uninterp spec fn gz_output(d: Inflater) -> Seq<u8>;

/// Whether the gzip member has ended, its trailer included: from then on the
/// decompressor takes no more bytes.
pub uninterp spec fn gz_ended(d: Inflater) -> bool;

/// Whether `try_finish` has been called on the decompressor: from then on it
/// must not be written to or flushed.
pub uninterp spec fn gz_finished(d: Inflater) -> bool;

/// The compressed bytes a decompressor has taken so far, in order.
pub uninterp spec fn gz_consumed(d: Inflater) -> Seq<u8>;

/// The decompressed bytes taken out of a decompressor's output vector so
/// far, in order.
pub uninterp spec fn gz_taken(d: Inflater) -> Seq<u8>;

/// What decompressing these bytes, a whole gzip member, gives. It depends
/// on the bytes alone.
pub uninterp spec fn gunzip_of(compressed: Seq<u8>) -> Seq<u8>;

/// Relies on `flate2::write::GzDecoder::new`: a fresh decoder writing into an
/// empty vector.
#[verifier::external_body]
pub(crate) fn gz_new() -> (r: Inflater)
    ensures
        gz_output(r) == Seq::<u8>::empty(),
        !gz_ended(r),
        !gz_finished(r),
        gz_consumed(r) == Seq::<u8>::empty(),
        gz_taken(r) == Seq::<u8>::empty(),
{
    Inflater { inner: GzDecoder::new(Vec::new()) }
}

/// Relies on `Write::write` of `flate2::write::GzDecoder`: it consumes at most
/// the bytes given, and only appends to the output vector. Once the member
/// and its trailer have been read it takes nothing more (`Ok(0)`), and before
/// that it never returns `Ok(0)` on a non-empty input.
#[verifier::external_body]
pub(crate) fn gz_write(d: &mut Inflater, buf: &[u8]) -> (r: Result<usize, std::io::Error>)
    requires
        !gz_finished(*old(d)),
    ensures
        !gz_finished(*final(d)),
        r is Ok ==> r->Ok_0 <= buf@.len(),
        r is Ok ==> gz_consumed(*final(d)) == gz_consumed(*old(d)) + buf@.take(r->Ok_0 as int),
        gz_taken(*final(d)) == gz_taken(*old(d)),
        buf@.len() > 0 ==> (gz_ended(*old(d)) <==> r == Ok::<usize, std::io::Error>(0)),
        gz_ended(*old(d)) ==> gz_ended(*final(d)),
        gz_output(*old(d)).is_prefix_of(gz_output(*final(d))),
{
    d.inner.write(buf)
}

/// Relies on `Write::flush` of `flate2::write::GzDecoder`: it moves all the
/// decompressed output available so far to the output vector, appending.
#[verifier::external_body]
pub(crate) fn gz_flush(d: &mut Inflater) -> (r: Result<(), std::io::Error>)
    requires
        !gz_finished(*old(d)),
    ensures
        !gz_finished(*final(d)),
        gz_ended(*final(d)) == gz_ended(*old(d)),
        gz_output(*old(d)).is_prefix_of(gz_output(*final(d))),
        gz_consumed(*final(d)) == gz_consumed(*old(d)),
        gz_taken(*final(d)) == gz_taken(*old(d)),
{
    d.inner.flush()
}

/// Relies on `flate2::write::GzDecoder::try_finish`: it completes the stream
/// (after which it may no longer be written to),
/// appending the last output, and fails on a truncated or corrupt member
/// (in particular whenever the trailer has not been read in full). After a
/// clean finish, all of the member's decompressed bytes have been output.
#[verifier::external_body]
pub(crate) fn gz_try_finish(d: &mut Inflater) -> (r: Result<(), std::io::Error>)
    ensures
        gz_finished(*final(d)),
        r is Ok ==> gz_ended(*old(d)),
        r is Ok ==> gz_taken(*final(d)) + gz_output(*final(d)) == gunzip_of(gz_consumed(*final(d))),
        gz_ended(*final(d)) == gz_ended(*old(d)),
        gz_consumed(*final(d)) == gz_consumed(*old(d)),
        gz_taken(*final(d)) == gz_taken(*old(d)),
        gz_output(*old(d)).is_prefix_of(gz_output(*final(d))),
{
    d.inner.try_finish()
}

/// Relies on `flate2::write::GzDecoder::get_mut`: takes the output vector's
/// contents out, leaving it empty.
#[verifier::external_body]
pub(crate) fn gz_take_output(d: &mut Inflater) -> (r: Vec<u8>)
    ensures
        gz_finished(*final(d)) == gz_finished(*old(d)),
        r@ == gz_output(*old(d)),
        gz_output(*final(d)) == Seq::<u8>::empty(),
        gz_ended(*final(d)) == gz_ended(*old(d)),
        gz_consumed(*final(d)) == gz_consumed(*old(d)),
        gz_taken(*final(d)) == gz_taken(*old(d)) + gz_output(*old(d)),
{
    std::mem::take(d.inner.get_mut())
}

} // verus!

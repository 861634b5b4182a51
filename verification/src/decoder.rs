//! Streaming decoders for the supported content encodings.
//!
//! The three decoders come from `flate2`, `brotli` and `zstd`. Nothing in
//! this module decodes a byte itself: it says what a decoder still has to
//! hand out, and what one read does to that.
//!
//! A stream is written `Ok(bytes)` where it is sound and decodes to `bytes`,
//! and `Err(bytes)` where it has a fault and decodes to `bytes` before the
//! fault. A decoder drops what it wrote during the read that meets the
//! fault, so how many of those bytes it hands out before it reports the
//! error depends on how the reads are sized; that they are the first of
//! `bytes`, in order, does not.

use crate::encoding::CompressionAlgorithm;
use vstd::prelude::*;

verus! {

/// The gzip decoder of `flate2`.
#[verifier::external_type_specification]
#[verifier::external_body]
#[verifier::reject_recursive_types(R)]
pub struct ExGzDecoder<R>(flate2::read::GzDecoder<R>);

/// The stream decoder of `zstd`.
#[verifier::external_type_specification]
#[verifier::external_body]
#[verifier::reject_recursive_types(R)]
pub struct ExZstdDecoder<'a, R>(zstd::stream::read::Decoder<'a, R>);

/// The buffered reader of std, which the zstd decoder puts around its input.
#[verifier::external_type_specification]
#[verifier::external_body]
#[verifier::reject_recursive_types(R)]
pub struct ExBufReader<R: ?Sized>(std::io::BufReader<R>);

/// The decoder of `brotli` over a byte slice. `brotli::Decompressor` is
/// bounded by std's `Read`, so it is kept behind this struct, whose inside
/// the verifier does not look at.
#[verifier::external_body]
pub struct BrotliDecoder<'a> {
    inner: brotli::Decompressor<&'a [u8]>,
}

/// What `body` decodes to as a gzip stream: `Ok` of the decoded bytes where
/// a decoder made over it reaches its end without an error, and `Err` of the
/// bytes that the stream decodes to before its fault where it reports one.
pub uninterp spec fn gzip_decoded(body: Seq<u8>) -> Result<Seq<u8>, Seq<u8>>;

/// What `body` decodes to as a brotli stream, read through an input buffer
/// of `buffer_bytes`: `Ok` of the decoded bytes where a decoder made over it
/// reaches its end without an error, and `Err` of the bytes that the stream
/// decodes to before its fault where it reports one. Bytes that follow the
/// end of the stream are no fault of it.
pub uninterp spec fn brotli_decoded(body: Seq<u8>, buffer_bytes: usize) -> Result<
    Seq<u8>,
    Seq<u8>,
>;

/// What `body` decodes to as a zstd stream: `Ok` of the decoded bytes where
/// a decoder made over it reaches its end without an error, and `Err` of the
/// bytes that the stream decodes to before its fault where it reports one.
pub uninterp spec fn zstd_decoded(body: Seq<u8>) -> Result<Seq<u8>, Seq<u8>>;

/// What a gzip decoder has yet to hand out: `Ok` of the bytes still to come
/// where it will reach its end, and `Err` of the bytes that its stream still
/// decodes to before the fault where it will report an error.
pub uninterp spec fn gzip_pending(decoder: flate2::read::GzDecoder<&[u8]>) -> Result<
    Seq<u8>,
    Seq<u8>,
>;

/// What a brotli decoder has yet to hand out: `Ok` of the bytes still to
/// come where it will reach its end, and `Err` of the bytes that its stream
/// still decodes to before the fault where it will report an error.
pub uninterp spec fn brotli_pending(decoder: BrotliDecoder) -> Result<Seq<u8>, Seq<u8>>;

/// What a zstd decoder has yet to hand out: `Ok` of the bytes still to come
/// where it will reach its end, and `Err` of the bytes that its stream still
/// decodes to before the fault where it will report an error.
pub uninterp spec fn zstd_pending(
    decoder: zstd::stream::read::Decoder<'static, std::io::BufReader<&[u8]>>,
) -> Result<Seq<u8>, Seq<u8>>;

/// What one read into `out[start..]` does. `pending` is what the decoder
/// had yet to hand out, `before` and `after` are the buffer around the read,
/// and `outcome` is `None` for a reported error, else what the decoder has
/// left and the number of bytes written.
///
/// The buffer keeps its length and everything before `start`.
///
/// A decoder that will reach its end never reports an error. It writes the
/// next bytes of its stream, and writes none only at the end of it. After a
/// read that wrote bytes it has the rest of the stream left. Of a decoder
/// that has reported its end nothing is said: what a further read of it
/// gives is left open.
///
/// A decoder with a fault ahead never reports an end. It either writes at
/// least one byte, the next of those that its stream decodes to before the
/// fault, and has the rest of them left; or it reports the error. Once none
/// of those bytes is left it reports the error. Nothing is said of how many
/// of them it hands out before it does.
pub open spec fn read_step(
    pending: Result<Seq<u8>, Seq<u8>>,
    before: Seq<u8>,
    start: int,
    after: Seq<u8>,
    outcome: Option<(Result<Seq<u8>, Seq<u8>>, int)>,
) -> bool {
    &&& after.len() == before.len()
    &&& after.subrange(0, start) == before.subrange(0, start)
    &&& match outcome {
        Some((left, n)) => {
            &&& 0 <= n <= before.len() - start
            &&& match pending {
                Ok(rest) => {
                    &&& n <= rest.len()
                    &&& (n == 0 <==> rest.len() == 0)
                    &&& after.subrange(start, start + n) == rest.subrange(0, n)
                    &&& n > 0 ==> left == Ok::<Seq<u8>, Seq<u8>>(
                        rest.subrange(n, rest.len() as int),
                    )
                },
                Err(rest) => {
                    &&& 0 < n <= rest.len()
                    &&& after.subrange(start, start + n) == rest.subrange(0, n)
                    &&& left == Err::<Seq<u8>, Seq<u8>>(rest.subrange(n, rest.len() as int))
                },
            }
        },
        None => pending is Err,
    }
}

/// Calls `flate2::read::GzDecoder::new`. The new decoder has yet to hand
/// out what the body decodes to as a gzip stream. A broken header is no
/// error here: the decoder reports it at the first read.
#[verifier::external_body]
fn gzip_open<'a>(body: &'a [u8]) -> (decoder: flate2::read::GzDecoder<&'a [u8]>)
    ensures
        gzip_pending(decoder) == gzip_decoded(body@),
{
    flate2::read::GzDecoder::new(body)
}

/// Calls `brotli::Decompressor::new`, which allocates an input buffer of
/// `buffer_bytes` (4096 where that is zero). The new decoder has yet to
/// hand out what the body decodes to as a brotli stream with that buffer.
#[verifier::external_body]
fn brotli_open<'a>(body: &'a [u8], buffer_bytes: usize) -> (decoder: BrotliDecoder<'a>)
    requires
        buffer_bytes <= isize::MAX,
    ensures
        brotli_pending(decoder) == brotli_decoded(body@, buffer_bytes),
{
    BrotliDecoder { inner: brotli::Decompressor::new(body, buffer_bytes) }
}

/// Calls `zstd::stream::read::Decoder::new`, which fails where zstd cannot
/// set up a decompression context, whatever the body holds: nothing is
/// promised of when it returns `None`. A decoder that it does return has yet
/// to hand out what the body decodes to as a zstd stream.
#[verifier::external_body]
fn zstd_open<'a>(body: &'a [u8]) -> (decoder: Option<
    zstd::stream::read::Decoder<'static, std::io::BufReader<&'a [u8]>>,
>)
    ensures
        decoder matches Some(d) ==> zstd_pending(d) == zstd_decoded(body@),
{
    zstd::stream::read::Decoder::new(body).ok()
}

/// Calls `read` of `flate2::read::GzDecoder` on `out[start..]`, and gives
/// the decoder back unless it reported an error. The read is a `read_step`:
/// the decoder answers zero only once its trailer has been read and found
/// right, and drops what it wrote in a read that ends in an error.
#[verifier::external_body]
fn gzip_read<'a>(
    decoder: flate2::read::GzDecoder<&'a [u8]>,
    out: &mut Vec<u8>,
    start: usize,
) -> (r: Option<(flate2::read::GzDecoder<&'a [u8]>, usize)>)
    requires
        start < old(out)@.len(),
    ensures
        read_step(
            gzip_pending(decoder),
            old(out)@,
            start as int,
            final(out)@,
            match r {
                Some((d, n)) => Some((gzip_pending(d), n as int)),
                None => None,
            },
        ),
{
    let mut decoder = decoder;
    match std::io::Read::read(&mut decoder, &mut out[start..]) {
        Ok(n) => Some((decoder, n)),
        Err(_) => None,
    }
}

/// Calls `read` of `brotli::Decompressor` on `out[start..]`, and gives the
/// decoder back unless it reported an error. The read is a `read_step`: the
/// decoder answers zero the first time only at the end of its stream, and
/// drops what it wrote in a read that ends in an error. A read after that
/// zero may report an error where bytes follow the stream, which is why
/// `read_step` says nothing of a decoder that has reported its end.
#[verifier::external_body]
fn brotli_read<'a>(decoder: BrotliDecoder<'a>, out: &mut Vec<u8>, start: usize) -> (r: Option<
    (BrotliDecoder<'a>, usize),
>)
    requires
        start < old(out)@.len(),
    ensures
        read_step(
            brotli_pending(decoder),
            old(out)@,
            start as int,
            final(out)@,
            match r {
                Some((d, n)) => Some((brotli_pending(d), n as int)),
                None => None,
            },
        ),
{
    let mut decoder = decoder;
    match std::io::Read::read(&mut decoder.inner, &mut out[start..]) {
        Ok(n) => Some((decoder, n)),
        Err(_) => None,
    }
}

/// Calls `read` of `zstd::stream::read::Decoder` on `out[start..]`, and
/// gives the decoder back unless it reported an error. The read is a
/// `read_step`: the decoder answers zero only once its input has ended on a
/// finished frame, and drops what it wrote in a read that ends in an error.
#[verifier::external_body]
fn zstd_read<'a>(
    decoder: zstd::stream::read::Decoder<'static, std::io::BufReader<&'a [u8]>>,
    out: &mut Vec<u8>,
    start: usize,
) -> (r: Option<(zstd::stream::read::Decoder<'static, std::io::BufReader<&'a [u8]>>, usize)>)
    requires
        start < old(out)@.len(),
    ensures
        read_step(
            zstd_pending(decoder),
            old(out)@,
            start as int,
            final(out)@,
            match r {
                Some((d, n)) => Some((zstd_pending(d), n as int)),
                None => None,
            },
        ),
{
    let mut decoder = decoder;
    match std::io::Read::read(&mut decoder, &mut out[start..]) {
        Ok(n) => Some((decoder, n)),
        Err(_) => None,
    }
}

/// What `body` decodes to as a stream of `algorithm`: `Ok` of the decoded
/// bytes where it is sound, and `Err` of the bytes that it decodes to before
/// its fault where it is not. `buffer_bytes` is the size of brotli's input
/// buffer, and matters to no other algorithm.
pub open spec fn decoded(
    algorithm: CompressionAlgorithm,
    body: Seq<u8>,
    buffer_bytes: usize,
) -> Result<Seq<u8>, Seq<u8>> {
    match algorithm {
        CompressionAlgorithm::Gzip => gzip_decoded(body),
        CompressionAlgorithm::Brotli => brotli_decoded(body, buffer_bytes),
        CompressionAlgorithm::Zstd => zstd_decoded(body),
    }
}

/// A decoder at work on one request body. It is made for that request and
/// dropped with it, so no state passes from one request to the next.
pub enum BodyDecoder<'a> {
    Gzip(flate2::read::GzDecoder<&'a [u8]>),
    Brotli(BrotliDecoder<'a>),
    Zstd(zstd::stream::read::Decoder<'static, std::io::BufReader<&'a [u8]>>),
}

impl<'a> BodyDecoder<'a> {
    /// What the decoder has yet to hand out: `Ok` of the bytes still to come
    /// where it will reach its end, and `Err` of the bytes that its stream
    /// still decodes to before the fault where it will report an error.
    pub open spec fn pending(self) -> Result<Seq<u8>, Seq<u8>> {
        match self {
            BodyDecoder::Gzip(d) => gzip_pending(d),
            BodyDecoder::Brotli(d) => brotli_pending(d),
            BodyDecoder::Zstd(d) => zstd_pending(d),
        }
    }

    /// The algorithm that the decoder runs.
    pub open spec fn algorithm(self) -> CompressionAlgorithm {
        match self {
            BodyDecoder::Gzip(_) => CompressionAlgorithm::Gzip,
            BodyDecoder::Brotli(_) => CompressionAlgorithm::Brotli,
            BodyDecoder::Zstd(_) => CompressionAlgorithm::Zstd,
        }
    }

    /// Makes the decoder of `algorithm` over `body`. Gzip and brotli always
    /// give one; zstd may fail to set one up. A decoder that is returned has
    /// the whole decoded body yet to hand out.
    pub fn open(algorithm: CompressionAlgorithm, body: &'a [u8], buffer_bytes: usize) -> (opened:
        Option<BodyDecoder<'a>>)
        requires
            buffer_bytes <= isize::MAX,
        ensures
            algorithm != CompressionAlgorithm::Zstd ==> opened is Some,
            opened matches Some(d) ==> d.algorithm() == algorithm && d.pending() == decoded(
                algorithm,
                body@,
                buffer_bytes,
            ),
    {
        match algorithm {
            CompressionAlgorithm::Gzip => Some(BodyDecoder::Gzip(gzip_open(body))),
            CompressionAlgorithm::Brotli => Some(BodyDecoder::Brotli(brotli_open(body, buffer_bytes))),
            CompressionAlgorithm::Zstd => match zstd_open(body) {
                Some(d) => Some(BodyDecoder::Zstd(d)),
                None => None,
            },
        }
    }

    /// Reads once into `out[start..]`. Returns the decoder and the number
    /// of bytes written, or `None` where the decoder reported an error. A
    /// read that wrote no byte has reached the end of a sound stream; of the
    /// decoder that comes back with it nothing more is known.
    pub fn read(self, out: &mut Vec<u8>, start: usize) -> (r: Option<(BodyDecoder<'a>, usize)>)
        requires
            start < old(out)@.len(),
        ensures
            read_step(
                self.pending(),
                old(out)@,
                start as int,
                final(out)@,
                match r {
                    Some((d, n)) => Some((d.pending(), n as int)),
                    None => None,
                },
            ),
            r matches Some((d, _)) ==> d.algorithm() == self.algorithm(),
    {
        match self {
            BodyDecoder::Gzip(d) => match gzip_read(d, out, start) {
                Some((d, n)) => Some((BodyDecoder::Gzip(d), n)),
                None => None,
            },
            BodyDecoder::Brotli(d) => match brotli_read(d, out, start) {
                Some((d, n)) => Some((BodyDecoder::Brotli(d), n)),
                None => None,
            },
            BodyDecoder::Zstd(d) => match zstd_read(d, out, start) {
                Some((d, n)) => Some((BodyDecoder::Zstd(d), n)),
                None => None,
            },
        }
    }
}

} // verus!

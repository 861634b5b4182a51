//! Decompression of request bodies under a cap on the decoded size.

use crate::decoder::{decoded, read_step, BodyDecoder};
use crate::encoding::{algorithm_of, CompressionAlgorithm};
use vstd::prelude::*;
use vstd::slice::slice_to_vec;

verus! {

/// Why a request body was turned away.
#[derive(Clone, Copy, Debug, PartialEq, Eq, Structural)]
pub enum Rejection {
    /// The content encoding names no supported algorithm.
    UnsupportedCompressionAlgorithm,
    /// The decoder reported an error: the body is truncated, malformed or
    /// fails its checksum.
    MalformedBody,
    /// The decoded body is longer than the configured cap.
    PayloadTooLarge,
}

/// The size that the output buffer starts with, where the cap allows it.
pub const INITIAL_CAPACITY: usize = 4096;

/// The size of brotli's input buffer where the configuration names none.
pub const DEFAULT_BROTLI_BUFFER_BYTES: usize = 4096;

/// The settings of the decompression stage.
#[derive(Clone, Copy, Debug)]
pub struct DecompressionConfig {
    max_decoded_body_bytes: usize,
    brotli_buffer_bytes: usize,
}

impl DecompressionConfig {
    #[verifier::type_invariant]
    spec fn buffer_can_be_allocated(self) -> bool {
        self.brotli_buffer_bytes <= isize::MAX
    }

    /// The cap on the decoded size of a body.
    pub closed spec fn limit(self) -> usize {
        self.max_decoded_body_bytes
    }

    /// The size of brotli's input buffer.
    pub closed spec fn buffer(self) -> usize {
        self.brotli_buffer_bytes
    }

    /// A configuration with the given cap and brotli's default input buffer.
    /// There is no configuration without a cap.
    pub fn with_limit(max_decoded_body_bytes: usize) -> (config: DecompressionConfig)
        ensures
            config.limit() == max_decoded_body_bytes,
            config.buffer() == DEFAULT_BROTLI_BUFFER_BYTES,
    {
        DecompressionConfig {
            max_decoded_body_bytes,
            brotli_buffer_bytes: DEFAULT_BROTLI_BUFFER_BYTES,
        }
    }

    /// A configuration with the given cap and brotli input buffer, or `None`
    /// where a buffer of that size could not be allocated on any machine.
    pub fn new(max_decoded_body_bytes: usize, brotli_buffer_bytes: usize) -> (config: Option<
        DecompressionConfig,
    >)
        ensures
            config is Some <==> brotli_buffer_bytes <= isize::MAX,
            config matches Some(c) ==> c.limit() == max_decoded_body_bytes && c.buffer()
                == brotli_buffer_bytes,
    {
        if brotli_buffer_bytes <= isize::MAX as usize {
            Some(DecompressionConfig { max_decoded_body_bytes, brotli_buffer_bytes })
        } else {
            None
        }
    }

    /// The cap on the decoded size of a body.
    pub fn max_decoded_body_bytes(&self) -> (bytes: usize)
        ensures
            bytes == self.limit(),
    {
        self.max_decoded_body_bytes
    }

    /// The size of brotli's input buffer.
    pub fn brotli_buffer_bytes(&self) -> (bytes: usize)
        ensures
            bytes == self.buffer(),
            bytes <= isize::MAX,
    {
        proof {
            use_type_invariant(self);
        }
        self.brotli_buffer_bytes
    }
}

/// The size that a buffer of `current` bytes grows to under a cap of
/// `limit`: twice its size, but at least the initial capacity and at most
/// the cap.
pub open spec fn grown(current: int, limit: int) -> int {
    let doubled = if 2 * current >= INITIAL_CAPACITY as int {
        2 * current
    } else {
        INITIAL_CAPACITY as int
    };
    if doubled <= limit {
        doubled
    } else {
        limit
    }
}

/// The size to grow a buffer of `current` bytes to. A buffer below the cap
/// always grows, and none grows beyond the cap.
pub fn next_capacity(current: usize, limit: usize) -> (next: usize)
    ensures
        next == grown(current as int, limit as int),
        next <= limit,
        current < limit ==> current < next,
{
    if current > limit / 2 {
        limit
    } else {
        let doubled = 2 * current;
        let wanted = if doubled >= INITIAL_CAPACITY {
            doubled
        } else {
            INITIAL_CAPACITY
        };
        if wanted <= limit {
            wanted
        } else {
            limit
        }
    }
}

/// Whether `r` is what a stream delivers under a cap of `limit` bytes.
///
/// A sound stream (`Ok`) delivers its bytes where they fit under the cap,
/// and `PayloadTooLarge` where they do not.
///
/// A stream with a fault (`Err`) never delivers bytes. Where all that it
/// decodes to before the fault fits under the cap, it is turned away as
/// `MalformedBody`. Where more than the cap comes before the fault, it is
/// turned away as `PayloadTooLarge` if the cap is passed before the decoder
/// reports the error, and as `MalformedBody` if the decoder reports first.
pub open spec fn delivers(
    stream: Result<Seq<u8>, Seq<u8>>,
    limit: int,
    r: Result<Vec<u8>, Rejection>,
) -> bool {
    match stream {
        Ok(bytes) => if bytes.len() <= limit {
            r matches Ok(v) && v@ == bytes
        } else {
            r == Err::<Vec<u8>, Rejection>(Rejection::PayloadTooLarge)
        },
        Err(bytes) => if bytes.len() <= limit {
            r == Err::<Vec<u8>, Rejection>(Rejection::MalformedBody)
        } else {
            r == Err::<Vec<u8>, Rejection>(Rejection::MalformedBody) || r == Err::<
                Vec<u8>,
                Rejection,
            >(Rejection::PayloadTooLarge)
        },
    }
}

/// Whether two answers are the same: the same bytes, or the same rejection.
pub open spec fn same_answer(a: Result<Vec<u8>, Rejection>, b: Result<Vec<u8>, Rejection>) -> bool {
    match (a, b) {
        (Ok(x), Ok(y)) => x@ == y@,
        (Err(x), Err(y)) => x == y,
        _ => false,
    }
}

/// What a stream delivers under a cap is settled by the stream and the cap,
/// unless the stream has a fault with more than the cap before it: any two
/// answers that the same stream delivers under the same cap are the same.
pub proof fn lemma_delivery_is_settled(
    stream: Result<Seq<u8>, Seq<u8>>,
    limit: int,
    a: Result<Vec<u8>, Rejection>,
    b: Result<Vec<u8>, Rejection>,
)
    requires
        delivers(stream, limit, a),
        delivers(stream, limit, b),
        stream matches Err(bytes) ==> bytes.len() <= limit,
    ensures
        same_answer(a, b),
{
}

/// Reads the decoder to its end into a buffer that grows by doubling and
/// never beyond `limit` bytes. Once the buffer is full at the cap, one more
/// byte is asked for, into a buffer of its own, to tell a stream that ends
/// there from one that goes on. An error that the decoder reports is always
/// answered with `MalformedBody`; `PayloadTooLarge` is answered only after
/// the decoder has handed out more than `limit` bytes.
pub fn read_to_limit<'a>(decoder: BodyDecoder<'a>, limit: usize) -> (r: Result<Vec<u8>, Rejection>)
    ensures
        delivers(decoder.pending(), limit as int, r),
        r matches Ok(v) ==> v@.len() <= limit,
{
    let ghost stream = decoder.pending();
    let mut current = decoder;
    let mut out: Vec<u8> = Vec::new();
    let mut filled: usize = 0;
    proof {
        let bytes = match stream {
            Ok(bytes) => bytes,
            Err(bytes) => bytes,
        };
        assert(bytes.subrange(0, bytes.len() as int) =~= bytes);
    }
    loop
        invariant
            stream == decoder.pending(),
            filled <= out@.len() <= limit,
            match stream {
                Ok(bytes) => {
                    &&& filled <= bytes.len()
                    &&& out@.subrange(0, filled as int) == bytes.subrange(0, filled as int)
                    &&& current.pending() == Ok::<Seq<u8>, Seq<u8>>(
                        bytes.subrange(filled as int, bytes.len() as int),
                    )
                },
                Err(bytes) => {
                    &&& filled <= bytes.len()
                    &&& current.pending() == Err::<Seq<u8>, Seq<u8>>(
                        bytes.subrange(filled as int, bytes.len() as int),
                    )
                },
            },
        decreases limit - filled,
    {
        if filled == out.len() {
            if filled == limit {
                let mut probe: Vec<u8> = Vec::new();
                probe.push(0u8);
                match current.read(&mut probe, 0) {
                    None => {
                        return Err(Rejection::MalformedBody);
                    },
                    Some((_, n)) => {
                        if n == 0 {
                            assert(out@ == out@.subrange(0, filled as int));
                            assert(stream matches Ok(bytes) && out@ == bytes) by {
                                let bytes = stream->Ok_0;
                                assert(bytes == bytes.subrange(0, filled as int));
                            }
                            return Ok(out);
                        } else {
                            return Err(Rejection::PayloadTooLarge);
                        }
                    },
                }
            }
            let target = next_capacity(filled, limit);
            let ghost before = out@;
            out.resize(target, 0u8);
            assert(out@.subrange(0, filled as int) == before.subrange(0, filled as int));
        }
        let ghost before = out@;
        let ghost pending = current.pending();
        match current.read(&mut out, filled) {
            None => {
                return Err(Rejection::MalformedBody);
            },
            Some((d, n)) => {
                if n == 0 {
                    out.truncate(filled);
                    assert(stream matches Ok(bytes) && out@ == bytes) by {
                        let bytes = stream->Ok_0;
                        assert(bytes == bytes.subrange(0, filled as int));
                    }
                    return Ok(out);
                }
                proof {
                    if let Err(bytes) = stream {
                        let rest = pending->Err_0;
                        assert(rest.subrange(n as int, rest.len() as int) =~= bytes.subrange(
                            filled + n,
                            bytes.len() as int,
                        ));
                    }
                    if let Ok(bytes) = stream {
                        let rest = pending->Ok_0;
                        let k = filled as int;
                        assert(out@.subrange(0, k) == bytes.subrange(0, k));
                        assert(out@.subrange(k, k + n) == rest.subrange(0, n as int));
                        assert forall|i: int| 0 <= i < k + n implies out@[i] == bytes[i] by {
                            if i < k {
                                assert(out@.subrange(0, k)[i] == bytes.subrange(0, k)[i]);
                            } else {
                                assert(out@.subrange(k, k + n)[i - k] == rest.subrange(0, n as int)[i
                                    - k]);
                            }
                        }
                        assert(out@.subrange(0, k + n) =~= bytes.subrange(0, k + n));
                        assert(rest.subrange(n as int, rest.len() as int) =~= bytes.subrange(
                            k + n,
                            bytes.len() as int,
                        ));
                    }
                }
                current = d;
                filled = filled + n;
            },
        }
    }
}

/// Decodes `body` with `algorithm` under the configured cap, with a decoder
/// that is made for this call and dropped at its end.
///
/// The result is what the decoded stream delivers under the cap. Where zstd
/// cannot set up a decoder, the body is turned away as `MalformedBody`
/// whatever it holds.
pub fn decompress_body(
    algorithm: CompressionAlgorithm,
    body: &[u8],
    config: &DecompressionConfig,
) -> (r: Result<Vec<u8>, Rejection>)
    ensures
        delivers(decoded(algorithm, body@, config.buffer()), config.limit() as int, r) || (algorithm
            == CompressionAlgorithm::Zstd && r == Err::<Vec<u8>, Rejection>(
            Rejection::MalformedBody,
        )),
        r matches Ok(v) ==> v@.len() <= config.limit(),
{
    match BodyDecoder::open(algorithm, body, config.brotli_buffer_bytes()) {
        Some(decoder) => read_to_limit(decoder, config.max_decoded_body_bytes()),
        None => Err(Rejection::MalformedBody),
    }
}

/// What a request with the given encoding hint and body is answered with.
///
/// Without a hint the body passes through as it is, under the same cap as a
/// decoded one. A hint that names no supported algorithm is rejected as
/// `UnsupportedCompressionAlgorithm`, whatever the body holds. With a
/// supported hint the answer is what the decoded stream delivers.
pub open spec fn answers(
    hint: Option<Seq<char>>,
    body: Seq<u8>,
    config: DecompressionConfig,
    r: Result<Vec<u8>, Rejection>,
) -> bool {
    match hint {
        None => delivers(Ok::<Seq<u8>, Seq<u8>>(body), config.limit() as int, r),
        Some(name) => match algorithm_of(name) {
            None => r == Err::<Vec<u8>, Rejection>(Rejection::UnsupportedCompressionAlgorithm),
            Some(algorithm) => delivers(
                decoded(algorithm, body, config.buffer()),
                config.limit() as int,
                r,
            ),
        },
    }
}

/// Produces the uncompressed payload of a request, or rejects the request.
///
/// `encoding` is the value of the content-encoding header, if the request
/// has one. The result answers the request as `answers` says. Where zstd
/// cannot set up a decoder, a zstd body is turned away as `MalformedBody`
/// whatever it holds.
pub fn decompress(encoding: Option<&str>, body: &[u8], config: &DecompressionConfig) -> (r: Result<
    Vec<u8>,
    Rejection,
>)
    ensures
        answers(
            match encoding {
                Some(name) => Some(name@),
                None => None,
            },
            body@,
            *config,
            r,
        ) || (encoding matches Some(name) && algorithm_of(name@) == Some(
            CompressionAlgorithm::Zstd,
        ) && r == Err::<Vec<u8>, Rejection>(Rejection::MalformedBody)),
        encoding matches Some(name) && algorithm_of(name@) is None ==> r == Err::<
            Vec<u8>,
            Rejection,
        >(Rejection::UnsupportedCompressionAlgorithm),
        encoding is None && body@.len() <= config.limit() ==> (r matches Ok(v) && v@ == body@),
        r matches Ok(v) ==> v@.len() <= config.limit(),
{
    match encoding {
        None => {
            if body.len() <= config.max_decoded_body_bytes() {
                Ok(slice_to_vec(body))
            } else {
                Err(Rejection::PayloadTooLarge)
            }
        },
        Some(name) => match CompressionAlgorithm::from_hint(name) {
            Some(algorithm) => decompress_body(algorithm, body, config),
            None => Err(Rejection::UnsupportedCompressionAlgorithm),
        },
    }
}

} // verus!

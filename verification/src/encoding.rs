//! The content encodings that a request body may arrive in.

use vstd::prelude::*;
use vstd::string::StringSliceAdditionalSpecFns;
use vstd::utf8::encode_utf8_decode_utf8;

verus! {

/// A supported compression algorithm. The set is closed: a request whose
/// encoding names anything else is rejected before any byte is decoded.
#[derive(Clone, Copy, Debug, PartialEq, Eq, Structural)]
pub enum CompressionAlgorithm {
    Gzip,
    Brotli,
    Zstd,
}

/// The algorithm that an encoding hint names, if any. The match is exact
/// and case-sensitive.
pub open spec fn algorithm_of(hint: Seq<char>) -> Option<CompressionAlgorithm> {
    if hint == "gzip"@ {
        Some(CompressionAlgorithm::Gzip)
    } else if hint == "br"@ {
        Some(CompressionAlgorithm::Brotli)
    } else if hint == "zstd"@ {
        Some(CompressionAlgorithm::Zstd)
    } else {
        None
    }
}

/// Two strings with the same UTF-8 bytes are the same string.
pub proof fn lemma_same_bytes_same_chars(a: Seq<char>, b: Seq<char>)
    requires
        vstd::utf8::encode_utf8(a) == vstd::utf8::encode_utf8(b),
    ensures
        a == b,
{
    encode_utf8_decode_utf8(a);
    encode_utf8_decode_utf8(b);
}

/// Whether two string slices hold the same characters.
pub fn str_equal(a: &str, b: &str) -> (same: bool)
    ensures
        same == (a@ == b@),
{
    let x = a.as_bytes();
    let y = b.as_bytes();
    if x.len() != y.len() {
        return false;
    }
    let mut i: usize = 0;
    while i < x.len()
        invariant
            x@ == a.spec_bytes(),
            y@ == b.spec_bytes(),
            x@.len() == y@.len(),
            i <= x@.len(),
            forall|j: int| 0 <= j < i ==> x@[j] == y@[j],
        decreases x@.len() - i,
    {
        if x[i] != y[i] {
            return false;
        }
        i += 1;
    }
    proof {
        assert(x@ =~= y@);
        lemma_same_bytes_same_chars(a@, b@);
    }
    true
}

impl CompressionAlgorithm {
    /// Reads an encoding hint: `"gzip"`, `"br"` and `"zstd"` name an
    /// algorithm, every other string names none.
    pub fn from_hint(hint: &str) -> (algorithm: Option<CompressionAlgorithm>)
        ensures
            algorithm == algorithm_of(hint@),
    {
        if str_equal(hint, "gzip") {
            Some(CompressionAlgorithm::Gzip)
        } else if str_equal(hint, "br") {
            Some(CompressionAlgorithm::Brotli)
        } else if str_equal(hint, "zstd") {
            Some(CompressionAlgorithm::Zstd)
        } else {
            None
        }
    }
}

} // verus!

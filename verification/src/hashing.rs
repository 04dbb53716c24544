//! Content addressing for the LaTeX cache.
//!
//! A cache directory is keyed by a hash of the equation text. The hash is
//! a pure function of the bytes of the text — the FNV-1a fold — so the
//! same equation maps to the same directory in every process and session,
//! which is what lets a later run find the artifacts of an earlier one.

use vstd::prelude::*;
use vstd::string::*;

use crate::backends::Backend;
use crate::strutil::{join_path, spec_join_path, spec_u64_dec, str_concat, u64_to_dec};

verus! {

/// The FNV-1a offset basis.
pub open spec fn spec_fnv_offset() -> u64 {
    0xcbf2_9ce4_8422_2325u64
}

/// The FNV-1a prime.
pub open spec fn spec_fnv_prime() -> u64 {
    0x0000_0100_0000_01b3u64
}

/// The FNV-1a fold over a byte sequence: start from the offset basis,
/// and for each byte in order, exclusive-or it in and multiply by the
/// prime, wrapping at 64 bits.
pub open spec fn spec_fnv1a(bytes: Seq<u8>) -> u64
    decreases bytes.len(),
{
    if bytes.len() == 0 {
        spec_fnv_offset()
    } else {
        vstd::wrapping::u64_specs::wrapping_mul(
            spec_fnv1a(bytes.drop_last()) ^ (bytes.last() as u64),
            spec_fnv_prime(),
        )
    }
}

/// The deterministic hash of an equation's text: the FNV-1a fold of its
/// UTF-8 bytes. Equal texts hash equally in every process run.
pub fn equation_hash(eq: &str) -> (r: u64)
    ensures
        r == spec_fnv1a(eq.spec_bytes()),
{
    let bytes = eq.as_bytes();
    let n = bytes.len();
    let mut h: u64 = 0xcbf2_9ce4_8422_2325u64;
    let mut i: usize = 0;
    proof {
        assert(bytes@.take(0) =~= Seq::<u8>::empty());
    }
    while i < n
        invariant
            0 <= i <= n,
            n == bytes@.len(),
            h == spec_fnv1a(bytes@.take(i as int)),
        decreases n - i,
    {
        let b = bytes[i];
        proof {
            assert(bytes@.take(i + 1).drop_last() =~= bytes@.take(i as int));
            assert(bytes@.take(i + 1).last() == bytes@[i as int]);
        }
        h = (h ^ (b as u64)).wrapping_mul(0x0000_0100_0000_01b3u64);
        i = i + 1;
    }
    proof {
        assert(bytes@.take(n as int) =~= bytes@);
    }
    h
}

/// The cache directory's name for a hash: `latex_<decimal hash>`.
pub open spec fn spec_latex_dir_name(hash: u64) -> Seq<char> {
    "latex_"@ + spec_u64_dec(hash as int)
}

/// The cache directory's full path for a hash, under the process-wide
/// cache root.
pub open spec fn spec_get_dir(cache_root: Seq<char>, hash: u64) -> Seq<char> {
    spec_join_path(cache_root, spec_latex_dir_name(hash))
}

/// Resolve the cache directory for an equation hash under the given cache
/// root. The root is resolved once at startup by the caller (a
/// platform-appropriate local-data directory) and threaded through.
pub fn get_dir(cache_root: &str, hash: u64) -> (r: String)
    ensures
        r@ == spec_get_dir(cache_root@, hash),
{
    let digits = u64_to_dec(hash);
    let name = str_concat("latex_", digits.as_str());
    join_path(cache_root, name.as_str())
}

/// The cache directory a render request works in: for LaTeX the hash
/// directory of the equation under the cache root, for Typst the
/// session's temporary directory, reused across its renders.
pub fn cache_dir(backend: Backend, cache_root: &str, session_dir: &str, latex_eq: &str) -> (r:
    String)
    ensures
        r@ == (match backend {
            Backend::LaTeX => spec_get_dir(cache_root@, spec_fnv1a(latex_eq.spec_bytes())),
            Backend::Typst => session_dir@,
        }),
{
    match backend {
        Backend::LaTeX => get_dir(cache_root, equation_hash(latex_eq)),
        Backend::Typst => session_dir.to_owned(),
    }
}

} // verus!

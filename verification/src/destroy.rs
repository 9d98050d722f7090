//! Key-file destruction: how many random bytes overwrite the file before it is removed.

use vstd::prelude::*;

verus! {

/// The number of bytes overwritten when a key file's size cannot be read.
pub const FALLBACK_WIPE_LEN: u64 = 4096;

/// How many bytes overwrite a key file: its size where it could be read, else 4096.
pub fn wipe_length(file_len: Option<u64>) -> (r: u64)
    ensures
        r == match file_len {
            Some(n) => n,
            None => FALLBACK_WIPE_LEN,
        },
{
    match file_len {
        Some(n) => n,
        None => FALLBACK_WIPE_LEN,
    }
}

/// `getrandom::getrandom` on the buffer. The documentation makes no promise about the
/// contents, and on failure not even that they are untouched; the length is unchanged.
/// The returned flag is whether it succeeded.
#[verifier::external_body]
fn fill_random(buf: &mut Vec<u8>) -> (ok: bool)
    ensures
        final(buf)@.len() == old(buf)@.len(),
{
    getrandom::getrandom(buf.as_mut_slice()).is_ok()
}

/// `random` is what one fill of a `len`-byte buffer from the operating system's random
/// source reported, and where it reported success, `bytes` is the buffer it filled.
pub closed spec fn reported_by_random_source(len: usize, random: bool, bytes: Vec<u8>) -> bool {
    exists|b: Vec<u8>| call_ensures(os_random_buffer, (len,), (b, random)) && (random ==> b == bytes)
}

/// A zeroed `n`-byte buffer after one fill from the operating system's random source, and
/// what that fill reported.
fn os_random_buffer(n: usize) -> (r: (Vec<u8>, bool))
    ensures
        r.0@.len() == n,
        exists|buf: &mut Vec<u8>|
            call_ensures(fill_random, (buf,), r.1) && (*buf)@.len() == n && *final(buf) == r.0,
{
    let mut buf = vec![0u8; n];
    let random = fill_random(&mut buf);
    (buf, random)
}

/// The bytes that overwrite a key file, and whether they came from the operating system's
/// random source.
pub struct Overwrite {
    pub bytes: Vec<u8>,
    pub random: bool,
}

/// `len` bytes to overwrite a key file with: filled from the operating system's random
/// source, or, where that fails, all zero, so that the key is wiped either way. The flag
/// is what the random source reported for a buffer of that length, and where it reports
/// success the bytes are exactly the ones it wrote.
pub fn random_overwrite(len: u64) -> (r: Overwrite)
    ensures
        r.bytes@.len() == len as usize,
        !r.random ==> forall|i: int| 0 <= i < r.bytes@.len() ==> r.bytes@[i] == 0,
        reported_by_random_source(len as usize, r.random, r.bytes),
{
    let n = len as usize;
    let (buf, random) = os_random_buffer(n);
    if random {
        Overwrite { bytes: buf, random }
    } else {
        let mut zeros: Vec<u8> = Vec::new();
        let mut i: usize = 0;
        while i < n
            invariant
                i <= n,
                zeros@.len() == i,
                forall|j: int| 0 <= j < i ==> zeros@[j] == 0,
            decreases n - i,
        {
            zeros.push(0u8);
            i = i + 1;
        }
        Overwrite { bytes: zeros, random }
    }
}

} // verus!

//! Random bytes from the operating system, or from the thread's own secure
//! generator where the operating system's source cannot be opened.

use rand::RngCore;
use vstd::prelude::*;

verus! {

/// Trusted: `rand::rngs::OsRng`, a handle on the operating system's source of
/// random bytes. Nothing is known of what is inside.
#[verifier::external_type_specification]
#[verifier::external_body]
pub struct ExOsRng(rand::rngs::OsRng);

/// Trusted: `rand::Error`, the reason why a source of random bytes failed.
/// Nothing is known of what is inside.
#[verifier::external_type_specification]
#[verifier::external_body]
pub struct ExRandError(rand::Error);

/// Trusted: `rand::rngs::OsRng::new`. Whether the source opens depends on the
/// machine, so nothing is claimed of the result.
pub assume_specification[ rand::rngs::OsRng::new ]() -> (source: Result<
    rand::rngs::OsRng,
    rand::Error,
>)
;

/// Trusted: `rand::RngCore::fill_bytes` on the operating system's source. It
/// overwrites every byte of `buf` in place; what the bytes are is left open.
/// Before its first read in a process rand may probe the source through the
/// first byte of `buf`, so an empty buffer is left out. rand panics at once
/// when the source reports an error that no retry can mend, and after ten
/// seconds when it keeps reporting one that asks to wait.
#[verifier::external_body]
fn fill_from_os(source: &mut rand::rngs::OsRng, buf: &mut Vec<u8>)
    requires
        old(buf)@.len() > 0,
    ensures
        final(buf)@.len() == old(buf)@.len(),
{
    source.fill_bytes(&mut buf[..])
}

/// Trusted: `rand::thread_rng` and `rand::RngCore::fill_bytes` on the
/// generator it hands out, which belongs to the calling thread alone. It
/// overwrites every byte of `buf` in place; what the bytes are is left open.
/// rand panics when the generator cannot be seeded.
#[verifier::external_body]
fn fill_from_thread(buf: &mut Vec<u8>)
    ensures
        final(buf)@.len() == old(buf)@.len(),
{
    rand::thread_rng().fill_bytes(&mut buf[..])
}

/// Draws `count` random bytes: from the operating system where its source
/// opens, from the thread's generator where it does not. Where none is asked
/// for, no source is touched. The bytes are not predictable, so only their
/// number is promised.
pub fn random_bytes(count: usize) -> (bytes: Vec<u8>)
    ensures
        bytes@.len() == count,
{
    let mut bytes: Vec<u8> = vec![0u8; count];
    if count > 0 {
        match rand::rngs::OsRng::new() {
            Ok(mut source) => fill_from_os(&mut source, &mut bytes),
            Err(_) => fill_from_thread(&mut bytes),
        }
    }
    bytes
}

} // verus!

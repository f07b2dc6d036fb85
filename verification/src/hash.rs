//! The streaming SHA-256 accumulator behind the trailer generator.
//!
//! The digest itself is computed by `ring`; this module gives its context a
//! mathematical model: `ctx_bytes` names the byte stream a context has
//! consumed so far, and `sha256_of` names the digest of a byte stream.

use vstd::prelude::*;

verus! {

#[verifier::external_type_specification]
#[verifier::external_body]
pub struct ExDigestContext(ring::digest::Context);

/// The byte stream that a digest context has consumed so far.
pub uninterp spec fn ctx_bytes(c: ring::digest::Context) -> Seq<u8>;

/// The SHA-256 digest of a byte stream. The digest depends on the bytes
/// alone, so naming it is sound; nothing here states its value.
pub uninterp spec fn sha256_of(data: Seq<u8>) -> Seq<u8>;

/// The longest byte stream SHA-256 accepts: its input length in bits must
/// fit in 64 bits, so at most 2^61 - 1 bytes.
pub const SHA256_MAX_INPUT_LEN: u64 = 0x1fff_ffff_ffff_ffff;

/// Relies on `ring::digest::Context::new` with `ring::digest::SHA256`:
/// a fresh context has consumed no bytes.
#[verifier::external_body]
pub(crate) fn sha256_new() -> (c: ring::digest::Context)
    ensures
        ctx_bytes(c) == Seq::<u8>::empty(),
{
    ring::digest::Context::new(&ring::digest::SHA256)
}

/// Relies on `ring::digest::Context::update`: appends `data` to the byte
/// stream the context has consumed. It never fails or panics.
#[verifier::external_body]
pub(crate) fn sha256_update(c: &mut ring::digest::Context, data: &[u8])
    ensures
        ctx_bytes(*final(c)) == ctx_bytes(*old(c)) + data@,
{
    c.update(data);
}

/// Relies on `ring::digest::Context::finish` and `Digest::as_ref`: the
/// SHA-256 digest of the whole consumed stream, `SHA256_OUTPUT_LEN` = 32
/// bytes. `finish` panics when the stream is over SHA-256's input limit,
/// so such streams are excluded here.
#[verifier::external_body]
pub(crate) fn sha256_finish(c: ring::digest::Context) -> (d: Vec<u8>)
    requires
        ctx_bytes(c).len() <= SHA256_MAX_INPUT_LEN,
    ensures
        d@ == sha256_of(ctx_bytes(c)),
        d@.len() == 32,
{
    c.finish().as_ref().to_vec()
}

} // verus!

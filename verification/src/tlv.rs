//! The TLV trailer generator.
//!
//! A firmware image is followed by a list of TLV entries holding integrity
//! information about it. Because the trailer's size stands in the image
//! header, which is itself covered by the hash, generation takes two passes:
//! the first pass reports the size the trailer will occupy, the second
//! streams the covered bytes in and emits the trailer.

use vstd::prelude::*;

use crate::hash::SHA256_MAX_INPUT_LEN;
use crate::hash::ctx_bytes;
use crate::hash::sha256_finish;
use crate::hash::sha256_new;
use crate::hash::sha256_of;
use crate::hash::sha256_update;

verus! {

/// Image-header flag bits, one per capability the trailer may attest to.
/// The header stores a bitmask of these, checked by the bootloader before
/// it parses the trailer.
#[allow(non_camel_case_types)]
#[derive(Copy, Clone, Debug, PartialEq, Eq, Structural)]
pub enum Flags {
    PIC,
    SHA256,
    PKCS15_RSA2048_SHA256,
    ECDSA224_SHA256,
    NON_BOOTABLE,
    ECDSA256_SHA256,
    PKCS1_PSS_RSA2048_SHA256,
}

impl Flags {
    /// The bit this flag occupies in the image header's flags word.
    pub open spec fn spec_bit(self) -> u32 {
        match self {
            Flags::PIC => 0x01,
            Flags::SHA256 => 0x02,
            Flags::PKCS15_RSA2048_SHA256 => 0x04,
            Flags::ECDSA224_SHA256 => 0x08,
            Flags::NON_BOOTABLE => 0x10,
            Flags::ECDSA256_SHA256 => 0x20,
            Flags::PKCS1_PSS_RSA2048_SHA256 => 0x40,
        }
    }

    /// The bit this flag occupies in the image header's flags word.
    pub fn bit(self) -> (r: u32)
        ensures
            r == self.spec_bit(),
    {
        match self {
            Flags::PIC => 0x01,
            Flags::SHA256 => 0x02,
            Flags::PKCS15_RSA2048_SHA256 => 0x04,
            Flags::ECDSA224_SHA256 => 0x08,
            Flags::NON_BOOTABLE => 0x10,
            Flags::ECDSA256_SHA256 => 0x20,
            Flags::PKCS1_PSS_RSA2048_SHA256 => 0x40,
        }
    }
}

/// The record kinds a trailer entry can carry, each with a fixed identifier
/// byte in the entry header. The set is closed: adding a kind is a code
/// change, never a runtime operation.
#[allow(non_camel_case_types)]
#[derive(Copy, Clone, Debug, PartialEq, Eq, Structural)]
pub enum TlvKinds {
    SHA256,
    RSA2048,
    ECDSA224,
    ECDSA256,
}

impl TlvKinds {
    /// The identifier byte written at offset 0 of this kind's entry header.
    pub open spec fn spec_id(self) -> u8 {
        match self {
            TlvKinds::SHA256 => 1,
            TlvKinds::RSA2048 => 2,
            TlvKinds::ECDSA224 => 3,
            TlvKinds::ECDSA256 => 4,
        }
    }

    /// The identifier byte written at offset 0 of this kind's entry header.
    pub fn id(self) -> (r: u8)
        ensures
            r == self.spec_id(),
    {
        match self {
            TlvKinds::SHA256 => 1,
            TlvKinds::RSA2048 => 2,
            TlvKinds::ECDSA224 => 3,
            TlvKinds::ECDSA256 => 4,
        }
    }
}

/// A content-hash value is a SHA-256 digest: 32 bytes.
pub const HASH_VALUE_LEN: u16 = 32;

/// The fixed four-byte header of one TLV entry: the kind identifier, a
/// reserved zero byte, and the value length as an unsigned little-endian
/// 16-bit integer.
pub open spec fn spec_entry_header(id: u8, value_len: u16) -> Seq<u8> {
    seq![id, 0u8, (value_len % 256) as u8, (value_len / 256) as u8]
}

/// The encoded content-hash entry over the streamed bytes `data`: a header
/// for the hash kind with a 32-byte value, then the digest itself.
pub open spec fn spec_sha256_entry(data: Seq<u8>) -> Seq<u8> {
    spec_entry_header(TlvKinds::SHA256.spec_id(), HASH_VALUE_LEN) + sha256_of(data)
}

/// The whole trailer emitted for the enabled kinds over the streamed bytes
/// `data`: the content-hash entry when that kind is enabled, nothing more
/// for the kinds this generator does not yet emit.
pub open spec fn spec_trailer(kinds: Seq<TlvKinds>, data: Seq<u8>) -> Seq<u8> {
    if kinds.contains(TlvKinds::SHA256) {
        spec_sha256_entry(data)
    } else {
        Seq::<u8>::empty()
    }
}

/// The byte count reserved for the trailer: a four-byte entry header plus
/// the value length, per enabled kind.
pub open spec fn spec_reserved_size(kinds: Seq<TlvKinds>) -> int {
    if kinds.contains(TlvKinds::SHA256) {
        4 + HASH_VALUE_LEN as int
    } else {
        0
    }
}

/// The trailer generator. It is built for a fixed policy (which record kinds
/// to emit), answers size and flag queries from that policy alone, consumes
/// the covered bytes incrementally, and is destroyed by emitting the trailer.
pub struct TlvGen {
    flags: Flags,
    kinds: Vec<TlvKinds>,
    size: u16,
    hasher: ring::digest::Context,
}

impl TlvGen {
    /// The byte stream consumed so far by the covered hash.
    pub closed spec fn bytes(self) -> Seq<u8> {
        ctx_bytes(self.hasher)
    }

    /// The enabled record kinds, in emission order.
    pub closed spec fn kinds_seq(self) -> Seq<TlvKinds> {
        self.kinds@
    }

    /// The flags word reported to the image header.
    pub closed spec fn flags_val(self) -> u32 {
        self.flags.spec_bit()
    }

    /// The reserved trailer size reported to the image header.
    pub closed spec fn size_val(self) -> u16 {
        self.size
    }

    /// Well-formed: the flags word and the reserved size are derived from
    /// the enabled kinds, which are those of the hash-only policy.
    pub closed spec fn wf(self) -> bool {
        &&& self.kinds@ =~= seq![TlvKinds::SHA256]
        &&& self.flags is SHA256
        &&& self.size == spec_reserved_size(self.kinds@)
    }

    /// Construct a generator whose trailer will only contain a hash of the
    /// covered data. Nothing has been streamed yet, the flags word holds
    /// exactly the SHA-256 bit, and the reserved size is the hash entry's
    /// 36 bytes.
    pub fn new_hash_only() -> (r: TlvGen)
        ensures
            r.wf(),
            r.bytes() == Seq::<u8>::empty(),
            r.kinds_seq() =~= seq![TlvKinds::SHA256],
            r.flags_val() == Flags::SHA256.spec_bit(),
            r.size_val() == 36,
    {
        TlvGen {
            flags: Flags::SHA256,
            kinds: vec![TlvKinds::SHA256],
            size: 4 + HASH_VALUE_LEN,
            hasher: sha256_new(),
        }
    }

    /// The header flags for this configuration. Callable at any time; the
    /// value was fixed at construction.
    pub fn get_flags(&self) -> (r: u32)
        ensures
            r == self.flags_val(),
    {
        self.flags.bit()
    }

    /// The size the trailer will occupy. Callable at any time, in particular
    /// before any bytes are streamed; the value was fixed at construction.
    pub fn get_size(&self) -> (r: u16)
        ensures
            r == self.size_val(),
    {
        self.size
    }

    /// Stream a chunk of covered bytes into every enabled hash accumulator.
    /// Only the accumulated stream changes — it becomes the old stream
    /// followed by `bytes` — while flags, kinds and the reserved size stay
    /// exactly as they were at construction.
    pub fn add_bytes(&mut self, bytes: &[u8])
        ensures
            final(self).bytes() == old(self).bytes() + bytes@,
            final(self).kinds_seq() == old(self).kinds_seq(),
            final(self).flags_val() == old(self).flags_val(),
            final(self).size_val() == old(self).size_val(),
            final(self).wf() == old(self).wf(),
    {
        sha256_update(&mut self.hasher, bytes);
    }

    /// Chunk invariance, executable form: streaming every chunk in call
    /// order is the same as streaming the concatenation of all chunks once.
    /// The accumulated stream becomes the old stream followed by the
    /// chunks' concatenation, and nothing else changes.
    pub fn add_byte_chunks(&mut self, chunks: &Vec<Vec<u8>>)
        ensures
            final(self).bytes() == old(self).bytes() + chunks@.map_values(
                |c: Vec<u8>| c@,
            ).flatten(),
            final(self).kinds_seq() == old(self).kinds_seq(),
            final(self).flags_val() == old(self).flags_val(),
            final(self).size_val() == old(self).size_val(),
            final(self).wf() == old(self).wf(),
    {
        let ghost all = chunks@.map_values(|c: Vec<u8>| c@);
        proof {
            assert(all.take(0) =~= Seq::<Seq<u8>>::empty());
            assert(old(self).bytes() + all.take(0).flatten() =~= old(self).bytes());
        }
        let mut i: usize = 0;
        while i < chunks.len()
            invariant
                i <= chunks@.len(),
                all == chunks@.map_values(|c: Vec<u8>| c@),
                self.bytes() == old(self).bytes() + all.take(i as int).flatten(),
                self.kinds_seq() == old(self).kinds_seq(),
                self.flags_val() == old(self).flags_val(),
                self.size_val() == old(self).size_val(),
                self.wf() == old(self).wf(),
            decreases chunks@.len() - i,
        {
            let chunk: &Vec<u8> = &chunks[i];
            self.add_bytes(chunk.as_slice());
            proof {
                assert(all.take(i + 1) =~= all.take(i as int).push(all[i as int]));
                all.take(i as int).lemma_flatten_push(all[i as int]);
                assert(old(self).bytes() + all.take(i as int).flatten() + all[i as int] =~= old(
                    self,
                ).bytes() + all.take(i + 1).flatten());
            }
            i += 1;
        }
        proof {
            assert(all.take(all.len() as int) =~= all);
        }
    }

    /// Consume the generator and emit the encoded trailer: for each enabled
    /// kind in order, a four-byte entry header followed by the value bytes.
    /// For a well-formed generator the emitted length equals the size that
    /// `get_size` reserved.
    pub fn make_tlv(self) -> (r: Vec<u8>)
        requires
            self.bytes().len() <= SHA256_MAX_INPUT_LEN,
        ensures
            r@ == spec_trailer(self.kinds_seq(), self.bytes()),
            self.wf() ==> r@.len() == self.size_val(),
    {
        let mut result: Vec<u8> = Vec::new();

        if kinds_contain(&self.kinds, TlvKinds::SHA256) {
            let hash = sha256_finish(self.hasher);
            assert(hash@.len() == HASH_VALUE_LEN);

            result.push(TlvKinds::SHA256.id());
            result.push(0);
            result.push(32);
            result.push(0);
            assert(result@ =~= spec_entry_header(TlvKinds::SHA256.spec_id(), HASH_VALUE_LEN));

            let mut i: usize = 0;
            while i < hash.len()
                invariant
                    i <= hash@.len(),
                    hash@ == sha256_of(self.bytes()),
                    result@ == spec_entry_header(TlvKinds::SHA256.spec_id(), HASH_VALUE_LEN)
                        + hash@.take(i as int),
                decreases hash@.len() - i,
            {
                result.push(hash[i]);
                assert(hash@.take(i + 1) =~= hash@.take(i as int).push(hash@[i as int]));
                i += 1;
            }
            assert(hash@.take(hash@.len() as int) =~= hash@);
        }

        result
    }
}

/// Chunk invariance: the emitted trailer is a function of the enabled kinds
/// and of the total byte stream alone, so any two chunkings of the same
/// bytes lead to identical trailers.
pub proof fn lemma_trailer_chunk_invariant(
    kinds: Seq<TlvKinds>,
    chunks1: Seq<Seq<u8>>,
    chunks2: Seq<Seq<u8>>,
)
    requires
        chunks1.flatten() == chunks2.flatten(),
    ensures
        spec_trailer(kinds, chunks1.flatten()) == spec_trailer(kinds, chunks2.flatten()),
{
}

/// Whether `kind` is one of the enabled kinds.
fn kinds_contain(kinds: &Vec<TlvKinds>, kind: TlvKinds) -> (r: bool)
    ensures
        r == kinds@.contains(kind),
{
    let mut i: usize = 0;
    while i < kinds.len()
        invariant
            i <= kinds@.len(),
            forall|j: int| 0 <= j < i ==> kinds@[j] != kind,
        decreases kinds@.len() - i,
    {
        if kinds[i] == kind {
            return true;
        }
        i += 1;
    }
    false
}

} // verus!

//! Generation of the TLV (Type-Length-Value) integrity trailer that is
//! appended to a firmware image so that a bootloader can verify the image
//! before executing it.
//!
//! The trailer's size must be known before the image header is hashed, so the
//! generator works in two passes: first it reports the size the trailer will
//! occupy, then the caller streams the covered bytes in and finally asks for
//! the encoded trailer.

pub mod hash;
pub mod tlv;

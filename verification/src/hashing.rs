//! The hash commitment of a channel.
//!
//! A channel's hashlock is the SHA-256 digest of the unlock secret. The
//! digest itself is computed by the runtime's hasher; the engine only needs
//! that it is a pure function of the input bytes, so its value is left as a
//! name that the contracts share.

use vstd::prelude::*;

verus! {

/// The SHA-256 digest of a byte string: a pure function of the bytes alone.
pub uninterp spec fn sha256_of(data: Seq<u8>) -> Seq<u8>;

/// Relies on anchor_lang::solana_program::hash::hash: the SHA-256 digest of
/// the input, a pure function of the bytes; Hash::to_bytes hands out its 32
/// bytes.
#[verifier::external_body]
pub fn sha256(data: &Vec<u8>) -> (r: Vec<u8>)
    ensures
        r@ == sha256_of(data@),
        r@.len() == 32,
{
    anchor_lang::solana_program::hash::hash(data.as_slice()).to_bytes().to_vec()
}

} // verus!

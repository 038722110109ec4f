//! The hash primitive: a double round of SHA-256 over an arbitrary byte
//! buffer, provided by the bitcoin crate.

use vstd::prelude::*;

verus! {

/// The 32-byte double-SHA-256 digest of a byte sequence. The digest is a
/// function of the input bytes alone; its value is not axiomatized here.
pub uninterp spec fn sha256d_of(input: Seq<u8>) -> Seq<u8>;

/// Relies on `bitcoin::hashes::sha256d::Hash::hash`: double SHA-256,
/// deterministic in the input bytes, with a 32-byte output.
#[verifier::external_body]
pub fn sha256d(input: &Vec<u8>) -> (r: Vec<u8>)
    ensures
        r@ == sha256d_of(input@),
        r@.len() == 32,
{
    let h = <bitcoin::hashes::sha256d::Hash as bitcoin::hashes::Hash>::hash(input.as_slice());
    <bitcoin::hashes::sha256d::Hash as bitcoin::hashes::Hash>::to_byte_array(h).to_vec()
}

} // verus!

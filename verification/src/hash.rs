//! The text under which a block hash appears in a record.

use vstd::prelude::*;

verus! {

/// The base58 text of a 32-byte hash, as `near_primitives_core` prints it.
pub uninterp spec fn base58_text(bytes: Seq<u8>) -> Seq<char>;

/// Prints a block hash through the `Display` impl of
/// `near_primitives_core::hash::CryptoHash`, which base58-encodes the 32
/// bytes. Nothing of the encoding is proved here: the contract only names
/// the text, as a function of the bytes alone.
#[verifier::external_body]
pub(crate) fn hash_text(bytes: &[u8; 32]) -> (text: String)
    ensures
        text@ == base58_text(bytes@),
{
    near_primitives_core::hash::CryptoHash(*bytes).to_string()
}

} // verus!

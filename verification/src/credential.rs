//! The one-time credential that authenticates the user interface to the
//! backend.

use vstd::prelude::*;
use rand::rngs::OsRng;
use rand::RngCore;
use crate::digits::{encode_hex, hex_of_bytes, is_lower_hex, lemma_hex_of_bytes_shape};

verus! {

/// How many bytes of entropy a credential carries.
pub const CREDENTIAL_BYTES: usize = 32;

/// How many characters a credential has.
pub const CREDENTIAL_LEN: usize = 64;

/// Whether `text` has the shape of a credential: sixty-four lowercase
/// hexadecimal characters.
pub open spec fn is_credential(text: Seq<char>) -> bool {
    &&& text.len() == CREDENTIAL_LEN
    &&& forall|i: int| 0 <= i < text.len() ==> is_lower_hex(#[trigger] text[i])
}

/// Thirty-two bytes from the operating system's random source, through
/// `OsRng::fill_bytes` of the `rand` crate. Nothing is claimed of the bytes:
/// every value of the array is a possible outcome. `fill_bytes` aborts the
/// program when the operating system has no entropy to give.
#[verifier::external_body]
fn os_random_bytes() -> (bytes: [u8; 32]) {
    let mut bytes = [0_u8; 32];
    OsRng.fill_bytes(&mut bytes);
    bytes
}

/// The credential made of the given entropy.
pub fn credential_from_entropy(entropy: &[u8; 32]) -> (credential: String)
    ensures
        credential@ == hex_of_bytes(entropy@),
        is_credential(credential@),
{
    proof {
        lemma_hex_of_bytes_shape(entropy@);
    }
    encode_hex(entropy.as_slice())
}

/// A fresh credential: thirty-two bytes of operating-system entropy in
/// lowercase hexadecimal.
pub fn generate_credential() -> (credential: String)
    ensures
        is_credential(credential@),
        exists|entropy: Seq<u8>|
            entropy.len() == CREDENTIAL_BYTES && credential@ == hex_of_bytes(entropy),
{
    let entropy = os_random_bytes();
    let credential = credential_from_entropy(&entropy);
    assert(entropy@.len() == CREDENTIAL_BYTES && credential@ == hex_of_bytes(entropy@));
    credential
}

} // verus!

//! The integrity tag over a payload: the first 4 bytes of the double hash of
//! the payload, or a fixed constant for the empty payload (an optimization,
//! not a behavioural difference: the constant is the double hash of the empty
//! byte string).

use vstd::prelude::*;

use sha2::Digest;

use crate::error::{CodecError, CodecErrorView};

verus! {

/// The 32-byte digest of `data`, determined by the input bytes alone.
pub uninterp spec fn sha256_of(data: Seq<u8>) -> Seq<u8>;

/// Relies on sha2::Sha256::digest (through the Digest trait): one 32-byte
/// digest, a pure function of the input bytes.
#[verifier::external_body]
fn sha256(data: &Vec<u8>) -> (r: Vec<u8>)
    ensures
        r@ == sha256_of(data@),
        r@.len() == 32,
{
    sha2::Sha256::digest(data.as_slice()).to_vec()
}

/// The double hash of the empty byte string, truncated to 4 bytes.
pub open spec fn empty_checksum() -> Seq<u8> {
    seq![0x5du8, 0xf6u8, 0xe0u8, 0xe2u8]
}

/// The 4-byte integrity tag over `payload`: the first 4 bytes of the double
/// hash, or the fixed constant for the empty payload.
pub open spec fn checksum_of(payload: Seq<u8>) -> Seq<u8> {
    if payload.len() == 0 {
        empty_checksum()
    } else {
        let d = sha256_of(sha256_of(payload));
        seq![d[0], d[1], d[2], d[3]]
    }
}

/// The condition under which a frame's checksum field accepts a payload.
pub open spec fn checksum_matches(expected: Seq<u8>, payload: Seq<u8>) -> bool {
    expected == checksum_of(payload)
}

/// A checksum always accepts the payload it was computed over.
pub proof fn lemma_checksum_self_verifies(payload: Seq<u8>)
    ensures
        checksum_matches(checksum_of(payload), payload),
{
}

/// Computes the 4-byte integrity tag over `payload`.
pub fn checksum(payload: &Vec<u8>) -> (r: [u8; 4])
    ensures
        r@ == checksum_of(payload@),
{
    if payload.len() == 0 {
        let r = [0x5du8, 0xf6u8, 0xe0u8, 0xe2u8];
        proof {
            assert(r@ =~= checksum_of(payload@));
        }
        r
    } else {
        let once = sha256(payload);
        let twice = sha256(&once);
        let r = [twice[0], twice[1], twice[2], twice[3]];
        proof {
            assert(r@ =~= checksum_of(payload@));
        }
        r
    }
}

/// Recomputes the tag over `payload` and compares it with `expected`; a
/// mismatch is reported as an error, never as a panic, and the error carries
/// no payload data.
pub fn verify(expected: &[u8; 4], payload: &Vec<u8>) -> (r: Result<(), CodecError>)
    ensures
        r is Ok <==> checksum_matches(expected@, payload@),
        r is Err ==> (r matches Err(e) && e@ == CodecErrorView::ChecksumMismatch),
{
    let computed = checksum(payload);
    if expected[0] == computed[0] && expected[1] == computed[1] && expected[2] == computed[2]
        && expected[3] == computed[3] {
        proof {
            assert(expected@ =~= computed@);
        }
        Ok(())
    } else {
        proof {
            assert(expected@ != computed@) by {
                if expected@ == computed@ {
                    assert(expected@[0] == computed@[0] && expected@[1] == computed@[1]
                        && expected@[2] == computed@[2] && expected@[3] == computed@[3]);
                }
            }
        }
        Err(CodecError::ChecksumMismatch)
    }
}

} // verus!

//! The "getaddr" command: a request for known peer addresses. It carries no
//! payload.

use vstd::prelude::*;

use crate::error::CodecError;

verus! {

/// The 12 wire bytes of "getaddr", NUL-padded on the right.
pub open spec fn name_seq() -> Seq<u8> {
    seq![0x67u8, 0x65u8, 0x74u8, 0x61u8, 0x64u8, 0x64u8, 0x72u8, 0u8, 0u8, 0u8, 0u8, 0u8]
}

/// The fixed wire name of this command.
pub fn command_name() -> (r: [u8; 12])
    ensures
        r@ == name_seq(),
{
    let r = [0x67u8, 0x65u8, 0x74u8, 0x61u8, 0x64u8, 0x64u8, 0x72u8, 0u8, 0u8, 0u8, 0u8, 0u8];
    proof {
        assert(r@ =~= name_seq());
    }
    r
}

/// Encodes the (empty) payload of a "getaddr" command.
pub fn encode() -> (r: Result<Vec<u8>, CodecError>)
    ensures
        r matches Ok(p) && p@ == Seq::<u8>::empty(),
{
    let p: Vec<u8> = Vec::new();
    Ok(p)
}

} // verus!

//! The "addr" command and its payload.

use vstd::prelude::*;

use crate::error::{CodecError, CodecErrorView};
use crate::wire::{be64_of, be64_val, lemma_be64_roundtrip, push_u64_be, read_u64_be};

verus! {

/// The 12 wire bytes of "addr", NUL-padded on the right.
pub open spec fn name_seq() -> Seq<u8> {
    seq![0x61u8, 0x64u8, 0x64u8, 0x72u8, 0u8, 0u8, 0u8, 0u8, 0u8, 0u8, 0u8, 0u8]
}

/// The fixed wire name of this command.
pub fn command_name() -> (r: [u8; 12])
    ensures
        r@ == name_seq(),
{
    let r = [0x61u8, 0x64u8, 0x64u8, 0x72u8, 0u8, 0u8, 0u8, 0u8, 0u8, 0u8, 0u8, 0u8];
    proof {
        assert(r@ =~= name_seq());
    }
    r
}

/// Payload of an "addr" command.
#[derive(Debug, Clone, Copy, PartialEq, Eq, Structural)]
pub struct AddrPayload {
    pub hoge: u64,
}

/// The wire bytes of an "addr" payload.
pub open spec fn addr_payload_bytes(a: AddrPayload) -> Seq<u8> {
    be64_of(a.hoge)
}

/// What an "addr" payload byte string decodes to; a payload of the wrong
/// length is malformed.
pub open spec fn addr_payload_decoded(p: Seq<u8>) -> Result<AddrPayload, CodecErrorView> {
    if p.len() == 8 {
        Ok(AddrPayload { hoge: be64_val(p) })
    } else {
        Err(CodecErrorView::PayloadDecodeError)
    }
}

/// Decodes an "addr" payload from its wire bytes.
pub fn decode(payload: Vec<u8>) -> (r: Result<AddrPayload, CodecError>)
    ensures
        match addr_payload_decoded(payload@) {
            Ok(a) => r == Ok::<AddrPayload, CodecError>(a),
            Err(e) => (r matches Err(er) && er@ == e),
        },
{
    if payload.len() == 8 {
        let hoge = read_u64_be(&payload, 0);
        proof {
            assert(payload@.subrange(0, 8) =~= payload@);
        }
        Ok(AddrPayload { hoge })
    } else {
        Err(CodecError::PayloadDecodeError)
    }
}

/// Encodes an "addr" payload into its wire bytes.
pub fn encode(addr: AddrPayload) -> (r: Result<Vec<u8>, CodecError>)
    ensures
        r matches Ok(p) && p@ == addr_payload_bytes(addr),
{
    let mut p: Vec<u8> = Vec::new();
    push_u64_be(&mut p, addr.hoge);
    assert(p@ =~= addr_payload_bytes(addr));
    Ok(p)
}

/// Decoding the encoding of an "addr" payload gives the payload back.
pub proof fn lemma_addr_round_trip(a: AddrPayload)
    ensures
        addr_payload_decoded(addr_payload_bytes(a)) == Ok::<AddrPayload, CodecErrorView>(a),
{
    lemma_be64_roundtrip(a.hoge);
}

} // verus!

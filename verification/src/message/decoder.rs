//! The message decoder: extracts one complete frame from the caller's
//! buffer, validates the header, verifies the checksum, and dispatches the
//! command name to its payload decoder.

use vstd::prelude::*;

use bytes::BytesMut;

use crate::buffer::{buf_byte, buf_contents, buf_len, buf_split_to};
use crate::error::{CodecError, CodecErrorView};
use crate::message::checksum::{checksum_matches, verify};
use crate::message::command::{addr, get_addr, version};
use crate::message::{Command, CommandView, Message, MessageView, MAX_PAYLOAD_SIZE};
use crate::net::{parse_start, NetworkType};
use crate::wire::{be32_val, sub_vec};

verus! {

/// The payload length the buffered header declares.
pub open spec fn header_payload_len(b: Seq<u8>) -> int
    recommends
        b.len() >= 24,
{
    be32_val(b.subrange(16, 20)) as int
}

/// The buffered header declares a payload beyond the frame-size policy.
pub open spec fn frame_too_large(b: Seq<u8>) -> bool {
    b.len() >= 24 && header_payload_len(b) > MAX_PAYLOAD_SIZE
}

/// One complete frame is buffered.
pub open spec fn frame_ready(b: Seq<u8>) -> bool {
    b.len() >= 24 && header_payload_len(b) <= MAX_PAYLOAD_SIZE && b.len() >= 24
        + header_payload_len(b)
}

/// How many bytes the buffered frame spans: the header and its declared
/// payload.
pub open spec fn frame_len(b: Seq<u8>) -> int
    recommends
        b.len() >= 24,
{
    24 + header_payload_len(b)
}

/// More bytes must arrive before anything can be decoded: no full header, or
/// a plausible declared length that the buffer does not cover yet. Explicitly
/// not an error.
pub open spec fn need_more_data(b: Seq<u8>) -> bool {
    b.len() < 24 || (!frame_too_large(b) && b.len() < frame_len(b))
}

/// Every buffer state is exactly one of: waiting for more data, an oversized
/// declared length, or a complete frame — so the decoder's contract speaks
/// for every input.
pub proof fn lemma_buffer_states_partition(b: Seq<u8>)
    ensures
        need_more_data(b) || frame_too_large(b) || frame_ready(b),
        !(need_more_data(b) && frame_too_large(b)),
        !(need_more_data(b) && frame_ready(b)),
        !(frame_too_large(b) && frame_ready(b)),
{
}

/// What the registry makes of a command name and payload: a name bound to no
/// command is unknown, and the error carries the exact 12 bytes received.
pub open spec fn command_decoded(name: Seq<u8>, payload: Seq<u8>) -> Result<
    CommandView,
    CodecErrorView,
> {
    if name == addr::name_seq() {
        match addr::addr_payload_decoded(payload) {
            Ok(a) => Ok(CommandView::Addr(a)),
            Err(e) => Err(e),
        }
    } else if name == get_addr::name_seq() {
        Ok(CommandView::GetAddr)
    } else if name == version::name_seq() {
        match version::version_payload_decoded(payload) {
            Ok(v) => Ok(CommandView::Version(v)),
            Err(e) => Err(e),
        }
    } else {
        Err(CodecErrorView::UnknownCommand(name))
    }
}

/// A command name bound to no registry entry decodes to `UnknownCommand`
/// carrying exactly the 12 name bytes received, whatever the payload.
pub proof fn lemma_unknown_command(name: Seq<u8>, payload: Seq<u8>)
    requires
        name != addr::name_seq(),
        name != get_addr::name_seq(),
        name != version::name_seq(),
    ensures
        command_decoded(name, payload) == Err::<CommandView, CodecErrorView>(
            CodecErrorView::UnknownCommand(name),
        ),
{
}

/// What one complete frame decodes to: network identity first, then the
/// checksum over the payload, then the command. The checksum is verified
/// before any command-specific parsing, so a corrupted payload is rejected
/// uniformly regardless of command.
pub open spec fn frame_decoded(f: Seq<u8>) -> Result<MessageView, CodecErrorView>
    recommends
        f.len() >= 24,
{
    match parse_start(f.subrange(0, 4)) {
        None => Err(CodecErrorView::InvalidStartBytes(f.subrange(0, 4))),
        Some(n) => if !checksum_matches(f.subrange(20, 24), f.skip(24)) {
            Err(CodecErrorView::ChecksumMismatch)
        } else {
            match command_decoded(f.subrange(4, 16), f.skip(24)) {
                Ok(c) => Ok(MessageView { network_type: n, command: c }),
                Err(e) => Err(e),
            }
        },
    }
}

/// Extracts the bytes of exactly one message, if a complete one is buffered.
///
/// With fewer bytes than a header, or fewer than the header declares, nothing
/// is consumed and `None` asks for more data. A declared payload beyond the
/// frame-size policy is rejected at once, before any allocation, and also
/// consumes nothing. Otherwise exactly the frame's bytes are removed from the
/// front of the buffer and returned; the remainder stays buffered.
pub fn extract_frame_bytes(src: &mut BytesMut) -> (r: Result<Option<Vec<u8>>, CodecError>)
    ensures
        need_more_data(buf_contents(*old(src))) ==> r == Ok::<Option<Vec<u8>>, CodecError>(None)
            && buf_contents(*final(src)) == buf_contents(*old(src)),
        frame_too_large(buf_contents(*old(src))) ==> (r matches Err(e) && e@
            == CodecErrorView::FrameTooLarge) && buf_contents(*final(src)) == buf_contents(
            *old(src),
        ),
        frame_ready(buf_contents(*old(src))) ==> (r matches Ok(of) && of matches Some(f) && f@
            == buf_contents(*old(src)).take(frame_len(buf_contents(*old(src))))) && buf_contents(
            *final(src),
        ) == buf_contents(*old(src)).skip(frame_len(buf_contents(*old(src)))),
{
    let n = buf_len(src);
    if n < 24 {
        return Ok(None);
    }
    let b16 = buf_byte(src, 16);
    let b17 = buf_byte(src, 17);
    let b18 = buf_byte(src, 18);
    let b19 = buf_byte(src, 19);
    let payload_size: u32 = ((b16 as u32) << 24) | ((b17 as u32) << 16) | ((b18 as u32) << 8) | (
    b19 as u32);
    proof {
        let b = buf_contents(*src);
        let t = b.subrange(16, 20);
        assert(t[0] == b[16] && t[1] == b[17] && t[2] == b[18] && t[3] == b[19]);
    }
    if payload_size > MAX_PAYLOAD_SIZE {
        return Err(CodecError::FrameTooLarge);
    }
    let total: usize = 24 + (payload_size as usize);
    if n < total {
        return Ok(None);
    }
    let f = buf_split_to(src, total);
    Ok(Some(f))
}

/// Reads the network identity from the first 4 buffered frame bytes.
fn read_network_type(src: &Vec<u8>) -> (r: Result<NetworkType, CodecError>)
    requires
        src@.len() >= 4,
    ensures
        match parse_start(src@.subrange(0, 4)) {
            Some(n) => r == Ok::<NetworkType, CodecError>(n),
            None => (r matches Err(e) && e@ == CodecErrorView::InvalidStartBytes(
                src@.subrange(0, 4),
            )),
        },
{
    let start = [src[0], src[1], src[2], src[3]];
    proof {
        assert(start@ =~= src@.subrange(0, 4));
    }
    NetworkType::from_start_string(start)
}

/// Reads the 12 command-name bytes out of a frame's header.
fn read_command_name(src: &Vec<u8>) -> (r: [u8; 12])
    requires
        src@.len() >= 16,
    ensures
        r@ == src@.subrange(4, 16),
{
    let r = [
        src[4],
        src[5],
        src[6],
        src[7],
        src[8],
        src[9],
        src[10],
        src[11],
        src[12],
        src[13],
        src[14],
        src[15],
    ];
    proof {
        assert(r@ =~= src@.subrange(4, 16));
    }
    r
}

/// Compares two 12-byte command names.
fn name_eq(a: &[u8; 12], b: &[u8; 12]) -> (r: bool)
    ensures
        r == (a@ == b@),
{
    let r = a[0] == b[0] && a[1] == b[1] && a[2] == b[2] && a[3] == b[3] && a[4] == b[4] && a[5]
        == b[5] && a[6] == b[6] && a[7] == b[7] && a[8] == b[8] && a[9] == b[9] && a[10] == b[10]
        && a[11] == b[11];
    proof {
        if r {
            assert(a@ =~= b@);
        } else {
            if a@ == b@ {
                assert(a@[0] == b@[0] && a@[1] == b@[1] && a@[2] == b@[2] && a@[3] == b@[3] && a@[4]
                    == b@[4] && a@[5] == b@[5] && a@[6] == b@[6] && a@[7] == b@[7] && a@[8] == b@[8]
                    && a@[9] == b@[9] && a@[10] == b@[10] && a@[11] == b@[11]);
            }
        }
    }
    r
}

/// Looks the command name up in the registry and decodes the payload.
fn read_command(command_name: [u8; 12], payload: Vec<u8>) -> (r: Result<Command, CodecError>)
    ensures
        match command_decoded(command_name@, payload@) {
            Ok(c) => (r matches Ok(cmd) && cmd@ == c),
            Err(e) => (r matches Err(er) && er@ == e),
        },
{
    let addr_name = addr::command_name();
    let get_addr_name = get_addr::command_name();
    let version_name = version::command_name();
    if name_eq(&command_name, &addr_name) {
        match addr::decode(payload) {
            Ok(a) => Ok(Command::Addr(a)),
            Err(e) => Err(e),
        }
    } else if name_eq(&command_name, &get_addr_name) {
        Ok(Command::GetAddr)
    } else if name_eq(&command_name, &version_name) {
        match version::decode(payload) {
            Ok(v) => Ok(Command::Version(v)),
            Err(e) => Err(e),
        }
    } else {
        Err(CodecError::UnknownCommand(command_name))
    }
}

/// Decodes one message from the caller's buffer, if a complete frame is
/// buffered: `Ok(None)` asks for more data, consuming nothing; a buffered
/// frame is always consumed, and yields the message or the precise reason it
/// was rejected.
pub fn decode_message(src: &mut BytesMut) -> (r: Result<Option<Message>, CodecError>)
    ensures
        need_more_data(buf_contents(*old(src))) ==> r == Ok::<Option<Message>, CodecError>(None)
            && buf_contents(*final(src)) == buf_contents(*old(src)),
        frame_too_large(buf_contents(*old(src))) ==> (r matches Err(e) && e@
            == CodecErrorView::FrameTooLarge) && buf_contents(*final(src)) == buf_contents(
            *old(src),
        ),
        frame_ready(buf_contents(*old(src))) ==> buf_contents(*final(src)) == buf_contents(
            *old(src),
        ).skip(frame_len(buf_contents(*old(src)))) && (match frame_decoded(
            buf_contents(*old(src)).take(frame_len(buf_contents(*old(src)))),
        ) {
            Ok(m) => (r matches Ok(om) && om matches Some(msg) && msg@ == m),
            Err(e) => (r matches Err(er) && er@ == e),
        }),
{
    let frame_opt = match extract_frame_bytes(src) {
        Ok(o) => o,
        Err(e) => {
            return Err(e);
        },
    };
    let f = match frame_opt {
        Some(f) => f,
        None => {
            return Ok(None);
        },
    };
    assert(f@.len() >= 24);

    let network_type = match read_network_type(&f) {
        Ok(n) => n,
        Err(e) => {
            return Err(e);
        },
    };

    let payload = sub_vec(&f, 24, f.len());
    proof {
        assert(payload@ =~= f@.skip(24));
    }

    let expected = [f[20], f[21], f[22], f[23]];
    proof {
        assert(expected@ =~= f@.subrange(20, 24));
    }
    match verify(&expected, &payload) {
        Ok(_) => {},
        Err(e) => {
            return Err(e);
        },
    }

    let command_name = read_command_name(&f);
    let command = match read_command(command_name, payload) {
        Ok(c) => c,
        Err(e) => {
            return Err(e);
        },
    };

    Ok(Some(Message { network_type, command }))
}

} // verus!

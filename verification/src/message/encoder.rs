//! The message encoder: dispatches the command variant to its payload
//! encoder, then lays out the exact frame bytes — magic, command name,
//! payload length, checksum, payload — into the caller's output buffer.

use vstd::prelude::*;

use bytes::BytesMut;

use crate::buffer::{buf_contents, buf_put_slice};
use crate::error::{CodecError, CodecErrorView};
use crate::message::checksum::{checksum, checksum_of};
use crate::message::command::{addr, get_addr, version};
use crate::message::{
    command_encodable, command_name_of, command_payload, Command, CommandView, Message,
    MessageView,
};
use crate::net::start_seq;
use crate::wire::{be32_of, push_array, push_bytes, push_u32_be};

verus! {

/// The full wire bytes of one message: 4 magic bytes, the 12-byte command
/// name, the payload length as 4 big-endian bytes, the 4 checksum bytes, and
/// the payload itself.
pub open spec fn frame_bytes(m: MessageView) -> Seq<u8> {
    start_seq(m.network_type) + command_name_of(m.command) + be32_of(
        command_payload(m.command).len() as u32,
    ) + checksum_of(command_payload(m.command)) + command_payload(m.command)
}

/// Every encodable payload is far smaller than both the length field's range
/// and the frame-size policy.
pub proof fn lemma_command_payload_len(c: CommandView)
    requires
        command_encodable(c),
    ensures
        command_payload(c).len() <= 338,
{
    match c {
        CommandView::Version(v) => {
            assert(version::fixed_bytes(v).len() == 80);
            assert(version::ua_field(v.user_agent).len() <= 253);
            assert(version::relay_field(v.relay).len() <= 1);
        },
        CommandView::GetAddr => {},
        CommandView::Addr(_) => {},
    }
}

/// Selects a command's wire name and encodes its payload; total over the
/// variants, so the only failure is the payload's own (an oversized user
/// agent).
fn get_command_name_and_payload(command: Command) -> (r: Result<([u8; 12], Vec<u8>), CodecError>)
    ensures
        command_encodable(command@) ==> (r matches Ok((n, p)) && n@ == command_name_of(command@)
            && p@ == command_payload(command@)),
        !command_encodable(command@) ==> (r matches Err(e) && e@
            == CodecErrorView::PayloadEncodeError),
{
    match command {
        Command::Version(v) => match version::encode(v) {
            Ok(p) => Ok((version::command_name(), p)),
            Err(e) => Err(e),
        },
        Command::GetAddr => match get_addr::encode() {
            Ok(p) => Ok((get_addr::command_name(), p)),
            Err(e) => Err(e),
        },
        Command::Addr(a) => match addr::encode(a) {
            Ok(p) => Ok((addr::command_name(), p)),
            Err(e) => Err(e),
        },
    }
}

/// Encodes one message and appends its frame to `dst`. A payload that cannot
/// be encoded is reported before anything is written, so on failure the
/// buffer is untouched.
pub fn encode_message(msg: Message, dst: &mut BytesMut) -> (r: Result<(), CodecError>)
    ensures
        command_encodable(msg@.command) ==> r == Ok::<(), CodecError>(()) && buf_contents(
            *final(dst),
        ) == buf_contents(*old(dst)) + frame_bytes(msg@),
        !command_encodable(msg@.command) ==> (r matches Err(e) && e@
            == CodecErrorView::PayloadEncodeError) && buf_contents(*final(dst)) == buf_contents(
            *old(dst),
        ),
{
    let network_type = msg.network_type;
    let (command_name, payload) = match get_command_name_and_payload(msg.command) {
        Ok(np) => np,
        Err(e) => {
            return Err(e);
        },
    };
    proof {
        lemma_command_payload_len(msg@.command);
    }

    let mut frame: Vec<u8> = Vec::new();
    let start = network_type.start_string();
    push_array(&mut frame, &start);
    push_array(&mut frame, &command_name);
    push_u32_be(&mut frame, payload.len() as u32);
    let ck = checksum(&payload);
    push_array(&mut frame, &ck);
    push_bytes(&mut frame, &payload);
    assert(frame@ =~= frame_bytes(msg@));

    buf_put_slice(dst, frame.as_slice());
    Ok(())
}

} // verus!

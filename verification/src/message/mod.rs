//! Typed messages and the codec over them: a `Message` pairs a network
//! identity with a `Command`, and `MsgCodec` turns byte buffers into messages
//! and back.

pub mod checksum;
pub mod command;
pub mod decoder;
pub mod encoder;

pub use decoder::decode_message;
pub use encoder::encode_message;

use vstd::prelude::*;

use bytes::BytesMut;

use crate::error::CodecError;
use crate::net::NetworkType;
use self::command::{addr, get_addr, version};

verus! {

/// Every header is exactly this many bytes: 4 magic, 12 command name,
/// 4 payload length, 4 checksum.
pub const SIZE_OF_HEADER: usize = 24;

/// Hardening policy against untrusted peers: a frame whose header declares a
/// payload longer than this is rejected instead of waited for.
pub const MAX_PAYLOAD_SIZE: u32 = 0x0200_0000;

/// One complete protocol message.
#[derive(Debug, Clone, PartialEq, Eq)]
pub struct Message {
    pub network_type: NetworkType,
    pub command: Command,
}

/// The supported message kinds, each with its payload when it carries one.
#[derive(Debug, Clone, PartialEq, Eq)]
pub enum Command {
    Version(version::VersionPayload),
    GetAddr,
    Addr(addr::AddrPayload),
}

/// Mathematical model of a `Command`: payloads are replaced by their views.
pub ghost enum CommandView {
    Version(version::VersionPayloadView),
    GetAddr,
    Addr(addr::AddrPayload),
}

/// Mathematical model of a `Message`.
pub ghost struct MessageView {
    pub network_type: NetworkType,
    pub command: CommandView,
}

impl View for Command {
    type V = CommandView;

    open spec fn view(&self) -> CommandView {
        match self {
            Command::Version(v) => CommandView::Version(v@),
            Command::GetAddr => CommandView::GetAddr,
            Command::Addr(a) => CommandView::Addr(*a),
        }
    }
}

impl View for Message {
    type V = MessageView;

    open spec fn view(&self) -> MessageView {
        MessageView { network_type: self.network_type, command: self.command@ }
    }
}

/// The fixed 12-byte wire name of a command; the variant tag and the name are
/// in one-to-one correspondence.
pub open spec fn command_name_of(c: CommandView) -> Seq<u8> {
    match c {
        CommandView::Version(_) => version::name_seq(),
        CommandView::GetAddr => get_addr::name_seq(),
        CommandView::Addr(_) => addr::name_seq(),
    }
}

/// The payload bytes a command encodes to.
pub open spec fn command_payload(c: CommandView) -> Seq<u8> {
    match c {
        CommandView::Version(v) => version::version_payload_bytes(v),
        CommandView::GetAddr => Seq::<u8>::empty(),
        CommandView::Addr(a) => addr::addr_payload_bytes(a),
    }
}

/// Whether a command's payload can be encoded at all (a version payload with
/// an oversized user agent cannot).
pub open spec fn command_encodable(c: CommandView) -> bool {
    match c {
        CommandView::Version(v) => version::version_encodable(v),
        CommandView::GetAddr => true,
        CommandView::Addr(_) => true,
    }
}

/// A codec value: decode and encode hold no state beyond the caller-owned
/// buffers they are handed, so one value may serve many connections.
pub struct MsgCodec;

impl MsgCodec {
    /// Decodes one message from the buffer; see [`decoder::decode_message`].
    pub fn decode(&mut self, src: &mut BytesMut) -> (r: Result<Option<Message>, CodecError>)
        ensures
            decoder::need_more_data(crate::buffer::buf_contents(*old(src))) ==> r == Ok::<
                Option<Message>,
                CodecError,
            >(None) && crate::buffer::buf_contents(*final(src)) == crate::buffer::buf_contents(
                *old(src),
            ),
            decoder::frame_too_large(crate::buffer::buf_contents(*old(src))) ==> (r matches Err(e)
                && e@ == crate::error::CodecErrorView::FrameTooLarge)
                && crate::buffer::buf_contents(*final(src)) == crate::buffer::buf_contents(
                *old(src),
            ),
            decoder::frame_ready(crate::buffer::buf_contents(*old(src)))
                ==> crate::buffer::buf_contents(*final(src)) == crate::buffer::buf_contents(
                *old(src),
            ).skip(decoder::frame_len(crate::buffer::buf_contents(*old(src)))) && (match
                decoder::frame_decoded(
                crate::buffer::buf_contents(*old(src)).take(
                    decoder::frame_len(crate::buffer::buf_contents(*old(src))),
                ),
            ) {
                Ok(m) => (r matches Ok(om) && om matches Some(msg) && msg@ == m),
                Err(e) => (r matches Err(er) && er@ == e),
            }),
    {
        decoder::decode_message(src)
    }

    /// Encodes one message into the buffer; see [`encoder::encode_message`].
    pub fn encode(&mut self, item: Message, dst: &mut BytesMut) -> (r: Result<(), CodecError>)
        ensures
            command_encodable(item@.command) ==> r == Ok::<(), CodecError>(())
                && crate::buffer::buf_contents(*final(dst)) == crate::buffer::buf_contents(
                *old(dst),
            ) + encoder::frame_bytes(item@),
            !command_encodable(item@.command) ==> (r matches Err(e) && e@
                == crate::error::CodecErrorView::PayloadEncodeError)
                && crate::buffer::buf_contents(*final(dst)) == crate::buffer::buf_contents(
                *old(dst),
            ),
    {
        encoder::encode_message(item, dst)
    }
}

/// Whether a command's wire bytes can only be read back one way; see
/// [`version::version_wire_unambiguous`] for the one ambiguous shape.
pub open spec fn command_wire_unambiguous(c: CommandView) -> bool {
    match c {
        CommandView::Version(v) => version::version_wire_unambiguous(v),
        CommandView::GetAddr => true,
        CommandView::Addr(_) => true,
    }
}

/// Round trip: the frame of an encodable, wire-unambiguous message is a
/// single complete frame that decodes back to the message itself — same
/// network type, same command variant, same payload.
#[verifier::rlimit(60)]
pub proof fn lemma_round_trip(m: MessageView)
    requires
        command_encodable(m.command),
        command_wire_unambiguous(m.command),
    ensures
        ({
            let f = encoder::frame_bytes(m);
            &&& decoder::frame_ready(f)
            &&& decoder::frame_len(f) == f.len()
            &&& decoder::frame_decoded(f) == Ok::<MessageView, crate::error::CodecErrorView>(m)
        }),
{
    let f = encoder::frame_bytes(m);
    let payload = command_payload(m.command);
    let name = command_name_of(m.command);
    let start = crate::net::start_seq(m.network_type);
    encoder::lemma_command_payload_len(m.command);
    assert(start.len() == 4);
    assert(name.len() == 12);
    assert(checksum::checksum_of(payload).len() == 4);
    assert(f.len() == 24 + payload.len());

    assert(f.subrange(0, 4) =~= start);
    assert(f.subrange(4, 16) =~= name);
    assert(f.subrange(16, 20) =~= crate::wire::be32_of(payload.len() as u32));
    assert(f.subrange(20, 24) =~= checksum::checksum_of(payload));
    assert(f.skip(24) =~= payload);

    crate::wire::lemma_be32_roundtrip(payload.len() as u32);
    assert(decoder::header_payload_len(f) == payload.len());
    assert(decoder::frame_ready(f));
    assert(decoder::frame_len(f) == f.len());

    crate::net::lemma_start_bijective(m.network_type);
    assert(crate::net::parse_start(f.subrange(0, 4)) == Some(m.network_type));
    checksum::lemma_checksum_self_verifies(payload);

    // The three registry names differ pairwise in their first byte.
    assert(addr::name_seq()[0] == 0x61 && get_addr::name_seq()[0] == 0x67
        && version::name_seq()[0] == 0x76);
    match m.command {
        CommandView::Version(v) => {
            assert(name != addr::name_seq());
            assert(name != get_addr::name_seq());
            version::lemma_version_round_trip(v);
        },
        CommandView::GetAddr => {
            assert(name != addr::name_seq());
        },
        CommandView::Addr(a) => {
            addr::lemma_addr_round_trip(a);
        },
    }
    assert(decoder::frame_decoded(f) == Ok::<MessageView, crate::error::CodecErrorView>(m));
}

} // verus!

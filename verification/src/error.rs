//! Error taxonomy of the codec: every decode or encode failure is returned to
//! the caller as one of these variants; the codec never panics and never
//! aborts the process.

use vstd::prelude::*;

verus! {

/// One decode/encode failure, carrying only the data needed for diagnosis.
#[derive(Debug, Clone, PartialEq, Eq)]
pub enum CodecError {
    /// The 4 header bytes matched no known network magic; carries those bytes.
    InvalidStartBytes([u8; 4]),
    /// The header checksum does not equal the double-hash of the payload.
    ChecksumMismatch,
    /// The 12-byte command name is not in the registry; carries those bytes.
    UnknownCommand([u8; 12]),
    /// The command name is registered but only as one this side receives.
    CommandNotSendable([u8; 12]),
    /// The command name is registered but only as one this side sends.
    CommandNotReceivable([u8; 12]),
    /// The declared payload length exceeds the configured maximum frame size.
    FrameTooLarge,
    /// A payload field cannot be encoded (e.g. an oversized user agent).
    PayloadEncodeError,
    /// A payload field is malformed or the payload has an impossible length.
    PayloadDecodeError,
    /// The transport reported a short read; surfaced through the same channel.
    TruncatedInput,
}

/// Mathematical model of a `CodecError`: byte arrays become sequences, so
/// contracts can state exactly which bytes an error carries.
pub ghost enum CodecErrorView {
    InvalidStartBytes(Seq<u8>),
    ChecksumMismatch,
    UnknownCommand(Seq<u8>),
    CommandNotSendable(Seq<u8>),
    CommandNotReceivable(Seq<u8>),
    FrameTooLarge,
    PayloadEncodeError,
    PayloadDecodeError,
    TruncatedInput,
}

impl View for CodecError {
    type V = CodecErrorView;

    open spec fn view(&self) -> CodecErrorView {
        match self {
            CodecError::InvalidStartBytes(b) => CodecErrorView::InvalidStartBytes(b@),
            CodecError::ChecksumMismatch => CodecErrorView::ChecksumMismatch,
            CodecError::UnknownCommand(b) => CodecErrorView::UnknownCommand(b@),
            CodecError::CommandNotSendable(b) => CodecErrorView::CommandNotSendable(b@),
            CodecError::CommandNotReceivable(b) => CodecErrorView::CommandNotReceivable(b@),
            CodecError::FrameTooLarge => CodecErrorView::FrameTooLarge,
            CodecError::PayloadEncodeError => CodecErrorView::PayloadEncodeError,
            CodecError::PayloadDecodeError => CodecErrorView::PayloadDecodeError,
            CodecError::TruncatedInput => CodecErrorView::TruncatedInput,
        }
    }
}

} // verus!

//! The client's failure taxonomy: an I/O failure on either half of the
//! connection, a serialization (protocol) failure on an inbound line, a
//! line-framing failure, or a completion handle closed before a response
//! arrived (the session died mid-request).

use vstd::prelude::*;

verus! {

#[verifier::external_type_specification]
#[verifier::external_body]
pub struct ExIoError(std::io::Error);

#[verifier::external_type_specification]
#[verifier::external_body]
pub struct ExLinesCodecError(tokio_util::codec::LinesCodecError);

#[verifier::external_type_specification]
#[verifier::external_body]
pub struct ExRecvError(tokio::sync::oneshot::error::RecvError);

pub enum IpcError {
    /// A socket read, write or spawn failed.
    Io(std::io::Error),
    /// An inbound line was not valid JSON.
    Serialization(serde_json::Error),
    /// A line could not be framed (too long, or bad framing).
    LinesCodec(tokio_util::codec::LinesCodecError),
    /// The completion handle was dropped before any response arrived.
    RecvError(tokio::sync::oneshot::error::RecvError),
}

} // verus!

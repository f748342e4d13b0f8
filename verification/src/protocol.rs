//! What travels over the control channel: a request is a UTF-8 command word
//! read to the end of the stream, a response is a URL or a fixed token.

use vstd::prelude::*;

verus! {

/// A request, classified.
#[derive(Clone, Copy, Debug, PartialEq, Eq, Structural)]
pub enum Command {
    /// Asks for a session.
    OpenNewConnection,
    /// Resets the idle clock.
    KeepAlive,
    /// Anything else. It is discarded and gets no response.
    Unknown,
}

/// The bytes of the request that asks for a session.
pub open spec fn open_new_connection_token() -> Seq<u8> {
    vstd::utf8::encode_utf8("OpenNewConnection"@)
}

/// The bytes of the keepalive request.
pub open spec fn keep_alive_token() -> Seq<u8> {
    vstd::utf8::encode_utf8("KeepAlive"@)
}

/// The bytes that acknowledge a keepalive.
pub open spec fn ack_token() -> Seq<u8> {
    vstd::utf8::encode_utf8("OK"@)
}

/// The bytes that report a failed start.
pub open spec fn error_token() -> Seq<u8> {
    vstd::utf8::encode_utf8("ERROR"@)
}

/// The command that a request stands for: it is recognised only if it is a
/// command word exactly, with nothing before or after it.
pub open spec fn command_of(request: Seq<u8>) -> Command {
    if request == open_new_connection_token() {
        Command::OpenNewConnection
    } else if request == keep_alive_token() {
        Command::KeepAlive
    } else {
        Command::Unknown
    }
}

/// Tests two byte strings for equality.
pub fn bytes_equal(left: &[u8], right: &[u8]) -> (equal: bool)
    ensures
        equal == (left@ == right@),
{
    if left.len() != right.len() {
        return false;
    }
    let mut i: usize = 0;
    while i < left.len()
        invariant
            left@.len() == right@.len(),
            i <= left@.len(),
            forall|j: int| 0 <= j < i ==> left@[j] == right@[j],
        decreases left@.len() - i,
    {
        if left[i] != right[i] {
            return false;
        }
        i = i + 1;
    }
    assert(left@ =~= right@);
    true
}

/// Classifies a request.
pub fn parse_command(request: &[u8]) -> (command: Command)
    ensures
        command == command_of(request@),
{
    if bytes_equal(request, "OpenNewConnection".as_bytes()) {
        Command::OpenNewConnection
    } else if bytes_equal(request, "KeepAlive".as_bytes()) {
        Command::KeepAlive
    } else {
        Command::Unknown
    }
}

/// A response, as the contracts see it.
pub enum ResponseModel {
    Url(Seq<char>),
    Ack,
    Error,
}

impl ResponseModel {
    /// The bytes written for the response: a URL goes out as its UTF-8
    /// encoding, with nothing added.
    pub open spec fn bytes(self) -> Seq<u8> {
        match self {
            ResponseModel::Url(url) => vstd::utf8::encode_utf8(url),
            ResponseModel::Ack => ack_token(),
            ResponseModel::Error => error_token(),
        }
    }
}

/// A response.
#[derive(Debug, PartialEq, Eq)]
pub enum Response {
    /// A session is there, and this is its URL.
    Url(String),
    /// The keepalive was taken.
    Ack,
    /// No session could be started.
    Error,
}

impl View for Response {
    type V = ResponseModel;

    open spec fn view(&self) -> ResponseModel {
        match self {
            Response::Url(url) => ResponseModel::Url(url@),
            Response::Ack => ResponseModel::Ack,
            Response::Error => ResponseModel::Error,
        }
    }
}

impl Response {
    /// The bytes to write for this response.
    pub fn to_bytes(&self) -> (bytes: Vec<u8>)
        ensures
            bytes@ == self@.bytes(),
    {
        match self {
            Response::Url(url) => vstd::slice::slice_to_vec(url.as_str().as_bytes()),
            Response::Ack => vstd::slice::slice_to_vec("OK".as_bytes()),
            Response::Error => vstd::slice::slice_to_vec("ERROR".as_bytes()),
        }
    }
}

} // verus!

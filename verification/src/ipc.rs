//! The messages exchanged with the controlling application over the local
//! socket, one JSON object per line, and the framing of those lines.

use vstd::prelude::*;
use crate::config::{Capabilities, StreamConfig};
use crate::text::{all_ws, lemma_trim_ignores_surrounding_space, trim, trim_str};

verus! {

/// A request from the controlling application.
#[derive(Debug, PartialEq)]
pub enum InboundMessage {
    SetRemoteSdp { sdp: String, sdp_type: String },
    AddIceCandidate { candidate: String, mid: Option<String>, mline_index: Option<u32> },
    RequestOffer,
    StopStream,
    ConfigureStream(StreamConfig),
    GetCapabilities,
    RestartPipeline(StreamConfig),
    ForceKeyframe,
    SwitchDisplay { direction: String },
}

/// A notice to the controlling application.
#[derive(Debug, PartialEq)]
pub enum OutboundMessage {
    LocalSdpGenerated { sdp: String, sdp_type: String },
    LocalIceCandidate { candidate: String, mid: Option<String>, mline_index: Option<u32> },
    StreamError { message: String },
    CapabilitiesResponse(Capabilities),
    ConfigAck { active_encoder: String },
    PortalTokenGenerated { token: String },
    WaitingForPortalApproval,
}

/// The longest request line read, in bytes; a longer line is cut there.
pub const MAX_LINE_BYTES: u64 = 1024 * 1024;

/// The local control socket (a Unix socket path or a named pipe name).
pub struct IpcServer {
    path: String,
}

impl View for IpcServer {
    type V = Seq<char>;

    closed spec fn view(&self) -> Seq<char> {
        self.path@
    }
}

impl IpcServer {
    /// A server for the socket at `path`.
    pub fn new(path: &str) -> (r: Self)
        ensures
            r@ == path@,
    {
        IpcServer { path: String::from_str(path) }
    }

    /// The socket path.
    pub fn path(&self) -> (r: &str)
        ensures
            r@ == self@,
    {
        self.path.as_str()
    }
}

/// The JSON text of a request line: the line without surrounding white
/// space, or nothing when that leaves it empty.
pub open spec fn request_payload_spec(line: Seq<char>) -> Option<Seq<char>> {
    if trim(line).len() == 0 { None } else { Some(trim(line)) }
}

/// The JSON text of a request line, if there is any.
pub fn request_payload(line: &str) -> (r: Option<String>)
    ensures
        match r {
            Some(p) => request_payload_spec(line@) == Some(p@),
            None => request_payload_spec(line@) is None,
        },
{
    let t = trim_str(line);
    if t.unicode_len() == 0 {
        None
    } else {
        Some(t)
    }
}


/// A request reads the same whatever white space surrounds it (indentation,
/// a carriage return before the line feed, trailing blanks).
pub proof fn law_request_ignores_surrounding_space(before: Seq<char>, line: Seq<char>, after: Seq<char>)
    requires
        all_ws(before),
        all_ws(after),
    ensures
        request_payload_spec(before + line + after) == request_payload_spec(line),
{
    lemma_trim_ignores_surrounding_space(before, line, after);
}

} // verus!

use vstd::prelude::*;

verus! {

/// A websocket frame.
#[derive(Debug, PartialEq, Eq)]
pub enum WsFrame {
    Text(String),
    Binary(Vec<u8>),
    Ping(Vec<u8>),
    Pong(Vec<u8>),
    Close,
    Continuation,
    Nop,
}

/// The frame a session sends back for a received one: a pong with the same
/// payload for a ping, the same text or bytes echoed, and nothing for any
/// other frame.
pub fn ws_reply(frame: WsFrame) -> (r: Option<WsFrame>)
    ensures
        frame matches WsFrame::Ping(b) ==> r == Some(WsFrame::Pong(b)),
        frame matches WsFrame::Text(t) ==> r == Some(WsFrame::Text(t)),
        frame matches WsFrame::Binary(b) ==> r == Some(WsFrame::Binary(b)),
        !(frame is Ping || frame is Text || frame is Binary) ==> r is None,
{
    match frame {
        WsFrame::Ping(b) => Some(WsFrame::Pong(b)),
        WsFrame::Text(t) => Some(WsFrame::Text(t)),
        WsFrame::Binary(b) => Some(WsFrame::Binary(b)),
        _ => None,
    }
}

} // verus!

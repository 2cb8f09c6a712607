//! The TCP protocol: every state is sent as a 4-byte big-endian payload length followed
//! by the JSON payload, and a newly connected client first gets the latest message.
use vstd::prelude::*;

verus! {

/// The length a 4-byte big-endian header announces.
pub open spec fn header_length(h: Seq<u8>) -> int {
    h[0] * 16777216 + h[1] * 65536 + h[2] * 256 + h[3]
}

/// Frames a payload: its length (taken modulo 2^32, as a `u32`) in four big-endian bytes,
/// then the payload itself.
pub fn frame_message(payload: &[u8]) -> (frame: Vec<u8>)
    ensures
        frame@.len() == payload@.len() + 4,
        frame@.skip(4) == payload@,
        header_length(frame@) == payload@.len() % 4294967296,
{
    let len64: u64 = payload.len() as u64;
    let n: u32 = (len64 % 4294967296) as u32;
    let b0: u8 = (n >> 24u32) as u8;
    let b1: u8 = ((n >> 16u32) & 0xffu32) as u8;
    let b2: u8 = ((n >> 8u32) & 0xffu32) as u8;
    let b3: u8 = (n & 0xffu32) as u8;
    assert(b0 * 16777216 + b1 * 65536 + b2 * 256 + b3 == n) by (bit_vector)
        requires
            b0 == (n >> 24u32) as u8,
            b1 == ((n >> 16u32) & 0xffu32) as u8,
            b2 == ((n >> 8u32) & 0xffu32) as u8,
            b3 == (n & 0xffu32) as u8,
    ;
    let mut frame: Vec<u8> = Vec::with_capacity(4);
    frame.push(b0);
    frame.push(b1);
    frame.push(b2);
    frame.push(b3);
    let mut i: usize = 0;
    while i < payload.len()
        invariant
            i <= payload@.len(),
            frame@.len() == i + 4,
            frame@[0] == b0,
            frame@[1] == b1,
            frame@[2] == b2,
            frame@[3] == b3,
            frame@.skip(4) == payload@.take(i as int),
        decreases payload@.len() - i,
    {
        frame.push(payload[i]);
        assert(frame@.skip(4) =~= payload@.take(i + 1));
        i = i + 1;
    }
    assert(payload@.take(payload@.len() as int) =~= payload@);
    frame
}

/// The latest framed message, replayed to clients as they connect.
pub struct Broadcaster {
    last_message: Option<Vec<u8>>,
}

impl Broadcaster {
    /// The latest frame, if any was published.
    pub closed spec fn last(&self) -> Option<Seq<u8>> {
        match self.last_message {
            Some(m) => Some(m@),
            None => None,
        }
    }

    /// A broadcaster that has published nothing.
    pub fn new() -> (r: Broadcaster)
        ensures
            r.last() is None,
    {
        Broadcaster { last_message: None }
    }

    /// Frames a payload for sending to all clients and keeps the frame for late joiners.
    pub fn publish(&mut self, payload: &[u8]) -> (frame: Vec<u8>)
        ensures
            frame@.len() == payload@.len() + 4,
            frame@.skip(4) == payload@,
            header_length(frame@) == payload@.len() % 4294967296,
            final(self).last() == Some(frame@),
    {
        let frame = frame_message(payload);
        self.last_message = Some(frame.clone());
        frame
    }

    /// What a newly connected client is sent first: the latest frame.
    pub fn greeting(&self) -> (r: Option<Vec<u8>>)
        ensures
            match r {
                Some(m) => self.last() == Some(m@),
                None => self.last() is None,
            },
    {
        match &self.last_message {
            Some(m) => Some(m.clone()),
            None => None,
        }
    }
}

/// What happened on a client connection.
pub enum ClientEvent {
    /// The client sent `n` keep-alive bytes; zero means it closed the connection.
    KeepaliveRead(usize),
    /// A frame was broadcast.
    Message(Vec<u8>),
    /// The client fell behind and broadcast frames were dropped for it.
    Lagged,
    /// The broadcast channel closed.
    Closed,
}

/// What to do next on a client connection.
pub enum ClientAction {
    /// Write the frame to the client.
    Write(Vec<u8>),
    /// Keep waiting.
    Continue,
    /// Close the connection.
    Close,
}

/// The client loop's decision for one event: forward frames, skip over lag, and close
/// when the client or the channel goes away.
pub fn client_step(event: ClientEvent) -> (r: ClientAction)
    ensures
        match event {
            ClientEvent::KeepaliveRead(n) => if n == 0 {
                r is Close
            } else {
                r is Continue
            },
            ClientEvent::Message(m) => r matches ClientAction::Write(w) && w@ == m@,
            ClientEvent::Lagged => r is Continue,
            ClientEvent::Closed => r is Close,
        },
{
    match event {
        ClientEvent::KeepaliveRead(n) => if n == 0 {
            ClientAction::Close
        } else {
            ClientAction::Continue
        },
        ClientEvent::Message(m) => ClientAction::Write(m),
        ClientEvent::Lagged => ClientAction::Continue,
        ClientEvent::Closed => ClientAction::Close,
    }
}

} // verus!

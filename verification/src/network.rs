use vstd::prelude::*;

verus! {

/// The messages waiting for the connection thread to write them to the server.
pub struct Backend {
    pub outbox: Vec<String>,
}

/// The TCP message stream's state: whether it is enabled (the connection thread runs while it
/// is) and, once connected, the backend that carries outgoing messages.
pub struct TCPStream {
    pub is_enabled: bool,
    pub backend: Option<Backend>,
}

impl TCPStream {
    /// A disabled stream with no backend.
    pub fn new() -> (s: TCPStream)
        ensures
            !s.is_enabled,
            s.backend is None,
    {
        TCPStream { is_enabled: false, backend: None }
    }

    /// HLXTCPConnect: enable the stream with a fresh, empty backend.
    pub fn enable(&mut self)
        ensures
            final(self).is_enabled,
            final(self).backend matches Some(b) && b.outbox@.len() == 0,
    {
        self.is_enabled = true;
        self.backend = Some(Backend { outbox: Vec::new() });
    }

    /// Stop the connection thread at its next check.
    pub fn disconnect(&mut self)
        ensures
            !final(self).is_enabled,
            final(self).backend == old(self).backend,
    {
        self.is_enabled = false;
    }

    /// Queue a message for the server; without a backend (never connected) it goes nowhere.
    pub fn send_message(&mut self, message: &str)
        ensures
            final(self).is_enabled == old(self).is_enabled,
            match old(self).backend {
                None => final(self).backend is None,
                Some(b) => final(self).backend matches Some(b2) && b2.outbox@.len() == b.outbox@.len() + 1
                    && b2.outbox@.last()@ == message@
                    && b2.outbox@.drop_last() == b.outbox@,
            },
    {
        match self.backend.take() {
            None => {},
            Some(mut b) => {
                let ghost before = b.outbox@;
                b.outbox.push(message.to_owned());
                proof {
                    assert(b.outbox@.drop_last() =~= before);
                }
                self.backend = Some(b);
            },
        }
    }
}

/// What one read from the server gives: the connection closed (a read of 0 bytes), or a message —
/// the bytes read without their final delimiter byte.
#[derive(Debug, PartialEq, Eq)]
pub enum ReadEvent {
    Closed,
    Message(Vec<u8>),
}

pub fn read_event(buffer: &[u8], bytes_read: usize) -> (r: ReadEvent)
    requires
        bytes_read <= buffer@.len(),
    ensures
        bytes_read == 0 ==> r == ReadEvent::Closed,
        bytes_read > 0 ==> (r matches ReadEvent::Message(m) && m@ == buffer@.subrange(0, bytes_read - 1)),
{
    if bytes_read == 0 {
        return ReadEvent::Closed;
    }
    let mut m: Vec<u8> = Vec::new();
    let mut i: usize = 0;
    while i < bytes_read - 1
        invariant
            i <= bytes_read - 1,
            bytes_read <= buffer@.len(),
            m@ == buffer@.subrange(0, i as int),
        decreases bytes_read - 1 - i,
    {
        m.push(buffer[i]);
        i = i + 1;
        assert(m@ =~= buffer@.subrange(0, i as int));
    }
    ReadEvent::Message(m)
}

} // verus!

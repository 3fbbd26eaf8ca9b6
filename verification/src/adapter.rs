//! The WebSocket byte-stream adapter, modelled as a state machine over the
//! values the host hands it: inbound message payloads become a contiguous
//! readable byte stream seeded with early data, and outbound writes become
//! frames, the first of which carries the two-byte protocol response header.
//! The host WebSocket itself (event polling, frame sending, closing) stays
//! outside; it feeds events in and sends the built frames out.

use crate::TunnelError;
use vstd::prelude::*;

verus! {

/// One event delivered by the host WebSocket's event stream.
pub enum WsEvent {
    /// A message and its payload bytes.
    Message(Vec<u8>),
    /// The peer closed the socket; also stands for the end of the event
    /// stream.
    Close,
    /// The transport reported an error.
    Error,
}

/// The adapter's state. The ghost fields record the whole history of the
/// byte stream, so that what readers saw and what the peer observes on the
/// wire can be stated exactly.
pub struct Adapter {
    /// Bytes received but not yet handed to a reader.
    pub rx_buffer: Vec<u8>,
    /// False until the first outbound frame was built, then permanently
    /// true.
    pub init_write: bool,
    /// Every byte handed to readers so far, in order.
    pub delivered: Ghost<Seq<u8>>,
    /// Every byte fed in so far: early data first, then each message
    /// payload, in order.
    pub fed: Ghost<Seq<u8>>,
    /// Every payload byte writers asked to send, in order.
    pub written: Ghost<Seq<u8>>,
    /// The outbound frames built so far, concatenated: the byte stream the
    /// peer observes.
    pub wire: Ghost<Seq<u8>>,
}

impl Adapter {
    /// The adapter's invariant: reads pass the fed bytes through unchanged
    /// and in order, and the wire carries exactly the response header
    /// followed by the written payload bytes, the header exactly once.
    pub open spec fn wf(&self) -> bool {
        &&& self.fed@ == self.delivered@ + self.rx_buffer@
        &&& if self.init_write {
            self.wire@ == seq![0u8, 0u8] + self.written@
        } else {
            self.wire@ == Seq::<u8>::empty() && self.written@ == Seq::<u8>::empty()
        }
    }

    /// A fresh adapter: the receive buffer holds exactly the early data, if
    /// any, and nothing was read, written or sent yet.
    pub fn new(early_data: Option<Vec<u8>>) -> (a: Adapter)
        ensures
            a.wf(),
            !a.init_write,
            a.rx_buffer@ == match early_data {
                Some(d) => d@,
                None => Seq::<u8>::empty(),
            },
            a.delivered@ == Seq::<u8>::empty(),
            a.fed@ == a.rx_buffer@,
            a.written@ == Seq::<u8>::empty(),
            a.wire@ == Seq::<u8>::empty(),
    {
        let mut buffer: Vec<u8> = Vec::with_capacity(4096);
        match &early_data {
            Some(d) => {
                buffer.extend_from_slice(d.as_slice());
            },
            None => {},
        }
        proof {
            assert(buffer@ =~= match early_data {
                Some(d) => d@,
                None => Seq::<u8>::empty(),
            });
        }
        Adapter {
            rx_buffer: buffer,
            init_write: false,
            delivered: Ghost(Seq::empty()),
            fed: Ghost(match early_data {
                Some(d) => d@,
                None => Seq::empty(),
            }),
            written: Ghost(Seq::empty()),
            wire: Ghost(Seq::empty()),
        }
    }

    /// Serve a read from the buffer: the reader gets the earliest
    /// `min(buffered, max)` bytes, and the buffer keeps the rest. Nothing
    /// else changes; when the buffer is empty the caller pulls one event
    /// ([`Self::on_event`]) and tries again.
    pub fn read_available(&mut self, max: usize) -> (out: Vec<u8>)
        requires
            old(self).wf(),
        ensures
            final(self).wf(),
            out@.len() == if max <= old(self).rx_buffer@.len() {
                max as int
            } else {
                old(self).rx_buffer@.len() as int
            },
            out@ == old(self).rx_buffer@.take(out@.len() as int),
            final(self).rx_buffer@ == old(self).rx_buffer@.skip(out@.len() as int),
            final(self).delivered@ == old(self).delivered@ + out@,
            final(self).fed@ == old(self).fed@,
            final(self).init_write == old(self).init_write,
            final(self).written@ == old(self).written@,
            final(self).wire@ == old(self).wire@,
    {
        let amt = if self.rx_buffer.len() <= max {
            self.rx_buffer.len()
        } else {
            max
        };
        let mut rest = self.rx_buffer.split_off(amt);
        core::mem::swap(&mut self.rx_buffer, &mut rest);
        let out = rest;
        proof {
            self.delivered@ = self.delivered@ + out@;
        }
        proof {
            assert(out@ =~= old(self).rx_buffer@.take(out@.len() as int));
            assert(self.rx_buffer@ =~= old(self).rx_buffer@.skip(out@.len() as int));
            assert(self.fed@ =~= self.delivered@ + self.rx_buffer@);
        }
        out
    }

    /// Fold one WebSocket event into the adapter, as the read path does when
    /// its buffer runs empty: a message's payload is appended to the buffer;
    /// a peer close, or the end of the event stream, is surfaced as an
    /// error rather than a clean end of stream; a transport error is
    /// surfaced as such.
    pub fn on_event(&mut self, event: WsEvent) -> (r: Result<(), TunnelError>)
        requires
            old(self).wf(),
        ensures
            final(self).wf(),
            final(self).init_write == old(self).init_write,
            final(self).delivered@ == old(self).delivered@,
            final(self).written@ == old(self).written@,
            final(self).wire@ == old(self).wire@,
            match event {
                WsEvent::Message(m) => {
                    &&& r == Ok::<(), TunnelError>(())
                    &&& final(self).rx_buffer@ == old(self).rx_buffer@ + m@
                    &&& final(self).fed@ == old(self).fed@ + m@
                },
                WsEvent::Close => {
                    &&& r == Err::<(), TunnelError>(TunnelError::ConnectionClosed)
                    &&& final(self).rx_buffer@ == old(self).rx_buffer@
                    &&& final(self).fed@ == old(self).fed@
                },
                WsEvent::Error => {
                    &&& r == Err::<(), TunnelError>(TunnelError::Transport)
                    &&& final(self).rx_buffer@ == old(self).rx_buffer@
                    &&& final(self).fed@ == old(self).fed@
                },
            },
    {
        match event {
            WsEvent::Message(m) => {
                self.rx_buffer.extend_from_slice(m.as_slice());
                proof {
                    self.fed@ = self.fed@ + m@;
                }
                proof {
                    assert(self.fed@ =~= self.delivered@ + self.rx_buffer@);
                }
                Ok(())
            },
            WsEvent::Close => Err(TunnelError::ConnectionClosed),
            WsEvent::Error => Err(TunnelError::Transport),
        }
    }

    /// Build the frame for one write. The first frame is the two-byte
    /// response header followed by the payload; every later frame is the
    /// payload unchanged, with no forced prefix. The caller sends the frame
    /// and reports the payload's own length back to the writer.
    pub fn frame_for_write(&mut self, buf: &Vec<u8>) -> (frame: Vec<u8>)
        requires
            old(self).wf(),
        ensures
            final(self).wf(),
            final(self).init_write,
            frame@ == if old(self).init_write {
                buf@
            } else {
                seq![0u8, 0u8] + buf@
            },
            final(self).written@ == old(self).written@ + buf@,
            final(self).wire@ == old(self).wire@ + frame@,
            final(self).rx_buffer@ == old(self).rx_buffer@,
            final(self).delivered@ == old(self).delivered@,
            final(self).fed@ == old(self).fed@,
    {
        let mut frame: Vec<u8> = Vec::new();
        if !self.init_write {
            frame.push(0);
            frame.push(0);
        }
        frame.extend_from_slice(buf.as_slice());
        proof {
            self.written@ = self.written@ + buf@;
            self.wire@ = self.wire@ + frame@;
        }
        self.init_write = true;
        proof {
            assert(frame@ =~= if old(self).init_write {
                buf@
            } else {
                seq![0u8, 0u8] + buf@
            });
            assert(self.wire@ =~= seq![0u8, 0u8] + self.written@);
        }
        frame
    }
}

/// Once anything was written, the wire holds exactly the two-byte response
/// header followed by every payload byte in order: however many writes there
/// were, the peer observes `00 00` first and then the payloads back to
/// back, unchanged.
pub proof fn law_wire_is_header_then_payload(a: &Adapter)
    requires
        a.wf(),
        a.init_write,
    ensures
        a.wire@ == seq![0u8, 0u8] + a.written@,
{
}

/// Reads pass the stream through verbatim: what was delivered to readers is
/// exactly the earliest fed bytes — early data first, then each message in
/// arrival order — and what is still buffered follows it.
pub proof fn law_reads_deliver_fed_in_order(a: &Adapter)
    requires
        a.wf(),
    ensures
        a.fed@ == a.delivered@ + a.rx_buffer@,
        a.delivered@ == a.fed@.take(a.delivered@.len() as int),
{
    assert(a.delivered@ =~= a.fed@.take(a.delivered@.len() as int));
}

} // verus!

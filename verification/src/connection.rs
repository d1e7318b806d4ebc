//! The connection layer's decision logic: reassembling a raw byte stream
//! into whole frames, discarding stale partial frames, and timing the
//! liveness heartbeat. The serial device, the channel and the reader
//! thread itself live outside the library and drive these functions.

use vstd::prelude::*;
use crate::bytes::le16_at;
use crate::crc::checksum_of;
use crate::packet::Packet;

verus! {

/// An event the reader publishes to the consumer.
pub enum ConnectionEvent {
    /// A whole frame whose checksum validated.
    Packet(Packet),
    /// A whole frame whose checksum did not validate.
    InvalidPacket(Packet),
    /// A read failed, with the failure's description.
    ReadError(String),
    /// A write failed, with the failure's description.
    WriteError(String),
    /// Bytes that sat unconsumed past the staleness window.
    BadData(Vec<u8>),
    /// The periodic liveness tick.
    Heartbeat,
}

/// Milliseconds passed since `from`, never negative.
pub open spec fn elapsed_ms(from: u64, now: u64) -> int {
    if now >= from {
        now - from
    } else {
        0
    }
}

/// A whole frame's stored checksum matches its data bytes.
pub open spec fn spec_frame_valid(frame: Seq<u8>) -> bool
    recommends
        frame.len() == 128,
{
    le16_at(frame, 126) == checksum_of(frame.subrange(0, 126))
}

/// `e` is the event a whole frame decodes to: the frame as a packet,
/// valid or invalid as its checksum says.
pub open spec fn is_frame_event(e: ConnectionEvent, frame: Seq<u8>) -> bool {
    match e {
        ConnectionEvent::Packet(p) => p.data@ == frame && spec_frame_valid(frame),
        ConnectionEvent::InvalidPacket(p) => p.data@ == frame && !spec_frame_valid(frame),
        _ => false,
    }
}

/// The reader loop's state: the resynchronization buffer and the two
/// timers that drive staleness discard and the heartbeat.
pub struct FrameReader {
    /// Bytes received but not yet consumed as whole frames.
    pub buffer: Vec<u8>,
    /// When the last successful read delivered bytes.
    pub last_read_ms: u64,
    /// When the last heartbeat was emitted.
    pub last_heartbeat_ms: u64,
    /// How long a partial frame may sit before it is discarded.
    pub staleness_ms: u64,
    /// The heartbeat interval, or `None` for no heartbeat.
    pub heartbeat_ms: Option<u64>,
}

impl FrameReader {
    /// A partial frame has sat unconsumed past the staleness window.
    pub open spec fn spec_stale(self, now_ms: u64) -> bool {
        self.buffer@.len() > 0 && elapsed_ms(self.last_read_ms, now_ms) > self.staleness_ms
    }

    /// A heartbeat is owed.
    pub open spec fn spec_heartbeat_due(self, now_ms: u64) -> bool {
        match self.heartbeat_ms {
            Some(interval) => elapsed_ms(self.last_heartbeat_ms, now_ms) >= interval,
            None => false,
        }
    }

    /// A fresh reader with an empty buffer and both timers at `now_ms`.
    pub fn new(now_ms: u64, staleness_ms: u64, heartbeat_ms: Option<u64>) -> (r: FrameReader)
        ensures
            r.buffer@.len() == 0,
            r.last_read_ms == now_ms,
            r.last_heartbeat_ms == now_ms,
            r.staleness_ms == staleness_ms,
            r.heartbeat_ms == heartbeat_ms,
    {
        FrameReader {
            buffer: Vec::new(),
            last_read_ms: now_ms,
            last_heartbeat_ms: now_ms,
            staleness_ms,
            heartbeat_ms,
        }
    }

    /// Takes the stale partial frame out of the buffer, if there is one:
    /// exactly the buffered bytes come back, once, and the buffer is empty
    /// afterwards. A fresh or empty buffer is left untouched.
    pub fn take_stale(&mut self, now_ms: u64) -> (bad: Option<Vec<u8>>)
        ensures
            old(self).spec_stale(now_ms) ==> {
                &&& bad matches Some(b) && b@ == old(self).buffer@
                &&& final(self).buffer@.len() == 0
            },
            !old(self).spec_stale(now_ms) ==> bad is None && *final(self) == *old(self),
            final(self).last_read_ms == old(self).last_read_ms,
            final(self).last_heartbeat_ms == old(self).last_heartbeat_ms,
            final(self).staleness_ms == old(self).staleness_ms,
            final(self).heartbeat_ms == old(self).heartbeat_ms,
    {
        let since_read = if now_ms >= self.last_read_ms {
            now_ms - self.last_read_ms
        } else {
            0
        };
        if self.buffer.len() > 0 && since_read > self.staleness_ms {
            let bad = self.buffer.clone();
            self.buffer.clear();
            Some(bad)
        } else {
            None
        }
    }

    /// Appends freshly read bytes and notes the read's time.
    pub fn push_bytes(&mut self, bytes: &[u8], now_ms: u64)
        ensures
            final(self).buffer@ == old(self).buffer@ + bytes@,
            final(self).last_read_ms == now_ms,
            final(self).last_heartbeat_ms == old(self).last_heartbeat_ms,
            final(self).staleness_ms == old(self).staleness_ms,
            final(self).heartbeat_ms == old(self).heartbeat_ms,
    {
        self.buffer.extend_from_slice(bytes);
        self.last_read_ms = now_ms;
    }

    /// Drains every whole frame from the front of the buffer, in arrival
    /// order: one event per frame, a `Packet` when its checksum validates
    /// and an `InvalidPacket` otherwise, and never anything else. The
    /// bytes of a last partial frame stay buffered.
    pub fn drain_frames(&mut self) -> (events: Vec<ConnectionEvent>)
        ensures
            events@.len() == old(self).buffer@.len() / 128,
            forall|k: int|
                0 <= k < events@.len() ==> is_frame_event(
                    events@[k],
                    old(self).buffer@.subrange(128 * k, 128 * k + 128),
                ),
            final(self).buffer@ == old(self).buffer@.skip(
                128 * (old(self).buffer@.len() as int / 128),
            ),
            final(self).last_read_ms == old(self).last_read_ms,
            final(self).last_heartbeat_ms == old(self).last_heartbeat_ms,
            final(self).staleness_ms == old(self).staleness_ms,
            final(self).heartbeat_ms == old(self).heartbeat_ms,
    {
        let total: usize = self.buffer.len();
        let n: usize = total / 128;
        let mut events: Vec<ConnectionEvent> = Vec::new();
        let mut k: usize = 0;
        while k < n
            invariant
                k <= n,
                n == total / 128,
                total == self.buffer@.len(),
                self.buffer@ == old(self).buffer@,
                events@.len() == k,
                forall|j: int|
                    0 <= j < k ==> is_frame_event(
                        events@[j],
                        self.buffer@.subrange(128 * j, 128 * j + 128),
                    ),
            decreases n - k,
        {
            proof {
                assert(128 * (k + 1) <= 128 * (total as int / 128));
                assert(128 * (total as int / 128) <= total);
            }
            let frame: &[u8] = &self.buffer.as_slice()[k * 128..k * 128 + 128];
            let p = Packet::from_bytes(frame);
            proof {
                assert(p.data@ =~= self.buffer@.subrange(128 * k, 128 * k + 128));
                assert(p.data@.subrange(0, 126) =~= self.buffer@.subrange(
                    128 * k,
                    128 * k + 128,
                ).subrange(0, 126));
            }
            if p.is_checksum_valid() {
                events.push(ConnectionEvent::Packet(p));
            } else {
                events.push(ConnectionEvent::InvalidPacket(p));
            }
            k += 1;
        }
        let mut rest: Vec<u8> = Vec::new();
        let mut i: usize = n * 128;
        proof {
            assert(128 * (total as int / 128) <= total);
        }
        while i < total
            invariant
                n * 128 <= i <= total,
                total == self.buffer@.len(),
                self.buffer@ == old(self).buffer@,
                rest@ == self.buffer@.subrange(n * 128, i as int),
            decreases total - i,
        {
            let b = self.buffer[i];
            rest.push(b);
            proof {
                assert(rest@ =~= self.buffer@.subrange(n * 128, i + 1));
            }
            i += 1;
        }
        self.buffer = rest;
        proof {
            assert(final(self).buffer@ =~= old(self).buffer@.skip(
                128 * (old(self).buffer@.len() as int / 128),
            ));
        }
        events
    }

    /// Notes the heartbeat owed at `now_ms`, if one is: the caller emits
    /// the tick exactly when this returns true.
    pub fn take_heartbeat(&mut self, now_ms: u64) -> (due: bool)
        ensures
            due == old(self).spec_heartbeat_due(now_ms),
            due ==> *final(self) == (FrameReader { last_heartbeat_ms: now_ms, ..*old(self) }),
            !due ==> *final(self) == *old(self),
    {
        let due = match self.heartbeat_ms {
            Some(interval) => {
                let since = if now_ms >= self.last_heartbeat_ms {
                    now_ms - self.last_heartbeat_ms
                } else {
                    0
                };
                since >= interval
            },
            None => false,
        };
        if due {
            self.last_heartbeat_ms = now_ms;
        }
        due
    }
}

} // verus!

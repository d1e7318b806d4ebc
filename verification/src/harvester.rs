//! The harvester's session state machine: when a poll is due, when silence
//! becomes a timeout, how failures are classified and deduplicated within
//! a disconnection episode, and when a sustained failure makes the
//! connection worth discarding and rebuilding. The loop that performs the
//! sends, receives and storage writes lives outside the library and only
//! carries these decisions out.

use vstd::prelude::*;
use vstd::string::StringExecFns;
use crate::connection::{elapsed_ms, ConnectionEvent};
use crate::converters::push_char;
use crate::models::{ConnectionStatus, Reading};
use crate::packet::Packet;

verus! {

/// The coarse kind of a failure, compared for deduplication: repeated
/// failures of one kind within a disconnection episode are reported once.
#[derive(Clone, Copy, PartialEq, Eq, Structural, Debug)]
pub enum FailureKind {
    /// A whole frame arrived with a bad checksum.
    InvalidPacket,
    /// A read failed, or a send could not be performed.
    ReadError,
    /// A write failed.
    WriteError,
    /// The link fell silent past the timeout interval.
    Timeout,
    /// Buffered bytes went stale before completing a frame.
    BadData,
}

/// The failure kind an event classifies as; a valid packet is none.
pub open spec fn spec_failure_kind(event: ConnectionEvent) -> Option<FailureKind> {
    match event {
        ConnectionEvent::Packet(_) => None,
        ConnectionEvent::InvalidPacket(_) => Some(FailureKind::InvalidPacket),
        ConnectionEvent::ReadError(_) => Some(FailureKind::ReadError),
        ConnectionEvent::WriteError(_) => Some(FailureKind::WriteError),
        ConnectionEvent::BadData(_) => Some(FailureKind::BadData),
        ConnectionEvent::Heartbeat => Some(FailureKind::Timeout),
    }
}

/// The characters of an optional detail string.
pub open spec fn spec_opt_chars(detail: Option<String>) -> Seq<char> {
    match detail {
        Some(s) => s@,
        None => Seq::empty(),
    }
}

/// One byte's decimal digits.
pub open spec fn spec_u8_decimal(b: u8) -> Seq<char> {
    let ones = ((b % 10 + 48) as u8) as char;
    let tens = ((b / 10 % 10 + 48) as u8) as char;
    let hundreds = ((b / 100 + 48) as u8) as char;
    if b < 10 {
        seq![ones]
    } else if b < 100 {
        seq![tens, ones]
    } else {
        seq![hundreds, tens, ones]
    }
}

/// The bytes' decimal values, joined by colons.
pub open spec fn spec_bytes_decimal(s: Seq<u8>) -> Seq<char>
    decreases s.len(),
{
    if s.len() == 0 {
        Seq::empty()
    } else if s.len() == 1 {
        spec_u8_decimal(s[0])
    } else {
        spec_bytes_decimal(s.drop_last()) + seq![':'] + spec_u8_decimal(s.last())
    }
}

/// How a frame identifies itself in a report: all of its bytes.
pub open spec fn spec_packet_chars(p: Packet) -> Seq<char> {
    "Packet<"@ + spec_bytes_decimal(p.data@) + ">"@
}

/// The human-readable reason stored for a failure. A bad frame's reason
/// carries the whole frame; stale bytes carry their payload.
pub open spec fn spec_failure_message(kind: FailureKind, detail: Seq<char>) -> Seq<char> {
    match kind {
        FailureKind::InvalidPacket => "Invalid Packet: ["@ + detail + "]"@,
        FailureKind::ReadError => "Read Error: "@ + detail,
        FailureKind::WriteError => "Write Error: "@ + detail,
        FailureKind::Timeout => "Timeout"@,
        FailureKind::BadData => "Bad Data: ["@ + detail + "]"@,
    }
}

/// The harvester's session state.
pub struct HarvesterState {
    /// The session has no confirmed link to the probe.
    pub disconnected: bool,
    /// The kind last reported for this disconnection episode.
    pub disconnect_reason: Option<FailureKind>,
    /// Consecutive failures since the last success or rebuild.
    pub error_count: i64,
    /// How often a poll frame is sent.
    pub send_interval_ms: u64,
    /// How long silence may last before it counts as a timeout.
    pub timeout_interval_ms: u64,
    /// When the last poll was sent, if one was.
    pub last_send_ms: Option<u64>,
    /// When the last valid packet arrived, if one did.
    pub last_receive_ms: Option<u64>,
}

/// A failure was observed: what the state becomes. The episode's reason
/// becomes the failure's kind; past the error threshold the counter and
/// both timers reset so the rebuilt connection is polled at once.
pub open spec fn spec_after_failure(s: HarvesterState, kind: FailureKind) -> HarvesterState {
    if s.error_count + 1 > 3 {
        HarvesterState {
            disconnected: true,
            disconnect_reason: Some(kind),
            error_count: 0,
            last_send_ms: None,
            last_receive_ms: None,
            ..s
        }
    } else {
        HarvesterState {
            disconnected: true,
            disconnect_reason: Some(kind),
            error_count: (s.error_count + 1) as i64,
            ..s
        }
    }
}

/// A valid packet was observed: the session is connected and the episode
/// bookkeeping is cleared.
pub open spec fn spec_after_success(s: HarvesterState) -> HarvesterState {
    HarvesterState { disconnected: false, disconnect_reason: None, error_count: 0, ..s }
}

/// A failure of `kind` is reported to storage exactly when the session was
/// not already disconnected for that same kind.
pub open spec fn spec_reported(s: HarvesterState, kind: FailureKind) -> bool {
    !(s.disconnected && s.disconnect_reason == Some(kind))
}

impl HarvesterState {
    /// The state's invariant: the failure counter stays within the
    /// threshold, and a connected session carries no episode bookkeeping.
    pub open spec fn wf(self) -> bool {
        &&& 0 <= self.error_count <= 3
        &&& !self.disconnected ==> self.error_count == 0 && self.disconnect_reason is None
    }

    /// The link has been silent past the timeout interval: measured from
    /// the later of the last send and the last receipt, so one missed
    /// round-trip is tolerated before failure is declared.
    pub open spec fn spec_timed_out(self, now_ms: u64) -> bool {
        match (self.last_send_ms, self.last_receive_ms) {
            (None, None) => false,
            (Some(sent), None) => elapsed_ms(sent, now_ms) > self.timeout_interval_ms,
            (None, Some(received)) => elapsed_ms(received, now_ms) > self.timeout_interval_ms,
            (Some(sent), Some(received)) => {
                let later = if sent >= received {
                    sent
                } else {
                    received
                };
                elapsed_ms(later, now_ms) > self.timeout_interval_ms
            },
        }
    }

    /// A fresh session: disconnected, with no poll sent yet.
    pub fn new(send_interval_ms: u64, timeout_interval_ms: u64) -> (s: HarvesterState)
        ensures
            s.disconnected,
            s.disconnect_reason is None,
            s.error_count == 0,
            s.send_interval_ms == send_interval_ms,
            s.timeout_interval_ms == timeout_interval_ms,
            s.last_send_ms is None,
            s.last_receive_ms is None,
            s.wf(),
    {
        HarvesterState {
            disconnected: true,
            disconnect_reason: None,
            error_count: 0,
            send_interval_ms,
            timeout_interval_ms,
            last_send_ms: None,
            last_receive_ms: None,
        }
    }

    /// A poll is due: none was ever sent, or the send interval has passed.
    pub fn poll_due(&self, now_ms: u64) -> (due: bool)
        ensures
            due == match self.last_send_ms {
                Some(sent) => elapsed_ms(sent, now_ms) >= self.send_interval_ms,
                None => true,
            },
    {
        match self.last_send_ms {
            Some(sent) => {
                let since: u64 = if now_ms >= sent {
                    now_ms - sent
                } else {
                    0
                };
                since >= self.send_interval_ms
            },
            None => true,
        }
    }

    /// Notes that a poll was sent at `now_ms`.
    pub fn note_sent(&mut self, now_ms: u64)
        ensures
            *final(self) == (HarvesterState { last_send_ms: Some(now_ms), ..*old(self) }),
    {
        self.last_send_ms = Some(now_ms);
    }

    /// Notes that a valid packet arrived at `now_ms`: both timers restart.
    pub fn note_received(&mut self, now_ms: u64)
        ensures
            *final(self) == (HarvesterState {
                last_send_ms: Some(now_ms),
                last_receive_ms: Some(now_ms),
                ..*old(self)
            }),
    {
        self.last_send_ms = Some(now_ms);
        self.last_receive_ms = Some(now_ms);
    }

    /// A heartbeat observed at `now_ms` means the link has timed out.
    pub fn heartbeat_stale(&self, now_ms: u64) -> (stale: bool)
        ensures
            stale == self.spec_timed_out(now_ms),
    {
        let reference: Option<u64> = match (self.last_send_ms, self.last_receive_ms) {
            (None, None) => None,
            (Some(sent), None) => Some(sent),
            (None, Some(received)) => Some(received),
            (Some(sent), Some(received)) => if sent >= received {
                Some(sent)
            } else {
                Some(received)
            },
        };
        match reference {
            Some(at) => {
                let since: u64 = if now_ms >= at {
                    now_ms - at
                } else {
                    0
                };
                since > self.timeout_interval_ms
            },
            None => false,
        }
    }

    /// A valid packet was received: marks the session connected, and hands
    /// back the connect row owed exactly on the first success after a
    /// disconnection.
    pub fn bt_success(&mut self, now_ms: u64) -> (status: Option<ConnectionStatus>)
        requires
            old(self).wf(),
        ensures
            final(self).wf(),
            *final(self) == spec_after_success(*old(self)),
            (status is Some) == old(self).disconnected,
            status matches Some(st) ==> {
                &&& st.id == 0
                &&& st.is_connect
                &&& !st.is_disconnect
                &&& st.info is None
                &&& st.created_at_ms == now_ms
            },
    {
        if self.disconnected {
            let mut st = ConnectionStatus::new(now_ms);
            st.is_connect = true;
            self.disconnected = false;
            self.disconnect_reason = None;
            self.error_count = 0;
            Some(st)
        } else {
            None
        }
    }

    /// A failure was observed: advances the episode bookkeeping, hands back
    /// the disconnect row owed exactly when the failure's kind is news for
    /// this episode, and says whether the connection is due to be
    /// discarded and rebuilt.
    pub fn bt_error(&mut self, kind: FailureKind, detail: Option<String>, now_ms: u64) -> (outcome:
        FailureOutcome)
        requires
            old(self).wf(),
        ensures
            final(self).wf(),
            *final(self) == spec_after_failure(*old(self), kind),
            (outcome.status is Some) == spec_reported(*old(self), kind),
            outcome.status matches Some(st) ==> {
                &&& st.id == 0
                &&& !st.is_connect
                &&& st.is_disconnect
                &&& st.created_at_ms == now_ms
                &&& st.info matches Some(msg) && msg@ == spec_failure_message(
                    kind,
                    spec_opt_chars(detail),
                )
            },
            outcome.rebuild == (old(self).error_count + 1 > 3),
    {
        let report_error: bool = !(self.disconnected && match self.disconnect_reason {
            Some(reason) => reason == kind,
            None => false,
        });

        let status: Option<ConnectionStatus> = if report_error {
            let msg = failure_message(kind, detail);
            let mut st = ConnectionStatus::new(now_ms);
            st.is_disconnect = true;
            st.info = Some(msg);
            Some(st)
        } else {
            None
        };

        self.disconnected = true;
        self.disconnect_reason = Some(kind);
        self.error_count = self.error_count + 1;

        let rebuild: bool = self.error_count > 3;
        if rebuild {
            self.error_count = 0;
            self.last_send_ms = None;
            self.last_receive_ms = None;
        }

        FailureOutcome { status, rebuild }
    }
}

/// What a failure asks of the caller: the row to persist, if one is owed,
/// and whether to discard the connection and open a fresh one.
pub struct FailureOutcome {
    pub status: Option<ConnectionStatus>,
    pub rebuild: bool,
}

/// Classifies an event; a valid packet is no failure.
pub fn failure_kind_of(event: &ConnectionEvent) -> (kind: Option<FailureKind>)
    ensures
        kind == spec_failure_kind(*event),
{
    match event {
        ConnectionEvent::Packet(_) => None,
        ConnectionEvent::InvalidPacket(_) => Some(FailureKind::InvalidPacket),
        ConnectionEvent::ReadError(_) => Some(FailureKind::ReadError),
        ConnectionEvent::WriteError(_) => Some(FailureKind::WriteError),
        ConnectionEvent::BadData(_) => Some(FailureKind::BadData),
        ConnectionEvent::Heartbeat => Some(FailureKind::Timeout),
    }
}

/// Appends one byte's decimal digits.
fn push_u8_decimal(out: &mut String, b: u8)
    ensures
        final(out)@ == old(out)@ + spec_u8_decimal(b),
{
    if b >= 100 {
        push_char(out, (b / 100 + 48) as char);
    }
    if b >= 10 {
        push_char(out, (b / 10 % 10 + 48) as char);
    }
    push_char(out, (b % 10 + 48) as char);
    proof {
        assert(final(out)@ =~= old(out)@ + spec_u8_decimal(b));
    }
}

/// Appends the bytes' decimal values, joined by colons.
fn push_bytes_decimal(out: &mut String, data: &[u8])
    ensures
        final(out)@ == old(out)@ + spec_bytes_decimal(data@),
{
    let mut i: usize = 0;
    proof {
        assert(data@.subrange(0, 0) =~= Seq::<u8>::empty());
        assert(out@ =~= old(out)@ + spec_bytes_decimal(data@.subrange(0, 0)));
    }
    while i < data.len()
        invariant
            i <= data@.len(),
            out@ == old(out)@ + spec_bytes_decimal(data@.subrange(0, i as int)),
        decreases data@.len() - i,
    {
        if i > 0 {
            push_char(out, ':');
        }
        push_u8_decimal(out, data[i]);
        proof {
            assert(data@.subrange(0, i + 1).drop_last() =~= data@.subrange(0, i as int));
            assert(data@.subrange(0, i + 1).last() == data@[i as int]);
            assert(out@ =~= old(out)@ + spec_bytes_decimal(data@.subrange(0, i + 1)));
        }
        i += 1;
    }
    proof {
        assert(data@.subrange(0, data@.len() as int) =~= data@);
    }
}

/// The detail string an event carries for its report: a transport error's
/// description, a bad frame's bytes, or a stale buffer's payload.
pub fn failure_detail_of(event: &ConnectionEvent) -> (detail: Option<String>)
    ensures
        match *event {
            ConnectionEvent::ReadError(s) => detail matches Some(d) && d@ == s@,
            ConnectionEvent::WriteError(s) => detail matches Some(d) && d@ == s@,
            ConnectionEvent::InvalidPacket(p) => detail matches Some(d) && d@ == spec_packet_chars(
                p,
            ),
            ConnectionEvent::BadData(b) => detail matches Some(d) && d@ == spec_bytes_decimal(b@),
            _ => detail is None,
        },
{
    match event {
        ConnectionEvent::ReadError(s) => Some(s.clone()),
        ConnectionEvent::WriteError(s) => Some(s.clone()),
        ConnectionEvent::InvalidPacket(p) => {
            let mut out = "Packet<".to_owned();
            push_bytes_decimal(&mut out, p.data.as_slice());
            out.append(">");
            proof {
                assert(out@ =~= spec_packet_chars(*p));
            }
            Some(out)
        },
        ConnectionEvent::BadData(b) => {
            let mut out = String::new();
            push_bytes_decimal(&mut out, b.as_slice());
            proof {
                assert(out@ =~= spec_bytes_decimal(b@));
            }
            Some(out)
        },
        _ => None,
    }
}

/// The reading a valid packet is persisted as.
pub fn reading_from_packet(packet: &Packet, now_ms: u64) -> (reading: Reading)
    ensures
        reading.id == 0,
        reading.value1 == packet.spec_sensor1_reading(),
        reading.value2 == packet.spec_sensor2_reading(),
        reading.timestamp_ms == now_ms,
{
    let mut reading = Reading::new(now_ms);
    reading.value1 = packet.get_sensor1_reading();
    reading.value2 = packet.get_sensor2_reading();
    reading
}

/// Builds the human-readable reason for a failure report.
fn failure_message(kind: FailureKind, detail: Option<String>) -> (msg: String)
    ensures
        msg@ == spec_failure_message(kind, spec_opt_chars(detail)),
{
    match kind {
        FailureKind::InvalidPacket => {
            let mut msg = "Invalid Packet: [".to_owned();
            match detail {
                Some(d) => {
                    msg.append(d.as_str());
                },
                None => {
                    proof {
                        assert(msg@ =~= "Invalid Packet: ["@ + spec_opt_chars(None));
                    }
                },
            }
            msg.append("]");
            msg
        },
        FailureKind::ReadError => {
            let mut msg = "Read Error: ".to_owned();
            match detail {
                Some(d) => {
                    msg.append(d.as_str());
                },
                None => {
                    proof {
                        assert(msg@ =~= "Read Error: "@ + spec_opt_chars(None));
                    }
                },
            }
            msg
        },
        FailureKind::WriteError => {
            let mut msg = "Write Error: ".to_owned();
            match detail {
                Some(d) => {
                    msg.append(d.as_str());
                },
                None => {
                    proof {
                        assert(msg@ =~= "Write Error: "@ + spec_opt_chars(None));
                    }
                },
            }
            msg
        },
        FailureKind::Timeout => "Timeout".to_owned(),
        FailureKind::BadData => {
            let mut msg = "Bad Data: [".to_owned();
            match detail {
                Some(d) => {
                    msg.append(d.as_str());
                },
                None => {
                    proof {
                        assert(msg@ =~= "Bad Data: ["@ + spec_opt_chars(None));
                    }
                },
            }
            msg.append("]");
            msg
        },
    }
}

/// Within one disconnection episode, a repeated failure of the episode's
/// kind is not reported again, and a failure of a changed kind is: after
/// any failure, the next report happens exactly when the kind differs.
pub proof fn lemma_failure_dedup(s: HarvesterState, k1: FailureKind, k2: FailureKind)
    ensures
        spec_reported(spec_after_failure(s, k1), k2) == (k1 != k2),
{
}

/// Exceeding the error threshold resets the failure counter and both
/// timers to "no data yet", so the rebuilt connection is polled at once.
pub proof fn lemma_rebuild_resets_timers(s: HarvesterState, kind: FailureKind)
    requires
        s.error_count == 3,
    ensures
        spec_after_failure(s, kind).error_count == 0,
        spec_after_failure(s, kind).last_send_ms is None,
        spec_after_failure(s, kind).last_receive_ms is None,
{
}

} // verus!

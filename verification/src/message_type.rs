//! The command-id byte of a frame, kept as a small bit-set so that unnamed
//! combinations read back exactly as they were stored.

use vstd::prelude::*;

verus! {

/// A command id. Only the low three bits are meaningful; `from_bits`
/// rejects anything above them.
#[derive(Clone, Copy, PartialEq, Eq, Structural, Debug)]
pub struct MessageType {
    pub bits: u8,
}

/// The idle command.
pub fn nothing() -> (m: MessageType)
    ensures
        m.bits == 0,
{
    MessageType { bits: 0 }
}

/// The poll command: ask the probe to report its current values.
pub fn retrieve_info() -> (m: MessageType)
    ensures
        m.bits == 1,
{
    MessageType { bits: 1 }
}

/// The command that writes settings to the probe.
pub fn set_info() -> (m: MessageType)
    ensures
        m.bits == 2,
{
    MessageType { bits: 2 }
}

/// The command the probe sends on a button press.
pub fn button_press() -> (m: MessageType)
    ensures
        m.bits == 3,
{
    MessageType { bits: 3 }
}

/// A command id the protocol reserves.
pub fn reserved() -> (m: MessageType)
    ensures
        m.bits == 4,
{
    MessageType { bits: 4 }
}

/// The command that shuts the probe down.
pub fn shutdown() -> (m: MessageType)
    ensures
        m.bits == 5,
{
    MessageType { bits: 5 }
}

impl MessageType {
    /// The raw command byte.
    pub fn raw_bits(&self) -> (bits: u8)
        ensures
            bits == self.bits,
    {
        self.bits
    }

    /// Accepts a byte exactly when it stays within the defined bits.
    pub fn from_bits(bits: u8) -> (m: Option<MessageType>)
        ensures
            m == if bits < 8 {
                Some(MessageType { bits })
            } else {
                None::<MessageType>
            },
    {
        proof {
            assert((bits & 0xF8) == 0 <==> bits < 8) by (bit_vector);
        }
        if bits & 0xF8 == 0 {
            Some(MessageType { bits })
        } else {
            None
        }
    }
}

} // verus!

//! The 128-byte frame exchanged with the probe, with typed access to each
//! field and the checksum over its first 126 bytes.

use vstd::prelude::*;
use vstd::string::StringSliceAdditionalSpecFns;
use crate::bytes::{
    agree_except, le16_at, le16_bytes, le32_at, le32_bytes, lemma_le16_at_of_bytes,
};
use crate::converters;
use crate::converters::{pad_bytes, spec_data_flags_at, spec_message_type_of, visible_chars};
use crate::crc::{checksum_of, compute_checksum};
use crate::data_flags;
use crate::data_flags::DataFlags;
use crate::message_type;
use crate::message_type::MessageType;

verus! {

/// One protocol frame: always exactly 128 bytes.
pub struct Packet {
    pub data: [u8; 128],
}

/// A temperature field's decoded value: the raw fixed-point word, or no
/// reading when the word lies in the top-4 sentinel range.
pub open spec fn spec_reading_of(raw: u32) -> Option<u32> {
    if raw >= 0xFFFFFFFD {
        None
    } else {
        Some(raw)
    }
}

/// The raw word a temperature value is stored as: the reading itself, or
/// the sentinel for no reading.
pub open spec fn spec_raw_reading(value: Option<u32>) -> u32 {
    match value {
        Some(raw) => raw,
        None => 0xFFFFFFFF,
    }
}

impl Packet {
    /// The decoded command-id field.
    pub open spec fn spec_command_id(self) -> MessageType {
        spec_message_type_of(self.data@[0])
    }

    /// The protocol-version byte.
    pub open spec fn spec_version(self) -> u8 {
        self.data@[1]
    }

    /// The decoded data-flags field.
    pub open spec fn spec_data_flags(self) -> DataFlags {
        spec_data_flags_at(self.data@, 2)
    }

    /// The characters of the serial-number field.
    pub open spec fn spec_serial_number(self) -> Seq<char> {
        visible_chars(self.data@.subrange(4, 14))
    }

    /// The decoded first temperature field.
    pub open spec fn spec_sensor1_reading(self) -> Option<u32> {
        spec_reading_of(le32_at(self.data@, 54))
    }

    /// The decoded second temperature field.
    pub open spec fn spec_sensor2_reading(self) -> Option<u32> {
        spec_reading_of(le32_at(self.data@, 74))
    }

    /// The battery field: thousandths of a volt.
    pub open spec fn spec_battery_millivolts(self) -> u16 {
        le16_at(self.data@, 94)
    }

    /// The stored checksum field.
    pub open spec fn spec_checksum_field(self) -> u16 {
        le16_at(self.data@, 126)
    }

    /// The checksum the data bytes call for.
    pub open spec fn spec_computed_checksum(self) -> u16 {
        checksum_of(self.data@.subrange(0, 126))
    }

    /// The stored checksum matches the data bytes.
    pub open spec fn spec_checksum_valid(self) -> bool {
        self.spec_checksum_field() == self.spec_computed_checksum()
    }

    /// A zero-initialized frame.
    pub fn new() -> (p: Packet)
        ensures
            forall|i: int| 0 <= i < 128 ==> p.data@[i] == 0,
    {
        Packet { data: [0u8; 128] }
    }

    /// A poll frame asking for the default field selection, checksummed.
    pub fn default() -> (p: Packet)
        ensures
            p.data@[0] == 1,
            p.data@[1] == 1,
            le16_at(p.data@, 2) == 1095,
            forall|i: int| 4 <= i < 126 ==> p.data@[i] == 0,
            p.spec_checksum_valid(),
    {
        let mut p = Packet::new();
        p.set_command_id(message_type::retrieve_info());
        p.set_version(1);
        p.set_data_flags(data_flags::default_flags());
        p.apply_checksum();
        p
    }

    /// A frame built from a byte stream: the first 128 bytes, zero-padded
    /// when fewer were given.
    pub fn from_bytes(bytes: &[u8]) -> (p: Packet)
        ensures
            forall|i: int|
                0 <= i < 128 ==> p.data@[i] == if i < bytes@.len() {
                    bytes@[i]
                } else {
                    0u8
                },
    {
        let mut data = [0u8; 128];
        let n: usize = if bytes.len() < 128 {
            bytes.len()
        } else {
            128
        };
        let mut x: usize = 0;
        while x < n
            invariant
                x <= n,
                n <= 128,
                n <= bytes@.len(),
                n == if bytes@.len() < 128 {
                    bytes@.len() as int
                } else {
                    128int
                },
                data@.len() == 128,
                forall|i: int| 0 <= i < x ==> data@[i] == bytes@[i],
                forall|i: int| x <= i < 128 ==> data@[i] == 0,
            decreases n - x,
        {
            data[x] = bytes[x];
            x += 1;
        }
        Packet { data }
    }

    /// A poll frame asking for the two temperatures alone, checksummed.
    pub fn temp_packet() -> (p: Packet)
        ensures
            p.data@[0] == 1,
            p.data@[1] == 1,
            le16_at(p.data@, 2) == 68,
            forall|i: int| 4 <= i < 126 ==> p.data@[i] == 0,
            p.spec_checksum_valid(),
    {
        let mut p = Packet::new();
        p.set_command_id(message_type::retrieve_info());
        p.set_version(1);
        p.set_data_flags(data_flags::temps());
        p.apply_checksum();
        p
    }

    /// The checksum the current data bytes call for.
    pub fn calculate_checksum(&self) -> (checksum: u16)
        ensures
            checksum == self.spec_computed_checksum(),
    {
        let s: &[u8] = self.data.as_slice();
        compute_checksum(&s[0..126])
    }

    /// Stores the computed checksum in the checksum field.
    pub fn apply_checksum(&mut self)
        ensures
            final(self).data@.len() == 128,
            agree_except(old(self).data@, final(self).data@, 126, 128),
            final(self).spec_checksum_valid(),
    {
        let crc = self.calculate_checksum();
        self.set_checksum(crc);
        proof {
            assert(final(self).data@.subrange(0, 126) =~= old(self).data@.subrange(0, 126));
            lemma_le16_at_of_bytes(final(self).data@, 126, crc);
        }
    }

    /// The stored checksum matches a fresh computation over the data bytes.
    pub fn is_checksum_valid(&self) -> (valid: bool)
        ensures
            valid == self.spec_checksum_valid(),
    {
        self.get_checksum() == self.calculate_checksum()
    }

    /// The decoded command-id field.
    pub fn get_command_id(&self) -> (m: MessageType)
        ensures
            m == self.spec_command_id(),
    {
        let s: &[u8] = self.data.as_slice();
        converters::message_type_out(&s[0..1])
    }

    /// Stores a command id.
    pub fn set_command_id(&mut self, value: MessageType)
        ensures
            final(self).data@ == old(self).data@.update(0, value.bits),
    {
        self.data[0] = value.raw_bits();
    }

    /// The protocol-version byte.
    pub fn get_version(&self) -> (version: u8)
        ensures
            version == self.spec_version(),
    {
        let s: &[u8] = self.data.as_slice();
        converters::noop_out(&s[1..2])
    }

    /// Stores the protocol-version byte.
    pub fn set_version(&mut self, value: u8)
        ensures
            final(self).data@ == old(self).data@.update(1, value),
    {
        self.data[1] = value;
    }

    /// The decoded data-flags field.
    pub fn get_data_flags(&self) -> (flags: DataFlags)
        ensures
            flags == self.spec_data_flags(),
    {
        let s: &[u8] = self.data.as_slice();
        converters::data_flags_out(&s[2..4])
    }

    /// Stores a flag set.
    pub fn set_data_flags(&mut self, value: DataFlags)
        ensures
            final(self).data@.len() == 128,
            final(self).data@.subrange(2, 4) == le16_bytes(value.bits),
            agree_except(old(self).data@, final(self).data@, 2, 4),
            final(self).spec_data_flags() == value,
    {
        let mut window: Vec<u8> = vec![0u8; 2];
        converters::data_flags_in(value, window.as_mut_slice());
        self.write_window(2, window.as_slice());
        proof {
            assert(final(self).data@.subrange(2, 4) =~= le16_bytes(value.bits));
            lemma_le16_at_of_bytes(final(self).data@, 2, value.bits);
        }
    }

    /// The serial-number field's visible characters.
    pub fn get_serial_number(&self) -> (serial: String)
        ensures
            serial@ == self.spec_serial_number(),
    {
        let s: &[u8] = self.data.as_slice();
        converters::string_out(&s[4..14])
    }

    /// Stores a serial number: its bytes truncated to ten, NUL-padded.
    pub fn set_serial_number(&mut self, value: &str)
        ensures
            final(self).data@.len() == 128,
            final(self).data@.subrange(4, 14) == pad_bytes(value.spec_bytes(), 10),
            agree_except(old(self).data@, final(self).data@, 4, 14),
    {
        let mut window: Vec<u8> = vec![0u8; 10];
        converters::string_in(value, window.as_mut_slice());
        self.write_window(4, window.as_slice());
        proof {
            assert(final(self).data@.subrange(4, 14) =~= pad_bytes(value.spec_bytes(), 10));
        }
    }

    /// The decoded first temperature field: the raw fixed-point word, or
    /// `None` for the no-reading sentinel.
    pub fn get_sensor1_reading(&self) -> (reading: Option<u32>)
        ensures
            reading == self.spec_sensor1_reading(),
    {
        self.read_sensor(54)
    }

    /// Stores a first-temperature value.
    pub fn set_sensor1_reading(&mut self, value: Option<u32>)
        requires
            match value {
                Some(raw) => raw < 0xFFFFFFFD,
                None => true,
            },
        ensures
            final(self).data@.len() == 128,
            final(self).data@.subrange(54, 58) == le32_bytes(spec_raw_reading(value)),
            agree_except(old(self).data@, final(self).data@, 54, 58),
            final(self).spec_sensor1_reading() == value,
    {
        self.write_sensor(54, value);
        proof {
            crate::bytes::lemma_le32_at_of_bytes(final(self).data@, 54, spec_raw_reading(value));
        }
    }

    /// The decoded second temperature field.
    pub fn get_sensor2_reading(&self) -> (reading: Option<u32>)
        ensures
            reading == self.spec_sensor2_reading(),
    {
        self.read_sensor(74)
    }

    /// Stores a second-temperature value.
    pub fn set_sensor2_reading(&mut self, value: Option<u32>)
        requires
            match value {
                Some(raw) => raw < 0xFFFFFFFD,
                None => true,
            },
        ensures
            final(self).data@.len() == 128,
            final(self).data@.subrange(74, 78) == le32_bytes(spec_raw_reading(value)),
            agree_except(old(self).data@, final(self).data@, 74, 78),
            final(self).spec_sensor2_reading() == value,
    {
        self.write_sensor(74, value);
        proof {
            crate::bytes::lemma_le32_at_of_bytes(final(self).data@, 74, spec_raw_reading(value));
        }
    }

    /// The battery field, in thousandths of a volt.
    pub fn get_battery_volts(&self) -> (millivolts: u16)
        ensures
            millivolts == self.spec_battery_millivolts(),
    {
        let s: &[u8] = self.data.as_slice();
        converters::word_out(&s[94..96])
    }

    /// Stores a battery value, in thousandths of a volt.
    pub fn set_battery_volts(&mut self, value: u16)
        ensures
            final(self).data@.len() == 128,
            final(self).data@.subrange(94, 96) == le16_bytes(value),
            agree_except(old(self).data@, final(self).data@, 94, 96),
            final(self).spec_battery_millivolts() == value,
    {
        let mut window: Vec<u8> = vec![0u8; 2];
        converters::word_in(value, window.as_mut_slice());
        self.write_window(94, window.as_slice());
        proof {
            assert(final(self).data@.subrange(94, 96) =~= le16_bytes(value));
            lemma_le16_at_of_bytes(final(self).data@, 94, value);
        }
    }

    /// The stored checksum field.
    pub fn get_checksum(&self) -> (checksum: u16)
        ensures
            checksum == self.spec_checksum_field(),
    {
        let s: &[u8] = self.data.as_slice();
        converters::word_out(&s[126..128])
    }

    /// Stores a checksum word.
    pub fn set_checksum(&mut self, value: u16)
        ensures
            final(self).data@.len() == 128,
            final(self).data@.subrange(126, 128) == le16_bytes(value),
            agree_except(old(self).data@, final(self).data@, 126, 128),
            final(self).spec_checksum_field() == value,
    {
        let mut window: Vec<u8> = vec![0u8; 2];
        converters::word_in(value, window.as_mut_slice());
        self.write_window(126, window.as_slice());
        proof {
            assert(final(self).data@.subrange(126, 128) =~= le16_bytes(value));
            lemma_le16_at_of_bytes(final(self).data@, 126, value);
        }
    }

    /// Reads one temperature field.
    fn read_sensor(&self, start: usize) -> (reading: Option<u32>)
        requires
            start + 4 <= 128,
        ensures
            reading == spec_reading_of(le32_at(self.data@, start as int)),
    {
        let s: &[u8] = self.data.as_slice();
        let raw = converters::dword_out(&s[start..start + 4]);
        proof {
            assert(le32_at(self.data@.subrange(start as int, start as int + 4), 0) == le32_at(
                self.data@,
                start as int,
            ));
        }
        if raw >= 0xFFFFFFFD {
            None
        } else {
            Some(raw)
        }
    }

    /// Writes one temperature field.
    fn write_sensor(&mut self, start: usize, value: Option<u32>)
        requires
            start + 4 <= 128,
        ensures
            final(self).data@.len() == 128,
            final(self).data@.subrange(start as int, start as int + 4) == le32_bytes(
                spec_raw_reading(value),
            ),
            agree_except(old(self).data@, final(self).data@, start as int, start as int + 4),
    {
        let raw: u32 = match value {
            Some(raw) => raw,
            None => 0xFFFFFFFF,
        };
        let mut window: Vec<u8> = vec![0u8; 4];
        converters::dword_in(raw, window.as_mut_slice());
        self.write_window(start, window.as_slice());
        proof {
            assert(final(self).data@.subrange(start as int, start as int + 4) =~= le32_bytes(
                spec_raw_reading(value),
            ));
        }
    }

    /// Copies an encoded field into the frame at `start`, leaving every
    /// other byte as it was.
    fn write_window(&mut self, start: usize, window: &[u8])
        requires
            start + window@.len() <= 128,
        ensures
            final(self).data@.len() == 128,
            final(self).data@.subrange(start as int, start + window@.len()) =~= window@,
            agree_except(
                old(self).data@,
                final(self).data@,
                start as int,
                start + window@.len(),
            ),
    {
        let mut i: usize = 0;
        while i < window.len()
            invariant
                i <= window@.len(),
                start + window@.len() <= 128,
                self.data@.len() == 128,
                forall|j: int| start <= j < start + i ==> self.data@[j] == window@[j - start],
                forall|j: int|
                    0 <= j < 128 && !(start <= j < start + window@.len()) ==> self.data@[j]
                        == old(self).data@[j],
            decreases window@.len() - i,
        {
            self.data[start + i] = window[i];
            i += 1;
        }
    }
}

/// The command-id round trip: every defined command id decodes back from
/// its stored byte.
pub proof fn lemma_command_id_round_trip(m: MessageType)
    requires
        m.bits < 8,
    ensures
        spec_message_type_of(m.bits) == m,
{
}

/// The data-flags round trip: every flag word decodes back from its two
/// stored bytes.
pub proof fn lemma_data_flags_round_trip(f: DataFlags)
    ensures
        spec_data_flags_at(le16_bytes(f.bits), 0) == f,
{
    crate::bytes::lemma_le16_round_trip(f.bits);
}

/// The temperature round trip: every reading below the sentinel range, and
/// the no-reading value itself, decodes back from its stored word.
pub proof fn lemma_reading_round_trip(value: Option<u32>)
    requires
        match value {
            Some(raw) => raw < 0xFFFFFFFD,
            None => true,
        },
    ensures
        spec_reading_of(le32_at(le32_bytes(spec_raw_reading(value)), 0)) == value,
{
    crate::bytes::lemma_le32_round_trip(spec_raw_reading(value));
}

/// The word-field round trip, shared by the battery and checksum fields:
/// every 16-bit value decodes back from its two stored bytes.
pub proof fn lemma_word_field_round_trip(v: u16)
    ensures
        le16_at(le16_bytes(v), 0) == v,
{
    crate::bytes::lemma_le16_round_trip(v);
}

/// The checksum detects every single-byte corruption of the range it
/// covers: a frame that differs from a checksummed frame in exactly one
/// byte below the checksum field never validates.
pub proof fn lemma_checksum_detects_single_byte_corruption(p: Packet, q: Packet, i: int)
    requires
        p.spec_checksum_valid(),
        0 <= i < 126,
        p.data@[i] != q.data@[i],
        forall|j: int| 0 <= j < 128 && j != i ==> p.data@[j] == q.data@[j],
    ensures
        !q.spec_checksum_valid(),
{
    let s1 = p.data@.subrange(0, 126);
    let s2 = q.data@.subrange(0, 126);
    assert(forall|j: int| 0 <= j < 126 && j != i ==> #[trigger] s1[j] == s2[j]);
    crate::crc::lemma_checksum_detects_byte_change(s1, s2, i);
    assert(q.spec_checksum_field() == p.spec_checksum_field());
}

} // verus!

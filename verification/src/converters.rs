//! Field converters: each reads or writes one field's bytes at the start of
//! the slice it is handed, and never touches anything outside that range.

use vstd::prelude::*;
use vstd::string::StringSliceAdditionalSpecFns;
use crate::bytes::{le16_at, le16_bytes, le32_at, le32_bytes};
use crate::data_flags::DataFlags;
use crate::message_type::MessageType;

verus! {

/// The characters a NUL-padded field reads back: every byte in order,
/// skipping the padding.
pub open spec fn visible_chars(s: Seq<u8>) -> Seq<char>
    decreases s.len(),
{
    if s.len() == 0 {
        Seq::empty()
    } else if s[0] == 0 {
        visible_chars(s.drop_first())
    } else {
        seq![s[0] as char] + visible_chars(s.drop_first())
    }
}

/// `bytes` laid into a field of `width` bytes: truncated or NUL-padded.
pub open spec fn pad_bytes(bytes: Seq<u8>, width: nat) -> Seq<u8> {
    Seq::new(width, |i: int| if i < bytes.len() { bytes[i] } else { 0u8 })
}

/// Appending a byte extends the visible characters by that byte's
/// character, unless the byte is padding.
pub proof fn lemma_visible_chars_push(s: Seq<u8>, b: u8)
    ensures
        visible_chars(s.push(b)) == if b == 0 {
            visible_chars(s)
        } else {
            visible_chars(s).push(b as char)
        },
    decreases s.len(),
{
    if s.len() == 0 {
        assert(s.push(b).drop_first() =~= Seq::<u8>::empty());
        if b != 0 {
            assert(seq![b as char] + visible_chars(Seq::<u8>::empty()) =~= visible_chars(
                s,
            ).push(b as char));
        }
    } else {
        assert(s.push(b).drop_first() =~= s.drop_first().push(b));
        lemma_visible_chars_push(s.drop_first(), b);
        if b != 0 {
            assert(seq![s[0] as char] + visible_chars(s.drop_first()).push(b as char)
                =~= (seq![s[0] as char] + visible_chars(s.drop_first())).push(b as char));
        }
    }
}

/// A field of padding alone reads back as no characters.
pub proof fn lemma_visible_chars_all_zero(s: Seq<u8>)
    requires
        forall|i: int| 0 <= i < s.len() ==> s[i] == 0,
    ensures
        visible_chars(s) == Seq::<char>::empty(),
    decreases s.len(),
{
    if s.len() > 0 {
        lemma_visible_chars_all_zero(s.drop_first());
    }
}

/// Visible bytes in front pass through unchanged: the characters of a
/// padding-free prefix, then whatever the rest reads back as.
pub proof fn lemma_visible_chars_concat_nonzero(s: Seq<u8>, t: Seq<u8>)
    requires
        forall|i: int| 0 <= i < s.len() ==> s[i] != 0,
    ensures
        visible_chars(s + t) == s.map(|i: int, b: u8| b as char) + visible_chars(t),
    decreases s.len(),
{
    let chars = |i: int, b: u8| b as char;
    if s.len() == 0 {
        assert(s + t =~= t);
        assert(s.map(chars) + visible_chars(t) =~= visible_chars(t));
    } else {
        assert((s + t)[0] == s[0]);
        assert((s + t).drop_first() =~= s.drop_first() + t);
        lemma_visible_chars_concat_nonzero(s.drop_first(), t);
        assert(seq![s[0] as char] + (s.drop_first().map(chars) + visible_chars(t)) =~= s.map(chars)
            + visible_chars(t));
    }
}

/// The serial-number round trip: a value of at most the field's width,
/// with no padding byte of its own, reads back exactly as it was stored.
pub proof fn lemma_serial_round_trip(bytes: Seq<u8>, width: nat)
    requires
        bytes.len() <= width,
        forall|i: int| 0 <= i < bytes.len() ==> bytes[i] != 0,
    ensures
        visible_chars(pad_bytes(bytes, width)) == bytes.map(|i: int, b: u8| b as char),
{
    let padding = Seq::new((width - bytes.len()) as nat, |i: int| 0u8);
    assert(pad_bytes(bytes, width) =~= bytes + padding);
    lemma_visible_chars_concat_nonzero(bytes, padding);
    lemma_visible_chars_all_zero(padding);
}

/// Relies on `String::push`: appends exactly one character.
#[verifier::external_body]
pub(crate) fn push_char(s: &mut String, c: char)
    ensures
        final(s)@ == old(s)@.push(c),
{
    s.push(c);
}

/// Reads a one-byte field.
pub fn noop_out(data: &[u8]) -> (value: u8)
    requires
        data@.len() >= 1,
    ensures
        value == data@[0],
{
    data[0]
}

/// Writes a one-byte field.
pub fn noop_in(value: u8, buffer: &mut [u8])
    requires
        old(buffer)@.len() >= 1,
    ensures
        final(buffer)@ == old(buffer)@.update(0, value),
{
    buffer[0] = value;
}

/// Reads a little-endian 16-bit field.
pub fn word_out(data: &[u8]) -> (value: u16)
    requires
        data@.len() >= 2,
    ensures
        value == le16_at(data@, 0),
{
    let mut value: u16 = data[0] as u16;
    proof {
        let b1 = data@[1];
        assert((b1 as u16) << 8 == b1 * 0x100) by (bit_vector);
    }
    value += (data[1] as u16) << 8;
    value
}

/// Writes a little-endian 16-bit field.
pub fn word_in(value: u16, buffer: &mut [u8])
    requires
        old(buffer)@.len() >= 2,
    ensures
        final(buffer)@.len() == old(buffer)@.len(),
        final(buffer)@.subrange(0, 2) == le16_bytes(value),
        forall|i: int| 2 <= i < old(buffer)@.len() ==> final(buffer)@[i] == old(buffer)@[i],
{
    proof {
        assert((value & 0xFF) == value % 0x100) by (bit_vector);
        assert(((value >> 8) & 0xFF) == value / 0x100) by (bit_vector);
    }
    buffer[0] = (value & 0xFF) as u8;
    buffer[1] = ((value >> 8) & 0xFF) as u8;
    proof {
        assert(final(buffer)@.subrange(0, 2) =~= le16_bytes(value));
    }
}

/// Reads a little-endian 32-bit field.
pub fn dword_out(data: &[u8]) -> (value: u32)
    requires
        data@.len() >= 4,
    ensures
        value == le32_at(data@, 0),
{
    let mut value: u32 = data[0] as u32;
    proof {
        let b1 = data@[1];
        let b2 = data@[2];
        let b3 = data@[3];
        assert((b1 as u32) << 8 == b1 * 0x100) by (bit_vector);
        assert((b2 as u32) << 16 == b2 * 0x10000) by (bit_vector);
        assert((b3 as u32) << 24 == b3 * 0x1000000) by (bit_vector);
    }
    value += (data[1] as u32) << 8;
    value += (data[2] as u32) << 16;
    value += (data[3] as u32) << 24;
    value
}

/// Writes a little-endian 32-bit field.
pub fn dword_in(value: u32, buffer: &mut [u8])
    requires
        old(buffer)@.len() >= 4,
    ensures
        final(buffer)@.len() == old(buffer)@.len(),
        final(buffer)@.subrange(0, 4) == le32_bytes(value),
        forall|i: int| 4 <= i < old(buffer)@.len() ==> final(buffer)@[i] == old(buffer)@[i],
{
    proof {
        assert((value & 0xFF) == value % 0x100) by (bit_vector);
        assert(((value >> 8) & 0xFF) == (value / 0x100) % 0x100) by (bit_vector);
        assert(((value >> 16) & 0xFF) == (value / 0x10000) % 0x100) by (bit_vector);
        assert(((value >> 24) & 0xFF) == (value / 0x1000000) % 0x100) by (bit_vector);
    }
    buffer[0] = (value & 0xFF) as u8;
    buffer[1] = ((value >> 8) & 0xFF) as u8;
    buffer[2] = ((value >> 16) & 0xFF) as u8;
    buffer[3] = ((value >> 24) & 0xFF) as u8;
    proof {
        assert(final(buffer)@.subrange(0, 4) =~= le32_bytes(value));
    }
}

/// Reads a NUL-padded text field as the characters of its visible bytes.
pub fn string_out(data: &[u8]) -> (value: String)
    ensures
        value@ == visible_chars(data@),
{
    let mut value = String::new();
    let mut x: usize = 0;
    proof {
        assert(data@.subrange(0, 0) =~= Seq::<u8>::empty());
    }
    while x < data.len()
        invariant
            x <= data@.len(),
            value@ == visible_chars(data@.subrange(0, x as int)),
        decreases data@.len() - x,
    {
        proof {
            assert(data@.subrange(0, x as int).push(data@[x as int]) =~= data@.subrange(
                0,
                x as int + 1,
            ));
            lemma_visible_chars_push(data@.subrange(0, x as int), data@[x as int]);
        }
        if data[x] != 0 {
            push_char(&mut value, data[x] as char);
        }
        x += 1;
    }
    proof {
        assert(data@.subrange(0, data@.len() as int) =~= data@);
    }
    value
}

/// Writes a text field: the string's bytes, truncated to the field or
/// NUL-padded to its end.
pub fn string_in(value: &str, buffer: &mut [u8])
    ensures
        final(buffer)@ == pad_bytes(value.spec_bytes(), old(buffer)@.len()),
{
    let bytes = value.as_bytes();
    let mut x: usize = 0;
    while x < buffer.len()
        invariant
            x <= buffer@.len(),
            buffer@.len() == old(buffer)@.len(),
            forall|i: int|
                0 <= i < x ==> buffer@[i] == pad_bytes(value.spec_bytes(), old(buffer)@.len())[i],
            bytes@ == value.spec_bytes(),
        decreases buffer@.len() - x,
    {
        if x < bytes.len() {
            buffer[x] = bytes[x];
        } else {
            buffer[x] = 0;
        }
        x += 1;
    }
    proof {
        assert(final(buffer)@ =~= pad_bytes(value.spec_bytes(), old(buffer)@.len()));
    }
}

/// The flag set a two-byte field decodes to.
pub open spec fn spec_data_flags_at(s: Seq<u8>, off: int) -> DataFlags {
    DataFlags { bits: le16_at(s, off) }
}

/// Reads the data-flags field.
pub fn data_flags_out(data: &[u8]) -> (flags: DataFlags)
    requires
        data@.len() >= 2,
    ensures
        flags == spec_data_flags_at(data@, 0),
{
    let word = word_out(data);
    match DataFlags::from_bits(word) {
        Some(flags) => flags,
        None => crate::data_flags::none(),
    }
}

/// Writes the data-flags field.
pub fn data_flags_in(value: DataFlags, buffer: &mut [u8])
    requires
        old(buffer)@.len() >= 2,
    ensures
        final(buffer)@.len() == old(buffer)@.len(),
        final(buffer)@.subrange(0, 2) == le16_bytes(value.bits),
        forall|i: int| 2 <= i < old(buffer)@.len() ==> final(buffer)@[i] == old(buffer)@[i],
{
    word_in(value.raw_bits(), buffer);
}

/// The command id a one-byte field decodes to: the byte itself when it
/// names defined bits, the idle command otherwise.
pub open spec fn spec_message_type_of(b: u8) -> MessageType {
    if b < 8 {
        MessageType { bits: b }
    } else {
        MessageType { bits: 0 }
    }
}

/// Reads the command-id field.
pub fn message_type_out(data: &[u8]) -> (m: MessageType)
    requires
        data@.len() >= 1,
    ensures
        m == spec_message_type_of(data@[0]),
{
    let byte = data[0];
    match MessageType::from_bits(byte) {
        Some(m_type) => m_type,
        None => crate::message_type::nothing(),
    }
}

/// Writes the command-id field.
pub fn message_type_in(value: MessageType, buffer: &mut [u8])
    requires
        old(buffer)@.len() >= 1,
    ensures
        final(buffer)@ == old(buffer)@.update(0, value.bits),
{
    buffer[0] = value.raw_bits();
}

} // verus!

//! The frame checksum: a bit-reflected CRC-16 with polynomial `0xA001`,
//! complemented after all data bytes have been consumed.

use vstd::prelude::*;

verus! {

/// One shift round: fold the low bit of `crc ^ word` into the register,
/// shift, and apply the polynomial when the folded bit was set. `n` rounds
/// remain.
pub open spec fn crc16_shift(crc: u16, word: u16, n: nat) -> u16
    decreases n,
{
    if n == 0 {
        crc
    } else {
        let low = (crc ^ word) & 1;
        let shifted = crc >> 1;
        let next = if low != 0 {
            shifted ^ 0xA001
        } else {
            shifted
        };
        crc16_shift(next, word >> 1, (n - 1) as nat)
    }
}

/// The register after consuming one more data byte.
pub open spec fn crc16_update(crc: u16, byte: u8) -> u16 {
    crc16_shift(crc, byte as u16, 8)
}

/// The register after consuming every byte of `s` in order.
pub open spec fn crc16_over(crc: u16, s: Seq<u8>) -> u16
    decreases s.len(),
{
    if s.len() == 0 {
        crc
    } else {
        crc16_over(crc16_update(crc, s[0]), s.drop_first())
    }
}

/// The stored checksum: the complemented register over the data bytes.
pub open spec fn checksum_of(s: Seq<u8>) -> u16 {
    !crc16_over(0u16, s)
}

/// Two different data bytes folded into the same register leave
/// different registers.
proof fn lemma_crc16_update_byte_injective(crc: u16, b1: u8, b2: u8)
    by (bit_vector)
    requires
        b1 != b2,
    ensures
        crc16_update(crc, b1) != crc16_update(crc, b2),
{
}

/// One data byte folded into two different registers leaves different
/// registers.
proof fn lemma_crc16_update_crc_injective(c1: u16, c2: u16, b: u8)
    by (bit_vector)
    requires
        c1 != c2,
    ensures
        crc16_update(c1, b) != crc16_update(c2, b),
{
}

/// A register difference survives folding any further bytes.
proof fn lemma_crc16_over_crc_injective(c1: u16, c2: u16, s: Seq<u8>)
    requires
        c1 != c2,
    ensures
        crc16_over(c1, s) != crc16_over(c2, s),
    decreases s.len(),
{
    if s.len() > 0 {
        lemma_crc16_update_crc_injective(c1, c2, s[0]);
        lemma_crc16_over_crc_injective(
            crc16_update(c1, s[0]),
            crc16_update(c2, s[0]),
            s.drop_first(),
        );
    }
}

/// Changing exactly one byte changes the final register.
proof fn lemma_crc16_over_byte_change(c: u16, s1: Seq<u8>, s2: Seq<u8>, i: int)
    requires
        s1.len() == s2.len(),
        0 <= i < s1.len(),
        s1[i] != s2[i],
        forall|j: int| 0 <= j < s1.len() && j != i ==> s1[j] == s2[j],
    ensures
        crc16_over(c, s1) != crc16_over(c, s2),
    decreases s1.len(),
{
    if i == 0 {
        lemma_crc16_update_byte_injective(c, s1[0], s2[0]);
        assert(s1.drop_first() =~= s2.drop_first());
        lemma_crc16_over_crc_injective(
            crc16_update(c, s1[0]),
            crc16_update(c, s2[0]),
            s1.drop_first(),
        );
    } else {
        assert(s1[0] == s2[0]);
        assert(s1.drop_first()[i - 1] != s2.drop_first()[i - 1]);
        assert(forall|j: int|
            0 <= j < s1.drop_first().len() && j != i - 1 ==> s1.drop_first()[j]
                == s2.drop_first()[j]);
        lemma_crc16_over_byte_change(crc16_update(c, s1[0]), s1.drop_first(), s2.drop_first(), i - 1);
    }
}

/// The checksum detects every single-byte corruption of the bytes it
/// covers: two byte runs that differ in exactly one place never share a
/// checksum.
pub proof fn lemma_checksum_detects_byte_change(s1: Seq<u8>, s2: Seq<u8>, i: int)
    requires
        s1.len() == s2.len(),
        0 <= i < s1.len(),
        s1[i] != s2[i],
        forall|j: int| 0 <= j < s1.len() && j != i ==> s1[j] == s2[j],
    ensures
        checksum_of(s1) != checksum_of(s2),
{
    lemma_crc16_over_byte_change(0u16, s1, s2, i);
    let x = crc16_over(0u16, s1);
    let y = crc16_over(0u16, s2);
    assert(x != y ==> !x != !y) by (bit_vector);
}

/// Folds one data byte into the running CRC register.
pub fn calculate_crc(p: u8, crc: &mut u16)
    ensures
        *final(crc) == crc16_update(*old(crc), p),
{
    let ghost crc0: u16 = *crc;
    let mut temp_crc: u16 = *crc;
    let mut word: u16 = p as u16;
    let mut i: usize = 0;
    while i < 8
        invariant
            i <= 8,
            crc16_shift(temp_crc, word, (8 - i) as nat) == crc16_update(crc0, p),
        decreases 8 - i,
    {
        let crcin: u16 = (temp_crc ^ word) & 1;
        let shifted: u16 = temp_crc >> 1;
        let next: u16 = if crcin != 0 {
            shifted ^ 0xA001
        } else {
            shifted
        };
        proof {
            assert(crc16_shift(temp_crc, word, (8 - i) as nat) == crc16_shift(
                next,
                word >> 1,
                (8 - (i + 1)) as nat,
            ));
        }
        temp_crc = next;
        word = word >> 1;
        i = i + 1;
    }
    *crc = temp_crc;
}

/// Computes the checksum over `data`: the CRC-16 register folded over every
/// byte, then complemented.
pub fn compute_checksum(data: &[u8]) -> (checksum: u16)
    ensures
        checksum == checksum_of(data@),
{
    let mut crc: u16 = 0;
    let mut i: usize = 0;
    proof {
        assert(data@.skip(0) =~= data@);
    }
    while i < data.len()
        invariant
            i <= data@.len(),
            crc16_over(crc, data@.skip(i as int)) == crc16_over(0u16, data@),
        decreases data@.len() - i,
    {
        proof {
            assert(data@.skip(i as int)[0] == data@[i as int]);
            assert(data@.skip(i as int).drop_first() =~= data@.skip(i as int + 1));
        }
        calculate_crc(data[i], &mut crc);
        i = i + 1;
    }
    proof {
        assert(data@.skip(data@.len() as int) =~= Seq::<u8>::empty());
    }
    !crc
}

} // verus!

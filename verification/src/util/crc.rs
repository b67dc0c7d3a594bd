//! The CRC16 that closes every RTU frame.
//!
//! The register starts at `0xFFFF`. Each byte is folded into its low half and
//! the register is then shifted right eight times, the reflected polynomial
//! `0xA001` being folded in whenever a set bit falls out. Nothing is folded in
//! at the end.

use vstd::prelude::*;

verus! {

/// One right shift of the register.
pub open spec fn shift(reg: u16) -> u16 {
    if reg & 1 == 1 {
        (reg >> 1) ^ 0xA001
    } else {
        reg >> 1
    }
}

/// `n` right shifts of the register.
pub open spec fn shift_n(reg: u16, n: nat) -> u16
    decreases n,
{
    if n == 0 {
        reg
    } else {
        shift(shift_n(reg, (n - 1) as nat))
    }
}

/// The register after one more byte.
pub open spec fn update(reg: u16, byte: u8) -> u16 {
    shift_n(reg ^ (byte as u16), 8)
}

/// The CRC16 of a byte sequence.
pub open spec fn checksum(bytes: Seq<u8>) -> u16
    decreases bytes.len(),
{
    if bytes.len() == 0 {
        0xFFFF
    } else {
        update(checksum(bytes.drop_last()), bytes.last())
    }
}

/// The two bytes that carry a CRC on the wire, low byte first.
pub open spec fn trailer(crc: u16) -> Seq<u8> {
    seq![(crc % 256) as u8, (crc / 256) as u8]
}

/// The CRC that two trailing bytes carry.
pub open spec fn from_trailer(low: u8, high: u8) -> u16 {
    (high as u16 * 256 + low as u16) as u16
}

proof fn lemma_shift_injective(a: u16, b: u16)
    ensures
        shift(a) == shift(b) ==> a == b,
{
    assert(shift(a) == shift(b) ==> a == b) by (bit_vector);
}

proof fn lemma_shift_n_injective(a: u16, b: u16, n: nat)
    ensures
        shift_n(a, n) == shift_n(b, n) ==> a == b,
    decreases n,
{
    if n > 0 {
        lemma_shift_injective(shift_n(a, (n - 1) as nat), shift_n(b, (n - 1) as nat));
        lemma_shift_n_injective(a, b, (n - 1) as nat);
    }
}

/// A byte takes different registers to different registers, and different
/// bytes take one register to different registers.
pub proof fn lemma_update_injective(reg_a: u16, byte_a: u8, reg_b: u16, byte_b: u8)
    ensures
        byte_a == byte_b && update(reg_a, byte_a) == update(reg_b, byte_b) ==> reg_a == reg_b,
        reg_a == reg_b && update(reg_a, byte_a) == update(reg_b, byte_b) ==> byte_a == byte_b,
{
    lemma_shift_n_injective(reg_a ^ (byte_a as u16), reg_b ^ (byte_b as u16), 8);
    assert(byte_a == byte_b && reg_a ^ (byte_a as u16) == reg_b ^ (byte_b as u16) ==> reg_a
        == reg_b) by (bit_vector);
    assert(reg_a == reg_b && reg_a ^ (byte_a as u16) == reg_b ^ (byte_b as u16) ==> byte_a
        == byte_b) by (bit_vector);
}

/// The CRC16 tells apart any two byte sequences of one length that differ in
/// exactly one place.
pub proof fn lemma_single_byte_error_detected(good: Seq<u8>, bad: Seq<u8>, at: int)
    requires
        good.len() == bad.len(),
        0 <= at < good.len(),
        good[at] != bad[at],
        forall|i: int| 0 <= i < good.len() && i != at ==> good[i] == bad[i],
    ensures
        checksum(good) != checksum(bad),
    decreases good.len(),
{
    let last = good.len() - 1;
    if at == last {
        assert(good.drop_last() =~= bad.drop_last());
    } else {
        lemma_single_byte_error_detected(good.drop_last(), bad.drop_last(), at);
    }
    lemma_update_injective(
        checksum(good.drop_last()),
        good.last(),
        checksum(bad.drop_last()),
        bad.last(),
    );
}

/// The two trailing bytes carry the CRC whole.
pub proof fn lemma_trailer_carries_crc(crc: u16)
    ensures
        trailer(crc).len() == 2,
        from_trailer(trailer(crc)[0], trailer(crc)[1]) == crc,
{
}

/// Two trailing bytes are the trailer of the CRC that they carry.
pub proof fn lemma_trailer_of_carried(low: u8, high: u8)
    ensures
        trailer(from_trailer(low, high)) =~= seq![low, high],
{
}

fn feed(reg: u16, byte: u8) -> (out: u16)
    ensures
        out == update(reg, byte),
{
    let mut out: u16 = reg ^ (byte as u16);
    let mut done: u8 = 0;
    while done < 8
        invariant
            done <= 8,
            out == shift_n(reg ^ (byte as u16), done as nat),
        decreases 8 - done,
    {
        out = if out & 1 == 1 {
            (out >> 1) ^ 0xA001
        } else {
            out >> 1
        };
        done = done + 1;
    }
    out
}

/// Computes the CRC16 of `bytes`.
pub fn compute(bytes: &[u8]) -> (crc: u16)
    ensures
        crc == checksum(bytes@),
{
    let mut reg: u16 = 0xFFFF;
    let mut at: usize = 0;
    while at < bytes.len()
        invariant
            at <= bytes.len(),
            reg == checksum(bytes@.take(at as int)),
        decreases bytes.len() - at,
    {
        reg = feed(reg, bytes[at]);
        proof {
            assert(bytes@.take(at + 1).drop_last() == bytes@.take(at as int));
        }
        at = at + 1;
    }
    proof {
        assert(bytes@.take(bytes.len() as int) == bytes@);
    }
    reg
}

/// Tells whether `candidate` is the CRC16 of `bytes`.
pub fn check(bytes: &[u8], candidate: u16) -> (ok: bool)
    ensures
        ok == (checksum(bytes@) == candidate),
{
    compute(bytes) == candidate
}

} // verus!

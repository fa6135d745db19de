//! CRC-8 checksum used by the HTU21D / Si7021 family of sensors.

use vstd::prelude::*;

verus! {

/// Generator polynomial x^8 + x^5 + x^4 + 1, without its leading term.
pub const POLYNOMIAL: u8 = 0x31;

/// One bit step of the register: shift left, folding in the polynomial when the
/// top bit falls out.
pub open spec fn crc_shift(crc: u8) -> u8 {
    if crc & 0x80 != 0 {
        ((crc << 1u8) as u8) ^ POLYNOMIAL
    } else {
        (crc << 1u8) as u8
    }
}

/// `n` bit steps of the register.
pub open spec fn crc_shifts(crc: u8, n: nat) -> u8
    decreases n,
{
    if n == 0 {
        crc
    } else {
        crc_shift(crc_shifts(crc, (n - 1) as nat))
    }
}

/// CRC-8 (initial value 0, no reflection, no final xor) of a byte sequence.
pub open spec fn crc8(data: Seq<u8>) -> u8
    decreases data.len(),
{
    if data.len() == 0 {
        0
    } else {
        crc_shifts(crc8(data.drop_last()) ^ data.last(), 8)
    }
}

/// Computes the CRC-8 checksum that the sensor appends to its data bytes.
pub fn calculate_crc8_checksum(data: &[u8]) -> (r: u8)
    ensures
        r == crc8(data@),
{
    let mut crc: u8 = 0x00;
    let mut i: usize = 0;
    while i < data.len()
        invariant
            i <= data@.len(),
            crc == crc8(data@.take(i as int)),
        decreases data@.len() - i,
    {
        let byte = data[i];
        crc = crc ^ byte;
        let ghost start = crc;
        let mut bit: u8 = 0;
        while bit < 8
            invariant
                bit <= 8,
                crc == crc_shifts(start, bit as nat),
            decreases 8 - bit,
        {
            if crc & 0x80 != 0 {
                crc = (crc << 1u8) ^ POLYNOMIAL;
            } else {
                crc = crc << 1u8;
            }
            bit = bit + 1;
        }
        assert(data@.take(i + 1).drop_last() == data@.take(i as int));
        i = i + 1;
    }
    assert(data@.take(i as int) == data@);
    crc
}

} // verus!

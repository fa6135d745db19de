//! Battery voltage arithmetic: averaging ADC samples and undoing the divider.

use vstd::prelude::*;

verus! {

/// Largest reading of the 12-bit ADC.
pub const ADC_MAX: u16 = 4095;

/// Upper resistor of the voltage divider, in ohms.
pub const R1_OHMS: u32 = 1_000_000;

/// Lower resistor of the voltage divider, in ohms.
pub const R2_OHMS: u32 = 300_000;

/// Sum of the samples.
pub open spec fn sum_of(s: Seq<u16>) -> int
    decreases s.len(),
{
    if s.len() == 0 {
        0
    } else {
        sum_of(s.drop_last()) + s.last()
    }
}

proof fn lemma_sum_bound(s: Seq<u16>)
    ensures
        0 <= sum_of(s) <= s.len() * 65535,
    decreases s.len(),
{
    if s.len() > 0 {
        lemma_sum_bound(s.drop_last());
    }
}

/// The mean of the raw samples, rounded down and capped at the ADC's range;
/// zero without samples.
pub fn average_raw(samples: &Vec<u16>) -> (r: u16)
    requires
        samples@.len() <= u32::MAX,
    ensures
        samples@.len() == 0 ==> r == 0,
        samples@.len() > 0 ==> r == if sum_of(samples@) / samples@.len() as int > ADC_MAX {
            ADC_MAX as int
        } else {
            sum_of(samples@) / samples@.len() as int
        },
{
    if samples.len() == 0 {
        return 0;
    }
    let mut total: u64 = 0;
    let mut i: usize = 0;
    while i < samples.len()
        invariant
            i <= samples@.len() <= u32::MAX,
            total == sum_of(samples@.take(i as int)),
        decreases samples@.len() - i,
    {
        proof {
            lemma_sum_bound(samples@.take(i as int));
            assert(samples@.take(i + 1).drop_last() == samples@.take(i as int));
            assert(i * 65535 <= u32::MAX * 65535) by (nonlinear_arith)
                requires i <= u32::MAX;
        }
        total = total + samples[i] as u64;
        i = i + 1;
    }
    assert(samples@.take(i as int) == samples@);
    let mean = total / samples.len() as u64;
    if mean > ADC_MAX as u64 {
        ADC_MAX
    } else {
        mean as u16
    }
}

/// Battery voltage, in millivolts, from the voltage at the divider's tap:
/// `tap * (R1 + R2) / R2`, rounded down.
pub fn battery_millivolts(tap_millivolts: u16) -> (r: u32)
    ensures
        r == tap_millivolts * (R1_OHMS + R2_OHMS) / R2_OHMS as int,
{
    (tap_millivolts as u32 * 13) / 3
}

} // verus!

//! Distance readings.
use vstd::prelude::*;
use vstd::arithmetic::power2::{pow2, lemma2_to64};

verus! {

/// A distance reading as the sensor reports it: `raw / 16 / 2^shift` millimeters.
///
/// `raw` is `Distance[11:4] * 16 + Distance[3:0]` and `shift` the value of the
/// shift bit register.
#[derive(Copy, Clone, Debug, PartialEq, Eq, Structural)]
pub struct Distance {
    pub raw: u16,
    pub shift: u8,
}

impl Distance {
    /// The number that `raw` is divided by to give millimeters: `16 * 2^shift`.
    pub open spec fn divisor(self) -> nat {
        16 * pow2(self.shift as nat)
    }

    /// The reading made of the two distance bytes and the shift bit.
    pub open spec fn spec_from_bytes(high: u8, low: u8, shift: u8) -> Distance {
        Distance { raw: (high * 16 + low) as u16, shift }
    }

    /// Combines the two distance bytes and the shift bit into a reading.
    pub fn from_bytes(high: u8, low: u8, shift: u8) -> (r: Distance)
        ensures
            r == Distance::spec_from_bytes(high, low, shift),
            r.raw == high * 16 + low,
            r.shift == shift,
    {
        Distance { raw: (high as u16) * 16 + (low as u16), shift }
    }
}

/// A reading made of `high`, `low` and a shift bit `n` of 0, 1 or 2 stands
/// for `(high * 16 + low) / 16 / 2^n` millimeters: its raw value is
/// `high * 16 + low` and its divisor is `16 * 2^n`.
pub proof fn lemma_distance_formula(high: u8, low: u8, shift: u8)
    requires
        shift <= 2,
    ensures
        Distance::spec_from_bytes(high, low, shift).raw == high * 16 + low,
        Distance::spec_from_bytes(high, low, shift).divisor() == 16 * (if shift == 0 {
            1int
        } else if shift == 1 {
            2int
        } else {
            4int
        }),
{
    lemma2_to64();
}

} // verus!

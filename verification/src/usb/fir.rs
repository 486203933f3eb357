//! The coefficients of the low-pass filter of the demodulator.
//!
//! The filter has sixteen coefficients. The chip takes them in twenty
//! registers: the first eight coefficients in eight bits each, the other
//! eight in twelve bits each, two of them to three bytes.

use vstd::prelude::*;

verus! {

/// The sixteen coefficients of the filter.
#[derive(Clone, Copy, Debug)]
pub struct Fir(pub [i16; 16]);

/// A coefficient that does not fit where it is to be written.
#[derive(Clone, Copy, Debug, PartialEq, Eq, Structural)]
pub struct FirEncodeError {
    pub index: usize,
    pub value: i16,
}

/// The byte that holds a number between -128 and 127 in two's complement.
pub open spec fn signed_byte(value: i16) -> u8 {
    if value >= 0 {
        value as u8
    } else {
        (value + 256) as u8
    }
}

/// The twelve bits that hold a number between -2048 and 2047 in two's
/// complement, as a number.
pub open spec fn twelve_bits(value: i16) -> u16 {
    if value >= 0 {
        value as u16
    } else {
        (value + 4096) as u16
    }
}

/// The byte that holds a number between -128 and 127 in two's complement.
pub fn signed_byte_of(value: i16) -> (r: u8)
    requires
        -128 <= value <= 127,
    ensures
        r == signed_byte(value),
{
    if value >= 0 {
        value as u8
    } else {
        (value + 256) as u8
    }
}

/// The twelve bits that hold a number between -2048 and 2047 in two's
/// complement.
pub fn twelve_bits_of(value: i16) -> (r: u16)
    requires
        -2048 <= value <= 2047,
    ensures
        r == twelve_bits(value),
        r < 4096,
{
    if value >= 0 {
        value as u16
    } else {
        (value + 4096) as u16
    }
}

impl Fir {
    /// The number of coefficients.
    pub const LENGTH: usize = 16;

    /// Whether the coefficient at place `i` fits where it is written: the
    /// first eight in eight bits, the others in twelve.
    pub open spec fn fits(&self, i: int) -> bool {
        if i < 8 {
            -128 <= self.0[i] <= 127
        } else {
            -2048 <= self.0[i] <= 2047
        }
    }

    /// The place from `from` on of the first coefficient that does not
    /// fit, or 16 if all fit.
    pub open spec fn first_unfit_from(&self, from: int) -> int
        decreases 16 - from,
    {
        if from >= 16 {
            16
        } else if !self.fits(from) {
            from
        } else {
            self.first_unfit_from(from + 1)
        }
    }

    /// The byte at place `i` of the twenty that hold the coefficients. The
    /// first eight bytes hold a coefficient each. Of the twelve after
    /// them, each three hold two coefficients `a` and `b`: the high eight
    /// bits of `a`; its low four bits above the high four of `b`; the low
    /// eight bits of `b`.
    pub open spec fn image(&self, i: int) -> u8 {
        if i < 8 {
            signed_byte(self.0[i])
        } else {
            let pair = (i - 8) / 3;
            let a = twelve_bits(self.0[8 + 2 * pair]);
            let b = twelve_bits(self.0[9 + 2 * pair]);
            if (i - 8) % 3 == 0 {
                (a / 16) as u8
            } else if (i - 8) % 3 == 1 {
                (a % 16 * 16 + b / 256) as u8
            } else {
                (b % 256) as u8
            }
        }
    }

    /// How many bytes are written before encoding stops at the first
    /// coefficient that does not fit: one for each of the first eight
    /// coefficients before it, and three for each pair of the others that
    /// lies wholly before it.
    pub open spec fn written(&self) -> int {
        let unfit = self.first_unfit_from(0);
        if unfit <= 8 {
            unfit
        } else {
            8 + 3 * ((unfit - 8) / 2)
        }
    }

    /// Writes the coefficients into the image of the twenty filter
    /// registers. It stops at the first coefficient that does not fit and
    /// reports it; what it has written until then stays written.
    pub fn encode(&self, output: &mut [u8; 20]) -> (r: Result<(), FirEncodeError>)
        ensures
            forall|i: int|
                0 <= i < 20 ==> #[trigger] final(output)[i] == (if i < self.written() {
                    self.image(i)
                } else {
                    old(output)[i]
                }),
            self.first_unfit_from(0) == 16 ==> r is Ok && self.written() == 20,
            self.first_unfit_from(0) < 16 ==> r == Err::<(), FirEncodeError>(
                FirEncodeError {
                    index: self.first_unfit_from(0) as usize,
                    value: self.0[self.first_unfit_from(0)],
                },
            ),
    {
        let mut i: usize = 0;
        while i < 8
            invariant
                i <= 8,
                self.first_unfit_from(0) == self.first_unfit_from(i as int),
                forall|k: int| 0 <= k < i ==> #[trigger] output[k] == self.image(k),
                forall|k: int| i <= k < 20 ==> #[trigger] output[k] == old(output)[k],
            decreases 8 - i,
        {
            let value: i16 = self.0[i];
            if value < -128 || value > 127 {
                return Err(FirEncodeError { index: i, value });
            }
            output[i] = signed_byte_of(value);
            i = i + 1;
        }
        let mut j: usize = 8;
        while i < 16
            invariant
                8 <= i <= 16,
                i % 2 == 0,
                j == 8 + 3 * ((i - 8) / 2),
                self.first_unfit_from(0) == self.first_unfit_from(i as int),
                forall|k: int| 0 <= k < j ==> #[trigger] output[k] == self.image(k),
                forall|k: int| j <= k < 20 ==> #[trigger] output[k] == old(output)[k],
            decreases 16 - i,
        {
            let value0: i16 = self.0[i];
            let value1: i16 = self.0[i + 1];
            if value0 < -2048 || value0 > 2047 {
                return Err(FirEncodeError { index: i, value: value0 });
            }
            assert(self.fits(i as int));
            assert(self.first_unfit_from(i as int) == self.first_unfit_from(i + 1));
            if value1 < -2048 || value1 > 2047 {
                assert(!self.fits(i + 1));
                return Err(FirEncodeError { index: i + 1, value: value1 });
            }
            assert(self.fits(i + 1));
            assert(self.first_unfit_from(i + 1) == self.first_unfit_from(i + 2));
            let a: u16 = twelve_bits_of(value0);
            let b: u16 = twelve_bits_of(value1);
            output[j] = (a / 16) as u8;
            output[j + 1] = (a % 16 * 16 + b / 256) as u8;
            output[j + 2] = (b % 256) as u8;
            i = i + 2;
            j = j + 3;
        }
        Ok(())
    }
}

impl Default for Fir {
    /// The filter that the receiver is set up with.
    fn default() -> (r: Self)
        ensures
            r.0@ == seq![
                -54i16,
                -36i16,
                -41i16,
                -40i16,
                -32i16,
                -14i16,
                14i16,
                53i16,
                101i16,
                156i16,
                215i16,
                273i16,
                327i16,
                372i16,
                404i16,
                421i16,
            ],
    {
        let coefficients: [i16; 16] = [
            -54,
            -36,
            -41,
            -40,
            -32,
            -14,
            14,
            53,
            101,
            156,
            215,
            273,
            327,
            372,
            404,
            421,
        ];
        Fir(coefficients)
    }
}

} // verus!

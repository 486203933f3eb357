//! Gillham code: the Gray-coded form in which Mode A identity and Mode C
//! altitude travel.
//!
//! A 13-bit code word holds, from its most significant bit down, the pulses
//!
//! ```text
//! bit:   12 11 10  9  8  7  6  5  4  3  2  1  0
//! pulse: C1 A1 C2 A2 C4 A4  X B1 D1 B2 D2 B4 D4
//! ```
//!
//! In an altitude code the place of `X` is the metric bit and that of `D1`
//! the Q bit.

use vstd::prelude::*;
use crate::bits::test_bit;
use crate::bits::word_bit;

verus! {

/// One step in reading a reflected binary (Gray) code from its first bit
/// on: the count so far doubles, and one is added exactly when the next bit
/// differs from the parity of the count so far.
pub open spec fn gray_step(count: nat, next: bool) -> nat {
    2 * count + (if next != (count % 2 == 1) {
        1nat
    } else {
        0nat
    })
}

/// The number of 500 ft steps: the Gray code D2 D4 A1 A2 A4 B1 B2 B4.
pub open spec fn five_hundreds(word: u16) -> nat {
    let d2 = gray_step(0, word_bit(word, 2));
    let d4 = gray_step(d2, word_bit(word, 0));
    let a1 = gray_step(d4, word_bit(word, 11));
    let a2 = gray_step(a1, word_bit(word, 9));
    let a4 = gray_step(a2, word_bit(word, 7));
    let b1 = gray_step(a4, word_bit(word, 5));
    let b2 = gray_step(b1, word_bit(word, 3));
    gray_step(b2, word_bit(word, 1))
}

/// The Gray code C1 C2 C4, which counts 100 ft steps within a 500 ft step.
pub open spec fn hundreds_code(word: u16) -> nat {
    let c1 = gray_step(0, word_bit(word, 12));
    let c2 = gray_step(c1, word_bit(word, 10));
    gray_step(c2, word_bit(word, 8))
}

/// The 100 ft step within a 500 ft step that a 100 ft code stands for,
/// from 1 to 5. The codes 1 to 4 stand for themselves and 7 for the fifth
/// step. A code is held to that range: 0 counts as the first step, and
/// 5 and 6, which lie between 4 and 7 in the order of the Gray code, count
/// as the fifth.
pub open spec fn hundreds_step(code: nat) -> nat {
    if code == 0 {
        1
    } else if code >= 5 {
        5
    } else {
        code
    }
}

/// The altitude that a Gillham word stands for, in steps of 100 ft above
/// -1200 ft. Every word stands for one.
///
/// Within an odd 500 ft step the 100 ft steps run backwards, so there the
/// fifth step is the lowest. The places of the metric bit and of the Q bit
/// are not looked at.
pub open spec fn gillham_ac13(word: u16) -> u16 {
    let major = five_hundreds(word);
    let step = hundreds_step(hundreds_code(word));
    let minor: nat = if major % 2 == 1 {
        (6 - step) as nat
    } else {
        step
    };
    (5 * major + minor - 1) as u16
}

/// The octal digit of three pulses, `four` the highest.
pub open spec fn octal_digit(word: u16, four: nat, two: nat, one: nat) -> nat {
    (if word_bit(word, four) {
        4nat
    } else {
        0nat
    }) + (if word_bit(word, two) {
        2nat
    } else {
        0nat
    }) + (if word_bit(word, one) {
        1nat
    } else {
        0nat
    })
}

/// The Mode A code of an identity word: the four octal digits A, B, C and
/// D, each made of its pulses 4, 2 and 1. The place of `X` is not part of
/// the code.
pub open spec fn gillham_id13(word: u16) -> u16 {
    (512 * octal_digit(word, 7, 9, 11) + 64 * octal_digit(word, 1, 3, 5) + 8 * octal_digit(
        word,
        8,
        10,
        12,
    ) + octal_digit(word, 0, 2, 4)) as u16
}

fn step(count: u16, next: bool) -> (r: u16)
    requires
        count < 256,
    ensures
        r == gray_step(count as nat, next),
        r <= 2 * count + 1,
{
    let odd = count % 2 == 1;
    if next != odd {
        2 * count + 1
    } else {
        2 * count
    }
}

fn digit(word: u16, four: u16, two: u16, one: u16) -> (r: u16)
    requires
        four < 16,
        two < 16,
        one < 16,
    ensures
        r == octal_digit(word, four as nat, two as nat, one as nat),
        r < 8,
{
    let mut value: u16 = 0;
    if test_bit(word, four) {
        value = value + 4;
    }
    if test_bit(word, two) {
        value = value + 2;
    }
    if test_bit(word, one) {
        value = value + 1;
    }
    value
}

fn read_five_hundreds(word: u16) -> (r: u16)
    ensures
        r == five_hundreds(word),
        r < 256,
{
    let d2: u16 = step(0, test_bit(word, 2));
    let d4: u16 = step(d2, test_bit(word, 0));
    let a1: u16 = step(d4, test_bit(word, 11));
    let a2: u16 = step(a1, test_bit(word, 9));
    let a4: u16 = step(a2, test_bit(word, 7));
    let b1: u16 = step(a4, test_bit(word, 5));
    let b2: u16 = step(b1, test_bit(word, 3));
    step(b2, test_bit(word, 1))
}

fn read_hundreds_code(word: u16) -> (r: u16)
    ensures
        r == hundreds_code(word),
        r < 8,
{
    let c1: u16 = step(0, test_bit(word, 12));
    let c2: u16 = step(c1, test_bit(word, 10));
    step(c2, test_bit(word, 8))
}

/// Decodes a Gillham altitude word to steps of 100 ft above -1200 ft.
pub fn decode_gillham_ac13(word: u16) -> (r: u16)
    ensures
        r == gillham_ac13(word),
        r < 1280,
{
    let major: u16 = read_five_hundreds(word);
    let code: u16 = read_hundreds_code(word);
    let step: u16 = if code == 0 {
        1
    } else if code >= 5 {
        5
    } else {
        code
    };
    let minor: u16 = if major % 2 == 1 {
        6 - step
    } else {
        step
    };
    5 * major + minor - 1
}

/// Decodes a Gillham identity word to the Mode A code it stands for, as a
/// number of four octal digits.
pub fn decode_gillham_id13(word: u16) -> (r: u16)
    ensures
        r == gillham_id13(word),
        r < 0o10000,
{
    let a: u16 = digit(word, 7, 9, 11);
    let b: u16 = digit(word, 1, 3, 5);
    let c: u16 = digit(word, 8, 10, 12);
    let d: u16 = digit(word, 0, 2, 4);
    512 * a + 64 * b + 8 * c + d
}

} // verus!

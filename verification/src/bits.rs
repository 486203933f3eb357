//! Bit fields inside a run of bytes.
//!
//! Mode S numbers the bits of a frame from the most significant bit of the
//! first byte. A field is named by the index of its first bit and by its
//! width, and its value is the unsigned number that those bits spell out,
//! first bit highest.

use vstd::prelude::*;
use vstd::arithmetic::power2::pow2;
use vstd::arithmetic::power2::lemma2_to64;
use vstd::arithmetic::power2::lemma_pow2_unfold;
use vstd::arithmetic::power2::lemma_pow2_strictly_increases;

verus! {

/// The bit of `bytes` at `index`, as 0 or 1. Bit 0 is the most significant
/// bit of `bytes[0]`, bit 8 the most significant bit of `bytes[1]`.
pub open spec fn bit(bytes: Seq<u8>, index: int) -> nat {
    ((bytes[index / 8] as nat) / pow2((7 - index % 8) as nat)) % 2
}

/// The unsigned value of the `width` bits of `bytes` that begin at bit
/// `start`.
pub open spec fn bits(bytes: Seq<u8>, start: int, width: nat) -> nat
    decreases width,
{
    if width == 0 {
        0
    } else {
        2 * bits(bytes, start, (width - 1) as nat) + bit(bytes, start + width - 1)
    }
}

/// Whether the bit of `bytes` at `index` is set.
pub open spec fn flag(bytes: Seq<u8>, index: int) -> bool {
    bit(bytes, index) == 1
}

/// A field of `width` bits is below two to the `width`.
pub proof fn lemma_bits_bound(bytes: Seq<u8>, start: int, width: nat)
    ensures
        bits(bytes, start, width) < pow2(width),
    decreases width,
{
    if width == 0 {
        lemma2_to64();
    } else {
        lemma_bits_bound(bytes, start, (width - 1) as nat);
        lemma_pow2_unfold(width);
    }
}

/// A field depends on the bytes it lies in and on where in a byte it
/// begins, not on what stands around it: two fields that begin at the same
/// place within a byte and lie in equal bytes are equal.
pub proof fn lemma_bits_same(a: Seq<u8>, start_a: int, b: Seq<u8>, start_b: int, width: nat)
    requires
        0 <= start_a,
        0 <= start_b,
        start_a % 8 == start_b % 8,
        forall|i: int|
            start_a / 8 <= i <= (start_a + width - 1) / 8 ==> #[trigger] a[i] == b[i - start_a / 8
                + start_b / 8],
    ensures
        bits(a, start_a, width) == bits(b, start_b, width),
    decreases width,
{
    if width > 0 {
        lemma_bits_same(a, start_a, b, start_b, (width - 1) as nat);
        let last_a = start_a + width - 1;
        let last_b = start_b + width - 1;
        assert(last_a % 8 == last_b % 8 && last_a / 8 - start_a / 8 == last_b / 8 - start_b / 8);
        assert(a[last_a / 8] == b[last_a / 8 - start_a / 8 + start_b / 8]);
    }
}

proof fn lemma_shift_is_pow2(exponent: u32)
    requires
        exponent <= 8,
    ensures
        (1u32 << exponent) == pow2(exponent as nat),
{
    lemma2_to64();
    assert((1u32 << exponent) == (if exponent == 0 {
        1u32
    } else if exponent == 1 {
        2u32
    } else if exponent == 2 {
        4u32
    } else if exponent == 3 {
        8u32
    } else if exponent == 4 {
        16u32
    } else if exponent == 5 {
        32u32
    } else if exponent == 6 {
        64u32
    } else if exponent == 7 {
        128u32
    } else {
        256u32
    })) by (bit_vector)
        requires
            exponent <= 8,
    ;
}

/// A field that lies within one byte is a run of that byte's binary
/// digits: the byte without the digits below the field, and of that the
/// lowest `width` digits.
pub proof fn lemma_bits_in_byte(bytes: Seq<u8>, index: int, start: nat, width: nat)
    requires
        0 <= index,
        start + width <= 8,
    ensures
        bits(bytes, 8 * index + start, width) == (bytes[index] as nat / pow2(
            (8 - start - width) as nat,
        )) % pow2(width),
        start + width == 8 ==> bits(bytes, 8 * index + start, width) == bytes[index] as nat % pow2(
            width,
        ),
        start == 0 ==> bits(bytes, 8 * index + start, width) == bytes[index] as nat / pow2(
            (8 - width) as nat,
        ),
    decreases width,
{
    lemma2_to64();
    assert(bytes[index] as nat / pow2(0) == bytes[index] as nat);
    if start == 0 {
        let byte: u32 = bytes[index] as u32;
        let w: u32 = width as u32;
        lemma_shift_is_pow2(w);
        lemma_shift_is_pow2((8 - w) as u32);
        assert((byte / (1u32 << (8 - w) as u32)) % (1u32 << w) == byte / (1u32 << (8 - w) as u32))
            by (bit_vector)
            requires
                w <= 8,
                byte < 256,
        ;
    }
    if width == 0 {
    } else {
        lemma_bits_in_byte(bytes, index, start, (width - 1) as nat);
        let byte: u32 = bytes[index] as u32;
        let below: u32 = (8 - start - width) as u32;
        let w: u32 = width as u32;
        lemma_shift_is_pow2(below);
        lemma_shift_is_pow2((below + 1) as u32);
        lemma_shift_is_pow2(w);
        lemma_shift_is_pow2((w - 1) as u32);
        assert((byte / (1u32 << (below + 1) as u32)) == (byte / (1u32 << below)) / 2 && 2 * (((byte
            / (1u32 << below)) / 2) % (1u32 << (w - 1) as u32)) + (byte / (1u32 << below)) % 2
            == (byte / (1u32 << below)) % (1u32 << w)) by (bit_vector)
            requires
                below < 8,
                1 <= w <= 8,
                byte < 256,
        ;
        let last = 8 * index + start + width - 1;
        assert(last / 8 == index && last % 8 == start + width - 1);
    }
}

/// A field that begins in one byte and ends in the next: the low `high`
/// binary digits of the first byte, followed by the high `low` digits of
/// the second.
pub proof fn lemma_bits_across(bytes: Seq<u8>, index: int, high: nat, low: nat)
    requires
        0 <= index,
        high <= 8,
        low <= 8,
    ensures
        bits(bytes, 8 * index + 8 - high, high + low) == (bytes[index] as nat % pow2(high)) * pow2(
            low,
        ) + bytes[index + 1] as nat / pow2((8 - low) as nat),
{
    lemma_bits_in_byte(bytes, index, (8 - high) as nat, high);
    lemma_bits_in_byte(bytes, index + 1, 0, low);
    lemma_bits_join(bytes, 8 * index + 8 - high, high, low);
    assert(8 * index + 8 - high + high == 8 * (index + 1) + 0);
}

/// Two fields that follow one another read as one field: the first is its
/// high part.
pub proof fn lemma_bits_join(bytes: Seq<u8>, start: int, high: nat, low: nat)
    ensures
        bits(bytes, start, high + low) == bits(bytes, start, high) * pow2(low) + bits(
            bytes,
            start + high,
            low,
        ),
    decreases low,
{
    if low == 0 {
        lemma2_to64();
    } else {
        lemma_bits_join(bytes, start, high, (low - 1) as nat);
        lemma_pow2_unfold(low);
        let x = bits(bytes, start, high);
        let p = pow2((low - 1) as nat);
        assert(2 * (x * p) == x * (2 * p)) by (nonlinear_arith);
    }
}

proof fn lemma_shifted_bit(byte: u8, shift: u8)
    requires
        shift < 8,
    ensures
        ((byte >> shift) & 1) as nat == (byte as nat / pow2(shift as nat)) % 2,
{
    lemma2_to64();
    assert(((byte >> shift) & 1) == (byte / (1u8 << shift)) % 2 && (1u8 << shift) == (if shift
        == 0 {
        1u8
    } else if shift == 1 {
        2u8
    } else if shift == 2 {
        4u8
    } else if shift == 3 {
        8u8
    } else if shift == 4 {
        16u8
    } else if shift == 5 {
        32u8
    } else if shift == 6 {
        64u8
    } else {
        128u8
    })) by (bit_vector)
        requires
            shift < 8,
    ;
}

/// Whether bit `place` of `word` is set. Here bit 0 is the least
/// significant bit, as usual for a number.
pub open spec fn word_bit(word: u16, place: nat) -> bool {
    (word as nat / pow2(place)) % 2 == 1
}

/// Tests bit `place` of `word`, counted from the least significant bit.
pub fn test_bit(word: u16, place: u16) -> (r: bool)
    requires
        place < 16,
    ensures
        r == word_bit(word, place as nat),
{
    proof {
        lemma2_to64();
        assert(((word >> place) & 1) == (word / (1u16 << place)) % 2 && (place < 8 ==> (1u16
            << place) == (if place == 0 {
            1u16
        } else if place == 1 {
            2u16
        } else if place == 2 {
            4u16
        } else if place == 3 {
            8u16
        } else if place == 4 {
            16u16
        } else if place == 5 {
            32u16
        } else if place == 6 {
            64u16
        } else {
            128u16
        })) && (place >= 8 ==> (1u16 << place) == (if place == 8 {
            256u16
        } else if place == 9 {
            512u16
        } else if place == 10 {
            1024u16
        } else if place == 11 {
            2048u16
        } else if place == 12 {
            4096u16
        } else if place == 13 {
            8192u16
        } else if place == 14 {
            16384u16
        } else {
            32768u16
        }))) by (bit_vector)
            requires
                place < 16,
        ;
    }
    (word >> place) & 1 == 1
}

/// Reads the field of `width` bits that begins at bit `start`.
pub fn read_bits<const N: usize>(bytes: &[u8; N], start: usize, width: usize) -> (r: u32)
    requires
        width <= 32,
        start + width <= 8 * N,
        start + width <= usize::MAX,
    ensures
        r == bits(bytes@, start as int, width as nat),
        r < pow2(width as nat),
{
    let mut value: u32 = 0;
    let mut done: usize = 0;
    proof {
        lemma2_to64();
    }
    while done < width
        invariant
            done <= width <= 32,
            start + width <= 8 * N,
            start + width <= usize::MAX,
            value == bits(bytes@, start as int, done as nat),
            value < pow2(done as nat),
        decreases width - done,
    {
        let at: usize = start + done;
        let byte: u8 = bytes[at / 8];
        let shift: u8 = (7 - at % 8) as u8;
        let one: u8 = (byte >> shift) & 1;
        proof {
            lemma_shifted_bit(byte, shift);
            lemma_pow2_unfold((done + 1) as nat);
            lemma2_to64();
            if done + 1 < 32 {
                lemma_pow2_strictly_increases((done + 1) as nat, 32);
            }
        }
        value = value * 2 + one as u32;
        done = done + 1;
    }
    value
}

/// Reads a field of at most eight bits.
pub fn read_u8<const N: usize>(bytes: &[u8; N], start: usize, width: usize) -> (r: u8)
    requires
        width <= 8,
        start + width <= 8 * N,
        start + width <= usize::MAX,
    ensures
        r == bits(bytes@, start as int, width as nat),
        r < pow2(width as nat),
{
    let value: u32 = read_bits(bytes, start, width);
    proof {
        lemma2_to64();
        if width < 8 {
            lemma_pow2_strictly_increases(width as nat, 8);
        }
    }
    value as u8
}

/// Reads a field of at most sixteen bits.
pub fn read_u16<const N: usize>(bytes: &[u8; N], start: usize, width: usize) -> (r: u16)
    requires
        width <= 16,
        start + width <= 8 * N,
        start + width <= usize::MAX,
    ensures
        r == bits(bytes@, start as int, width as nat),
        r < pow2(width as nat),
{
    let value: u32 = read_bits(bytes, start, width);
    proof {
        lemma2_to64();
        if width < 16 {
            lemma_pow2_strictly_increases(width as nat, 16);
        }
    }
    value as u16
}

/// Reads the bit at `index`.
pub fn read_flag<const N: usize>(bytes: &[u8; N], index: usize) -> (r: bool)
    requires
        index < 8 * N,
        index < usize::MAX,
    ensures
        r == flag(bytes@, index as int),
{
    let value: u32 = read_bits(bytes, index, 1);
    proof {
        reveal_with_fuel(bits, 2);
    }
    value == 1
}

} // verus!

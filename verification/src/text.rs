//! Numbers as text: writing a number in a radix and reading it back.
//!
//! Reading accepts what the integer types of the standard library accept:
//! an optional `+` and after it at least one digit, nothing else.

use vstd::prelude::*;
use vstd::string::StringExecFns;

verus! {

/// The character that stands for a digit below 16: `0` to `9`, then `a`
/// to `f`.
pub open spec fn digit_char(digit: nat) -> char {
    if digit < 10 {
        ((48 + digit) as u8) as char
    } else {
        ((87 + digit) as u8) as char
    }
}

/// The digits of `value` in `radix`, highest first, with no leading zero.
pub open spec fn digits(value: nat, radix: nat) -> Seq<char>
    decreases value,
{
    if value < radix || radix < 2 {
        seq![digit_char(value)]
    } else {
        proof {
            lemma_quotient_is_less(value, radix);
        }
        digits(value / radix, radix).push(digit_char(value % radix))
    }
}

/// Dividing a number by a radix makes it less.
pub proof fn lemma_quotient_is_less(value: nat, radix: nat)
    requires
        radix >= 2,
        value >= radix,
    ensures
        value / radix < value,
{
    assert(value / radix < value) by (nonlinear_arith)
        requires
            radix >= 2,
            value >= radix,
    ;
}

/// `count` times the character `0`.
pub open spec fn zeros(count: nat) -> Seq<char> {
    Seq::new(count, |i: int| '0')
}

/// The digits of `value` in `radix`, filled up with zeros in front to at
/// least `width` characters.
pub open spec fn padded(value: nat, radix: nat, width: nat) -> Seq<char> {
    let text = digits(value, radix);
    if text.len() < width {
        zeros((width - text.len()) as nat) + text
    } else {
        text
    }
}

/// What the character `c` counts as a digit in `radix`: `0` to `9` their
/// value, a letter of either case ten more than its place in the alphabet,
/// and nothing where that is not below `radix`.
pub open spec fn digit_value(c: char, radix: nat) -> Option<nat> {
    let value: nat = if '0' <= c <= '9' {
        (c as nat - 48) as nat
    } else if 'a' <= c <= 'z' {
        (c as nat - 87) as nat
    } else if 'A' <= c <= 'Z' {
        (c as nat - 55) as nat
    } else {
        radix
    };
    if value < radix {
        Some(value)
    } else {
        None
    }
}

/// The number that a run of digits stands for in `radix`; nothing where the
/// run is empty or holds a character that is no digit.
pub open spec fn number(text: Seq<char>, radix: nat) -> Option<nat>
    decreases text.len(),
{
    if text.len() == 0 {
        None
    } else {
        match digit_value(text.last(), radix) {
            None => None,
            Some(digit) => if text.len() == 1 {
                Some(digit)
            } else {
                match number(text.drop_last(), radix) {
                    Some(high) => Some(high * radix + digit),
                    None => None,
                }
            },
        }
    }
}

/// The text without a `+` at its head.
pub open spec fn unsigned_part(text: Seq<char>) -> Seq<char> {
    if text.len() > 0 && text[0] == '+' {
        text.skip(1)
    } else {
        text
    }
}

/// The number that `text` stands for in `radix` and that fits in 32 bits.
pub open spec fn unsigned(text: Seq<char>, radix: nat) -> Option<u32> {
    match number(unsigned_part(text), radix) {
        Some(value) => if value <= u32::MAX {
            Some(value as u32)
        } else {
            None
        },
        None => None,
    }
}

/// Every character of a number is a digit, and every run of digits that
/// it begins with stands for a number that is not above it.
pub proof fn lemma_number_prefix(text: Seq<char>, radix: nat, length: int)
    requires
        number(text, radix) is Some,
        0 < length <= text.len(),
    ensures
        number(text.take(length), radix) is Some,
        number(text.take(length), radix).unwrap() <= number(text, radix).unwrap(),
        digit_value(text[length - 1], radix) is Some,
    decreases text.len(),
{
    if length == text.len() {
        assert(text.take(length) =~= text);
    } else {
        let front = text.drop_last();
        lemma_number_prefix(front, radix, length);
        assert(front.take(length) =~= text.take(length));
        let high = number(front, radix).unwrap();
        assert(high <= high * radix) by (nonlinear_arith)
            requires
                radix >= 1,
                high >= 0,
        ;
    }
}

/// A number with zeros in front is the same number.
pub proof fn lemma_number_zeros(count: nat, text: Seq<char>, radix: nat)
    requires
        number(text, radix) is Some,
        radix >= 2,
    ensures
        number(zeros(count) + text, radix) == number(text, radix),
    decreases text.len(),
{
    let whole = zeros(count) + text;
    if count == 0 {
        assert(whole =~= text);
    } else if text.len() == 1 {
        assert(whole.drop_last() =~= zeros(count));
        assert(whole.last() == text.last());
        lemma_zeros_are_zero(count, radix);
        let digit = digit_value(text.last(), radix).unwrap();
        assert(number(text, radix) == Some(digit));
        assert(number(whole, radix) == Some(0 * radix + digit));
        assert(0 * radix == 0) by (nonlinear_arith);
    } else {
        let front = text.drop_last();
        assert(number(front, radix) is Some);
        lemma_number_zeros(count, front, radix);
        assert(whole.drop_last() =~= zeros(count) + front);
        assert(whole.last() == text.last());
        let digit = digit_value(text.last(), radix).unwrap();
        let high = number(front, radix).unwrap();
        assert(number(text, radix) == Some(high * radix + digit));
        assert(number(whole, radix) == Some(high * radix + digit));
    }
}

/// A run of zeros stands for zero.
pub proof fn lemma_zeros_are_zero(count: nat, radix: nat)
    requires
        count >= 1,
        radix >= 2,
    ensures
        number(zeros(count), radix) == Some(0nat),
    decreases count,
{
    if count > 1 {
        lemma_zeros_are_zero((count - 1) as nat, radix);
        assert(zeros(count).drop_last() =~= zeros((count - 1) as nat));
    }
}

/// Writing a number in a radix up to 16 and reading the digits back gives
/// the number again.
pub proof fn lemma_number_of_digits(value: nat, radix: nat)
    requires
        2 <= radix <= 16,
    ensures
        number(digits(value, radix), radix) == Some(value),
        digits(value, radix).len() >= 1,
        digits(value, radix)[0] != '+',
    decreases value,
{
    if value < radix {
        assert(digit_value(digit_char(value), radix) == Some(value));
    } else {
        lemma_number_of_digits(value / radix, radix);
        let front = digits(value / radix, radix);
        let low = value % radix;
        let text = front.push(digit_char(low));
        assert(text.drop_last() =~= front);
        assert(digit_value(digit_char(low), radix) == Some(low));
        assert((value / radix) * radix + value % radix == value) by (nonlinear_arith)
            requires
                radix > 0,
        ;
    }
}

/// Writing a number in a radix up to 16, filled up with zeros, and reading
/// the text back gives the number again.
pub proof fn lemma_unsigned_of_padded(value: u32, radix: nat, width: nat)
    requires
        2 <= radix <= 16,
    ensures
        unsigned(padded(value as nat, radix, width), radix) == Some(value),
{
    let text = digits(value as nat, radix);
    lemma_number_of_digits(value as nat, radix);
    if text.len() < width {
        let count = (width - text.len()) as nat;
        lemma_number_zeros(count, text, radix);
        assert((zeros(count) + text)[0] == '0');
    }
}

/// A number written in a radix up to 16 begins with a digit, not with a
/// sign or a mark.
pub proof fn lemma_padded_head(value: nat, radix: nat, width: nat)
    requires
        2 <= radix <= 16,
    ensures
        padded(value, radix, width).len() >= 1,
        digit_value(padded(value, radix, width)[0], radix) is Some,
{
    let text = digits(value, radix);
    lemma_number_of_digits(value, radix);
    lemma_number_prefix(text, radix, 1);
    if text.len() < width {
        let count = (width - text.len()) as nat;
        assert((zeros(count) + text)[0] == '0');
    }
}

/// The text of one digit.
fn digit_str(digit: u32) -> (r: &'static str)
    requires
        digit < 16,
    ensures
        r@ == seq![digit_char(digit as nat)],
{
    proof {
        reveal_strlit("0");
        reveal_strlit("1");
        reveal_strlit("2");
        reveal_strlit("3");
        reveal_strlit("4");
        reveal_strlit("5");
        reveal_strlit("6");
        reveal_strlit("7");
        reveal_strlit("8");
        reveal_strlit("9");
        reveal_strlit("a");
        reveal_strlit("b");
        reveal_strlit("c");
        reveal_strlit("d");
        reveal_strlit("e");
        reveal_strlit("f");
    }
    let r = match digit {
        0 => "0",
        1 => "1",
        2 => "2",
        3 => "3",
        4 => "4",
        5 => "5",
        6 => "6",
        7 => "7",
        8 => "8",
        9 => "9",
        10 => "a",
        11 => "b",
        12 => "c",
        13 => "d",
        14 => "e",
        _ => "f",
    };
    assert(r@ =~= seq![digit_char(digit as nat)]);
    r
}

/// Appends the digits of `value` in `radix` to `text`.
fn push_digits(text: &mut String, value: u32, radix: u32)
    requires
        2 <= radix <= 16,
    ensures
        final(text)@ == old(text)@ + digits(value as nat, radix as nat),
    decreases value,
{
    if value >= radix {
        proof {
            lemma_quotient_is_less(value as nat, radix as nat);
        }
        push_digits(text, value / radix, radix);
    }
    text.append(digit_str(value % radix));
    proof {
        if value >= radix {
            assert(text@ =~= old(text)@ + digits((value / radix) as nat, radix as nat).push(
                digit_char((value % radix) as nat),
            ));
        } else {
            assert(value % radix == value) by (nonlinear_arith)
                requires
                    0 <= value < radix,
            ;
            assert(text@ =~= old(text)@ + seq![digit_char(value as nat)]);
        }
    }
}

/// The number of digits of `value` in `radix`.
fn count_digits(value: u32, radix: u32) -> (r: usize)
    requires
        2 <= radix <= 16,
    ensures
        r == digits(value as nat, radix as nat).len(),
        1 <= r <= 32,
    decreases value,
{
    if value >= radix {
        proof {
            lemma_quotient_is_less(value as nat, radix as nat);
            lemma_digits_bound(value as nat, radix as nat);
        }
        let high: usize = count_digits(value / radix, radix);
        high + 1
    } else {
        1
    }
}

/// A number below two to the `n` has at most `n` digits, whatever the
/// radix; here for the 32 bits of the numbers that are written.
proof fn lemma_digits_bound(value: nat, radix: nat)
    requires
        radix >= 2,
        value <= u32::MAX,
    ensures
        digits(value, radix).len() <= 32,
{
    vstd::arithmetic::power2::lemma2_to64();
    lemma_digits_length(value, radix, 32);
}

/// A number below two to the `n` has at most `n` digits.
proof fn lemma_digits_length(value: nat, radix: nat, n: nat)
    requires
        radix >= 2,
        n >= 1,
        value < vstd::arithmetic::power2::pow2(n),
    ensures
        digits(value, radix).len() <= n,
    decreases value,
{
    if value >= radix {
        lemma_quotient_is_less(value, radix);
        vstd::arithmetic::power2::lemma_pow2_unfold(n);
        if n == 1 {
            vstd::arithmetic::power2::lemma2_to64();
        } else {
            assert(value / radix <= value / 2) by (nonlinear_arith)
                requires
                    radix >= 2,
                    value >= 0,
            ;
            lemma_digits_length(value / radix, radix, (n - 1) as nat);
        }
    }
}

/// Writes `value` in `radix`, filled up with zeros in front to at least
/// `width` characters.
pub fn format_radix(value: u32, radix: u32, width: usize) -> (r: String)
    requires
        2 <= radix <= 16,
    ensures
        r@ == padded(value as nat, radix as nat, width as nat),
{
    let mut text = String::new();
    let count: usize = count_digits(value, radix);
    let mut length: usize = count;
    while length < width
        invariant
            count <= length,
            count < width ==> length <= width,
            count >= width ==> length == count,
            text@ == zeros((length - count) as nat),
        decreases width - length,
    {
        text.append("0");
        length = length + 1;
        proof {
            reveal_strlit("0");
            assert(text@ =~= zeros((length - count) as nat));
        }
    }
    let ghost front = text@;
    push_digits(&mut text, value, radix);
    proof {
        if count >= width {
            assert(front =~= Seq::<char>::empty());
            assert(text@ =~= digits(value as nat, radix as nat));
        }
    }
    text
}

/// A whole number in decimal: a `-` before the digits where it is below
/// zero.
pub open spec fn decimal(value: int) -> Seq<char> {
    if value < 0 {
        seq!['-'] + digits((-value) as nat, 10)
    } else {
        digits(value as nat, 10)
    }
}

/// Writes `value` in decimal.
pub fn format_decimal(value: i32) -> (r: String)
    ensures
        r@ == decimal(value as int),
{
    if value < 0 {
        proof {
            reveal_strlit("-");
            assert("-"@ =~= seq!['-']);
        }
        let magnitude: u32 = if value == i32::MIN {
            0x8000_0000
        } else {
            (-value) as u32
        };
        let sign = String::from_str("-");
        let number = format_radix(magnitude, 10, 0);
        sign.concat(number.as_str())
    } else {
        format_radix(value as u32, 10, 0)
    }
}

/// What `c` counts as a digit in `radix`.
fn digit_of(c: char, radix: u32) -> (r: Option<u32>)
    requires
        2 <= radix <= 36,
    ensures
        r matches Some(d) ==> digit_value(c, radix as nat) == Some(d as nat),
        r is None ==> digit_value(c, radix as nat) is None,
{
    let code: u32 = c as u32;
    let value: u32 = if '0' <= c && c <= '9' {
        code - 48
    } else if 'a' <= c && c <= 'z' {
        code - 87
    } else if 'A' <= c && c <= 'Z' {
        code - 55
    } else {
        radix
    };
    if value < radix {
        Some(value)
    } else {
        None
    }
}

/// Reads `s` as a number in `radix`: an optional `+`, then digits only and
/// at least one. Returns nothing where `s` is no such text or the number
/// does not fit in 32 bits.
pub fn parse_radix(s: &str, radix: u32) -> (r: Option<u32>)
    requires
        2 <= radix <= 36,
    ensures
        r == unsigned(s@, radix as nat),
{
    let mut value: u32 = 0;
    let mut any_digit = false;
    let mut signed = false;
    let mut first = true;
    let ghost text = s@;
    let ghost body = unsigned_part(text);
    let ghost mut seen: int = 0;
    for c in it: s.chars()
        invariant
            2 <= radix <= 36,
            text == s@,
            it.seq() == text,
            body == unsigned_part(text),
            first == (it.index() == 0),
            signed == (it.index() > 0 && text[0] == '+'),
            seen == it.index() - (if signed {
                1int
            } else {
                0int
            }),
            any_digit == (seen > 0),
            seen == 0 ==> value == 0,
            seen > 0 ==> number(body.take(seen), radix as nat) == Some(value as nat),
    {
        assert(c == text[it.index() as int]);
        if first && c == '+' {
            signed = true;
        } else {
            assert(seen < body.len());
            assert(body[seen] == c);
            let digit: u32 = match digit_of(c, radix) {
                Some(digit) => digit,
                None => {
                    proof {
                        if number(body, radix as nat) is Some {
                            lemma_number_prefix(body, radix as nat, seen + 1);
                        }
                    }
                    return None;
                },
            };
            assert(value * radix <= 0xFFFF_FFFF * 36) by (nonlinear_arith)
                requires
                    value <= 0xFFFF_FFFF,
                    radix <= 36,
            ;
            let wide: u64 = value as u64 * radix as u64 + digit as u64;
            proof {
                let longer = body.take(seen + 1);
                assert(longer.last() == c);
                assert(longer.drop_last() =~= body.take(seen));
                assert(longer.len() == seen + 1);
                assert(digit_value(longer.last(), radix as nat) == Some(digit as nat));
                if seen == 0 {
                    assert(value as nat * radix as nat == 0) by (nonlinear_arith)
                        requires
                            value == 0,
                    ;
                }
                assert(wide as nat == value as nat * radix as nat + digit as nat);
                assert(number(longer, radix as nat) == Some(wide as nat));
            }
            if wide > u32::MAX as u64 {
                proof {
                    if number(body, radix as nat) is Some {
                        lemma_number_prefix(body, radix as nat, seen + 1);
                    }
                }
                return None;
            }
            value = wide as u32;
            any_digit = true;
            proof {
                seen = seen + 1;
            }
        }
        first = false;
    }
    proof {
        assert(body.take(body.len() as int) =~= body);
    }
    if any_digit {
        Some(value)
    } else {
        None
    }
}

} // verus!

//! Aircraft identifiers: the 24-bit ICAO address and the Mode A code.

use vstd::prelude::*;
use vstd::string::StringExecFns;
use crate::text::format_radix;
use crate::text::lemma_unsigned_of_padded;
use crate::text::padded;
use crate::text::parse_radix;
use crate::text::unsigned;

verus! {

/// The text that was handed in for an ICAO address and is none.
#[derive(Clone, Debug)]
pub struct IcaoAddressFromStrError {
    pub input: String,
}

/// The text that was handed in for a Mode A code and is none.
#[derive(Clone, Debug)]
pub struct SquawkFromStrError {
    pub input: String,
}

/// A 24-bit aircraft address. The flag `non_icao` marks an address that
/// the sender declared anonymous: one that no registry assigned.
#[derive(Clone, Copy, Debug, PartialEq, Eq, Structural, PartialOrd, Ord, Hash)]
pub struct IcaoAddress {
    pub address: u32,
    pub non_icao: bool,
}

impl IcaoAddress {
    /// The address fits in 24 bits.
    pub open spec fn wf(&self) -> bool {
        self.address <= 0xFF_FFFF
    }

    /// The address that three bytes spell out, first byte highest.
    pub open spec fn of_bytes(bytes: [u8; 3]) -> Self {
        IcaoAddress {
            address: (bytes[0] * 0x1_0000 + bytes[1] * 0x100 + bytes[2]) as u32,
            non_icao: false,
        }
    }

    /// The three bytes of the address, highest first.
    pub open spec fn bytes(&self) -> [u8; 3] {
        [
            (self.address / 0x1_0000) as u8,
            (self.address / 0x100 % 0x100) as u8,
            (self.address % 0x100) as u8,
        ]
    }

    /// Wraps `address` as an assigned address, without looking at its
    /// width.
    pub fn from_u32_unchecked(address: u32) -> (r: Self)
        ensures
            r == (IcaoAddress { address, non_icao: false }),
    {
        Self { address, non_icao: false }
    }

    /// Wraps `address` as an assigned address if it fits in 24 bits.
    pub fn from_u32(address: u32) -> (r: Option<Self>)
        ensures
            r == (if address <= 0xFF_FFFF {
                Some(IcaoAddress { address, non_icao: false })
            } else {
                None
            }),
    {
        if address < 0x100_0000 {
            Some(Self::from_u32_unchecked(address))
        } else {
            None
        }
    }

    /// The same address, marked as not assigned by a registry.
    pub fn with_non_icao_flag(self) -> (r: Self)
        ensures
            r == (IcaoAddress { address: self.address, non_icao: true }),
    {
        Self { address: self.address, non_icao: true }
    }

    pub fn non_icao(&self) -> (r: bool)
        ensures
            r == self.non_icao,
    {
        self.non_icao
    }

    /// The three bytes of the address, highest first.
    pub fn as_bytes(&self) -> (r: [u8; 3])
        requires
            self.wf(),
        ensures
            r == self.bytes(),
    {
        let high: u8 = (self.address / 0x1_0000) as u8;
        let middle: u8 = (self.address / 0x100 % 0x100) as u8;
        let low: u8 = (self.address % 0x100) as u8;
        let r = [high, middle, low];
        assert(r =~= self.bytes());
        r
    }

    /// The assigned address that three bytes spell out, first byte highest.
    pub fn from_bytes(bytes: [u8; 3]) -> (r: Self)
        ensures
            r == Self::of_bytes(bytes),
            r.wf(),
    {
        let high: u32 = bytes[0] as u32;
        let middle: u32 = bytes[1] as u32;
        let low: u32 = bytes[2] as u32;
        Self::from_u32_unchecked(high * 0x1_0000 + middle * 0x100 + low)
    }

    /// The address as text: six hexadecimal digits in lower case, and `~`
    /// before them where the address is marked as not assigned.
    pub open spec fn text(&self) -> Seq<char> {
        if self.non_icao {
            seq!['~'] + padded(self.address as nat, 16, 6)
        } else {
            padded(self.address as nat, 16, 6)
        }
    }

    /// The address that a text stands for: an optional `~`, which marks the
    /// address as not assigned, and after it a hexadecimal number of at
    /// most 24 bits.
    pub open spec fn parsed(text: Seq<char>) -> Option<Self> {
        let flagged = text.len() > 0 && text[0] == '~';
        let number = if flagged {
            text.skip(1)
        } else {
            text
        };
        match unsigned(number, 16) {
            Some(address) => if address <= 0xFF_FFFF {
                Some(IcaoAddress { address, non_icao: flagged })
            } else {
                None
            },
            None => None,
        }
    }

    /// The address as text.
    pub fn to_string(&self) -> (r: String)
        ensures
            r@ == self.text(),
    {
        let number = format_radix(self.address, 16, 6);
        if self.non_icao {
            proof {
                reveal_strlit("~");
                assert("~"@ =~= seq!['~']);
            }
            let mark = String::from_str("~");
            mark.concat(number.as_str())
        } else {
            number
        }
    }

    /// The address named with its type: `IcaoAddress(` and `)` around the
    /// text.
    pub fn describe(&self) -> (r: String)
        ensures
            r@ == "IcaoAddress("@ + self.text() + ")"@,
    {
        let text = self.to_string();
        String::from_str("IcaoAddress(").concat(text.as_str()).concat(")")
    }

    /// Reads an address from text. Where the text is no address, the error
    /// holds the text.
    pub fn from_str(s: &str) -> (r: Result<Self, IcaoAddressFromStrError>)
        ensures
            r matches Ok(address) ==> Self::parsed(s@) == Some(address) && address.wf(),
            r matches Err(e) ==> Self::parsed(s@) is None && e.input@ == s@,
    {
        let length: usize = s.unicode_len();
        let flagged = length > 0 && s.get_char(0) == '~';
        let parsed = if flagged {
            parse_radix(s.substring_char(1, length), 16)
        } else {
            parse_radix(s, 16)
        };
        proof {
            if flagged {
                assert(s@.subrange(1, length as int) =~= s@.skip(1));
            }
        }
        match parsed {
            Some(address) => if address <= 0xFF_FFFF {
                Ok(Self { address, non_icao: flagged })
            } else {
                Err(IcaoAddressFromStrError { input: String::from_str(s) })
            },
            None => Err(IcaoAddressFromStrError { input: String::from_str(s) }),
        }
    }

    /// Writing an address as text and reading the text gives the address
    /// again.
    pub proof fn lemma_text_round_trip(self)
        requires
            self.wf(),
        ensures
            Self::parsed(self.text()) == Some(self),
    {
        lemma_unsigned_of_padded(self.address, 16, 6);
        let number = padded(self.address as nat, 16, 6);
        crate::text::lemma_padded_head(self.address as nat, 16, 6);
        if self.non_icao {
            assert((seq!['~'] + number).skip(1) =~= number);
        }
    }

    /// Splitting an assigned address into bytes and reading the bytes back
    /// gives the address again. Of an address marked as not assigned, the
    /// number comes back and the mark does not: three bytes hold no mark.
    pub proof fn lemma_bytes_round_trip(self)
        requires
            self.wf(),
        ensures
            Self::of_bytes(self.bytes()).address == self.address,
            !self.non_icao ==> Self::of_bytes(self.bytes()) == self,
    {
    }

    /// Reading three bytes as an address and splitting it again gives the
    /// same three bytes.
    pub proof fn lemma_address_of_bytes(bytes: [u8; 3])
        ensures
            Self::of_bytes(bytes).wf(),
            Self::of_bytes(bytes).bytes() == bytes,
    {
        assert(Self::of_bytes(bytes).bytes() =~= bytes);
    }
}

/// A 12-bit Mode A identity code, read as four octal digits.
#[derive(Clone, Copy, Debug, PartialEq, Eq, Structural, PartialOrd, Ord, Hash)]
pub struct Squawk {
    pub code: u16,
}

impl Squawk {
    /// The code 0700.
    pub const VFR_STANDARD: u16 = 0o0700;

    /// The code 7500: unlawful interference.
    pub const AIRCRAFT_HIJACKING: u16 = 0o7500;

    /// The code 7600: loss of radio contact.
    pub const RADIO_FAILURE: u16 = 0o7600;

    /// The code 7700: general emergency.
    pub const EMERGENCY: u16 = 0o7700;

    /// The code has four octal digits.
    pub open spec fn wf(&self) -> bool {
        self.code < 0o10000
    }

    /// The code whose octal digits are the hexadecimal digits of `code`,
    /// each taken without its highest bit.
    pub open spec fn of_hex(code: u16) -> Self {
        Squawk {
            code: ((code / 0x1000 % 8) * 0o1000 + (code / 0x100 % 8) * 0o100 + (code / 0x10 % 8)
                * 0o10 + code % 8) as u16,
        }
    }

    /// The code as text: four octal digits, or more where the code is
    /// wider than a Mode A code.
    pub open spec fn text(&self) -> Seq<char> {
        padded(self.code as nat, 8, 4)
    }

    /// The code that a text stands for: an octal number below 10000.
    pub open spec fn parsed(text: Seq<char>) -> Option<Self> {
        match unsigned(text, 8) {
            Some(code) => if code < 0o10000 {
                Some(Squawk { code: code as u16 })
            } else {
                None
            },
            None => None,
        }
    }

    /// The code as text.
    pub fn to_string(&self) -> (r: String)
        ensures
            r@ == self.text(),
    {
        format_radix(self.code as u32, 8, 4)
    }

    /// The code named with its type: `Squawk(` and `)` around the text.
    pub fn describe(&self) -> (r: String)
        ensures
            r@ == "Squawk("@ + self.text() + ")"@,
    {
        let text = self.to_string();
        String::from_str("Squawk(").concat(text.as_str()).concat(")")
    }

    /// Reads a code from text. Where the text is no code, the error holds
    /// the text.
    pub fn from_str(s: &str) -> (r: Result<Self, SquawkFromStrError>)
        ensures
            r matches Ok(squawk) ==> Self::parsed(s@) == Some(squawk) && squawk.wf(),
            r matches Err(e) ==> Self::parsed(s@) is None && e.input@ == s@,
    {
        match parse_radix(s, 8) {
            Some(code) => if code < 0o10000 {
                Ok(Self { code: code as u16 })
            } else {
                Err(SquawkFromStrError { input: String::from_str(s) })
            },
            None => Err(SquawkFromStrError { input: String::from_str(s) }),
        }
    }

    /// Writing a code as four octal digits and reading the text gives what
    /// the checked constructor gives for the code: the code itself where it
    /// is a Mode A code, nothing where it is wider.
    pub proof fn lemma_text_round_trip(code: u16)
        ensures
            Self::parsed((Squawk { code }).text()) == (if code < 0o10000 {
                Some(Squawk { code })
            } else {
                None
            }),
    {
        lemma_unsigned_of_padded(code as u32, 8, 4);
    }

    /// Wraps `code` without looking at its width.
    pub fn from_u16_unchecked(code: u16) -> (r: Self)
        ensures
            r == (Squawk { code }),
    {
        Self { code }
    }

    /// Wraps `code` if it has at most four octal digits.
    pub fn from_u16(code: u16) -> (r: Option<Self>)
        ensures
            r == (if code < 0o10000 {
                Some(Squawk { code })
            } else {
                None
            }),
    {
        if code < 0o10000 {
            Some(Self::from_u16_unchecked(code))
        } else {
            None
        }
    }

    /// Decodes the form in which each hexadecimal digit of `code` holds one
    /// octal digit of the Mode A code. The highest bit of each hexadecimal
    /// digit is not looked at.
    pub fn from_u16_hex(code: u16) -> (r: Self)
        ensures
            r == Self::of_hex(code),
            r.wf(),
    {
        let a: u16 = code / 0x1000 % 8;
        let b: u16 = code / 0x100 % 8;
        let c: u16 = code / 0x10 % 8;
        let d: u16 = code % 8;
        Squawk::from_u16_unchecked(a * 0o1000 + b * 0o100 + c * 0o10 + d)
    }

    pub fn as_u16(&self) -> (r: u16)
        ensures
            r == self.code,
    {
        self.code
    }
}

impl From<IcaoAddress> for u32 {
    fn from(value: IcaoAddress) -> (r: u32) {
        value.address
    }
}

impl vstd::std_specs::convert::FromSpecImpl<IcaoAddress> for u32 {
    open spec fn obeys_from_spec() -> bool {
        true
    }

    open spec fn from_spec(value: IcaoAddress) -> u32 {
        value.address
    }
}

impl From<Squawk> for u16 {
    fn from(value: Squawk) -> (r: u16) {
        value.code
    }
}

impl vstd::std_specs::convert::FromSpecImpl<Squawk> for u16 {
    open spec fn obeys_from_spec() -> bool {
        true
    }

    open spec fn from_spec(value: Squawk) -> u16 {
        value.code
    }
}

impl core::str::FromStr for IcaoAddress {
    type Err = IcaoAddressFromStrError;

    fn from_str(s: &str) -> (r: Result<Self, Self::Err>) {
        IcaoAddress::from_str(s)
    }
}

impl core::str::FromStr for Squawk {
    type Err = SquawkFromStrError;

    fn from_str(s: &str) -> (r: Result<Self, Self::Err>) {
        Squawk::from_str(s)
    }
}

} // verus!

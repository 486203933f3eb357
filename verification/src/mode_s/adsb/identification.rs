//! Aircraft identification messages (type codes 1 to 4): the wake vortex
//! category and the callsign.

use vstd::prelude::*;
use vstd::arithmetic::power2::lemma2_to64;
use vstd::string::StringExecFns;
use vstd::utf8::decode_utf8;
use vstd::utf8::encode_scalar;
use vstd::utf8::encode_utf8;
use vstd::utf8::encode_utf8_decode_utf8;
use vstd::utf8::encode_utf8_valid_utf8;
use vstd::utf8::is_ascii_chars;
use vstd::utf8::is_ascii_chars_encode_utf8;
use vstd::utf8::valid_utf8;
use core::str::Utf8Error;
use bytes::Bytes;
use crate::bits::bits;
use crate::bits::lemma_bits_in_byte;
use crate::bits::lemma_bits_across;
use crate::bits::read_u8;
use crate::buffer::array6;
use crate::buffer::get_bytes;
use crate::buffer::unread;
use crate::mode_s::DecodeError;

verus! {

/// `core::str::Utf8Error`, the error of reading bytes as text that are no
/// UTF-8. Nothing is said of what it holds.
#[verifier::external_type_specification]
#[verifier::external_body]
pub struct ExUtf8Error(core::str::Utf8Error);

/// `core::str::from_utf8`: bytes that are valid UTF-8 come back as the
/// string slice of the characters they encode; any other bytes give an
/// error.
#[verifier::external_body]
fn str_from_utf8(bytes: &[u8]) -> (r: Result<&str, Utf8Error>)
    ensures
        valid_utf8(bytes@) ==> r is Ok && r.unwrap()@ == decode_utf8(bytes@),
        !valid_utf8(bytes@) ==> r is Err,
{
    core::str::from_utf8(bytes)
}

/// Why a text is no callsign.
#[derive(Clone, Copy, Debug, PartialEq, Eq, Structural)]
pub enum InvalidCallsign {
    /// The character at the place `position` is none that a callsign can
    /// hold.
    InvalidChar { position: usize, character: char },
    /// The text is this many bytes long, which is more than eight.
    InvalidLength(usize),
}

/// A text has at most as many characters as it has bytes.
pub proof fn lemma_chars_within_bytes(text: Seq<char>)
    ensures
        text.len() <= encode_utf8(text).len(),
    decreases text.len(),
{
    if text.len() > 0 {
        lemma_chars_within_bytes(text.drop_first());
        assert(encode_scalar(text[0] as u32).len() >= 1);
    }
}

/// What kind of vehicle sends, as far as it bears on the wake it leaves.
/// The type code names a set of categories and the low three bits of the
/// type byte one category of the set.
#[derive(Clone, Copy, Debug, PartialEq, Eq, Structural, PartialOrd, Ord, Hash)]
pub enum WakeVortexCategory {
    Reserved { type_code: u8, category: u8 },
    NoCategoryInformation { type_code: u8 },
    SurfaceEmergencyVehicle,
    SurfaceServiceVehicle,
    GroundObstruction { category: u8 },
    GliderSailplane,
    LighterThanAir,
    ParachutistSkydiver,
    UltralightHangGliderParaGlider,
    UnmannedAerialVehicle,
    SpaceTransatmospherricVehicle,
    Light,
    Medium1,
    Medium2,
    HighVortexAirrcraft,
    Heavy,
    HighPerformance,
    Rotorcraft,
}

impl WakeVortexCategory {
    /// The table of categories. Category 0 of any set means that the
    /// category is not known; what the table does not name is reserved and
    /// keeps both numbers.
    pub open spec fn of_type_code_and_category(type_code: u8, category: u8) -> Self {
        if category == 0 {
            WakeVortexCategory::NoCategoryInformation { type_code }
        } else if type_code == 2 {
            if category == 1 {
                WakeVortexCategory::SurfaceEmergencyVehicle
            } else if category == 3 {
                WakeVortexCategory::SurfaceServiceVehicle
            } else if 4 <= category <= 7 {
                WakeVortexCategory::GroundObstruction { category }
            } else {
                WakeVortexCategory::Reserved { type_code, category }
            }
        } else if type_code == 3 {
            if category == 1 {
                WakeVortexCategory::GliderSailplane
            } else if category == 2 {
                WakeVortexCategory::LighterThanAir
            } else if category == 3 {
                WakeVortexCategory::ParachutistSkydiver
            } else if category == 4 {
                WakeVortexCategory::UltralightHangGliderParaGlider
            } else if category == 6 {
                WakeVortexCategory::UnmannedAerialVehicle
            } else if category == 7 {
                WakeVortexCategory::SpaceTransatmospherricVehicle
            } else {
                WakeVortexCategory::Reserved { type_code, category }
            }
        } else if type_code == 4 {
            if category == 1 {
                WakeVortexCategory::Light
            } else if category == 2 {
                WakeVortexCategory::Medium1
            } else if category == 3 {
                WakeVortexCategory::Medium2
            } else if category == 4 {
                WakeVortexCategory::HighVortexAirrcraft
            } else if category == 5 {
                WakeVortexCategory::Heavy
            } else if category == 6 {
                WakeVortexCategory::HighPerformance
            } else if category == 7 {
                WakeVortexCategory::Rotorcraft
            } else {
                WakeVortexCategory::Reserved { type_code, category }
            }
        } else {
            WakeVortexCategory::Reserved { type_code, category }
        }
    }

    /// Looks the category up without asking whether the two numbers are as
    /// wide as their fields.
    pub fn from_type_code_and_category_unchecked(type_code: u8, category: u8) -> (r: Self)
        ensures
            r == Self::of_type_code_and_category(type_code, category),
    {
        match (type_code, category) {
            (_, 0) => WakeVortexCategory::NoCategoryInformation { type_code },
            (2, 1) => WakeVortexCategory::SurfaceEmergencyVehicle,
            (2, 3) => WakeVortexCategory::SurfaceServiceVehicle,
            (2, 4..=7) => WakeVortexCategory::GroundObstruction { category },
            (3, 1) => WakeVortexCategory::GliderSailplane,
            (3, 2) => WakeVortexCategory::LighterThanAir,
            (3, 3) => WakeVortexCategory::ParachutistSkydiver,
            (3, 4) => WakeVortexCategory::UltralightHangGliderParaGlider,
            (3, 6) => WakeVortexCategory::UnmannedAerialVehicle,
            (3, 7) => WakeVortexCategory::SpaceTransatmospherricVehicle,
            (4, 1) => WakeVortexCategory::Light,
            (4, 2) => WakeVortexCategory::Medium1,
            (4, 3) => WakeVortexCategory::Medium2,
            (4, 4) => WakeVortexCategory::HighVortexAirrcraft,
            (4, 5) => WakeVortexCategory::Heavy,
            (4, 6) => WakeVortexCategory::HighPerformance,
            (4, 7) => WakeVortexCategory::Rotorcraft,
            _ => WakeVortexCategory::Reserved { type_code, category },
        }
    }

    /// Looks the category up if the type code fits in five bits and the
    /// category in three.
    pub fn from_type_code_and_category(type_code: u8, category: u8) -> (r: Option<Self>)
        ensures
            r == (if type_code < 32 && category < 8 {
                Some(Self::of_type_code_and_category(type_code, category))
            } else {
                None
            }),
    {
        if type_code < 32 && category < 8 {
            Some(Self::from_type_code_and_category_unchecked(type_code, category))
        } else {
            None
        }
    }
}

/// The character that stands for no character in the callsign table.
pub const CALLSIGN_NO_CHARACTER: u8 = 35;

/// The callsign table: the ASCII character that each six-bit group stands
/// for. Groups 1 to 26 stand for `A` to `Z`, 32 for the space, 48 to 57 for
/// `0` to `9`. Every other group stands for no character, which the table
/// marks with `#`:
///
/// ```text
/// #ABCDEFGHIJKLMNOPQRSTUVWXYZ##### ###############0123456789######
/// ```
pub open spec fn callsign_encoding(group: nat) -> u8 {
    if 1 <= group <= 26 {
        (group + 64) as u8
    } else if group == 32 || 48 <= group <= 57 {
        group as u8
    } else {
        CALLSIGN_NO_CHARACTER
    }
}

/// Whether `byte` is a character that a callsign can hold: a capital
/// letter, a digit or the space.
pub open spec fn is_callsign_byte(byte: u8) -> bool {
    65 <= byte <= 90 || 48 <= byte <= 57 || byte == 32
}

/// Whether `c` is a character that a callsign can hold.
pub open spec fn is_callsign_char(c: char) -> bool {
    'A' <= c <= 'Z' || '0' <= c <= '9' || c == ' '
}

/// The six-bit group that stands for a callsign character: its low six
/// bits.
pub open spec fn callsign_group(byte: u8) -> nat {
    (byte % 64) as nat
}

/// Looks a six-bit group up in the callsign table.
pub fn callsign_character(group: u8) -> (r: u8)
    ensures
        r == callsign_encoding(group as nat),
        r != CALLSIGN_NO_CHARACTER ==> is_callsign_byte(r) && callsign_group(r) == group,
{
    if 1 <= group && group <= 26 {
        group + 64
    } else if group == 32 || (48 <= group && group <= 57) {
        group
    } else {
        CALLSIGN_NO_CHARACTER
    }
}

/// Whether `c` is a character that a callsign can hold.
pub fn valid_callsign_char(c: char) -> (r: bool)
    ensures
        r == is_callsign_char(c),
{
    ('A' <= c && c <= 'Z') || ('0' <= c && c <= '9') || c == ' '
}

/// A callsign of eight characters, each a capital letter, a digit or the
/// space. Shorter names are filled up with spaces.
#[derive(Clone, Copy, Debug, PartialEq, Eq, PartialOrd, Ord, Hash)]
pub struct Callsign {
    pub characters: [u8; 8],
}

impl Callsign {
    /// The number of characters of a callsign.
    pub const LENGTH: usize = 8;

    /// Every character is one that a callsign can hold.
    pub open spec fn wf(&self) -> bool {
        forall|i: int| 0 <= i < 8 ==> is_callsign_byte(#[trigger] self.characters[i])
    }

    /// The six-bit group at place `i` of the six bytes of a callsign.
    pub open spec fn group_at(bytes: [u8; 6], i: int) -> nat {
        bits(bytes@, 6 * i, 6)
    }

    /// The first place from `i` on whose group stands for no character, or
    /// 8 if there is none.
    pub open spec fn first_invalid_from(bytes: [u8; 6], i: int) -> int
        decreases 8 - i,
    {
        if i >= 8 {
            8
        } else if callsign_encoding(Self::group_at(bytes, i)) == CALLSIGN_NO_CHARACTER {
            i
        } else {
            Self::first_invalid_from(bytes, i + 1)
        }
    }

    /// The characters that the eight groups stand for.
    pub open spec fn characters_of(bytes: [u8; 6]) -> [u8; 8] {
        [
            callsign_encoding(Self::group_at(bytes, 0)),
            callsign_encoding(Self::group_at(bytes, 1)),
            callsign_encoding(Self::group_at(bytes, 2)),
            callsign_encoding(Self::group_at(bytes, 3)),
            callsign_encoding(Self::group_at(bytes, 4)),
            callsign_encoding(Self::group_at(bytes, 5)),
            callsign_encoding(Self::group_at(bytes, 6)),
            callsign_encoding(Self::group_at(bytes, 7)),
        ]
    }

    /// The callsign that six bytes spell out: eight groups of six bits,
    /// each looked up in the table. Where a group stands for no character
    /// there is no callsign, and the error names the first such group.
    pub open spec fn of_bytes(bytes: [u8; 6]) -> Result<Self, DecodeError> {
        let at = Self::first_invalid_from(bytes, 0);
        if at < 8 {
            Err(
                DecodeError::InvalidCallsign {
                    encoding: bytes,
                    byte: Self::group_at(bytes, at) as u8,
                },
            )
        } else {
            Ok(Callsign { characters: Self::characters_of(bytes) })
        }
    }

    /// The six bytes whose eight groups stand for the characters.
    #[verifier::opaque]
    pub open spec fn packed(&self) -> [u8; 6] {
        let g0 = callsign_group(self.characters[0]);
        let g1 = callsign_group(self.characters[1]);
        let g2 = callsign_group(self.characters[2]);
        let g3 = callsign_group(self.characters[3]);
        let g4 = callsign_group(self.characters[4]);
        let g5 = callsign_group(self.characters[5]);
        let g6 = callsign_group(self.characters[6]);
        let g7 = callsign_group(self.characters[7]);
        [
            (g0 * 4 + g1 / 16) as u8,
            (g1 % 16 * 16 + g2 / 4) as u8,
            (g2 % 4 * 64 + g3) as u8,
            (g4 * 4 + g5 / 16) as u8,
            (g5 % 16 * 16 + g6 / 4) as u8,
            (g6 % 4 * 64 + g7) as u8,
        ]
    }

    /// The eight groups of six bytes in arithmetic: four groups to three
    /// bytes.
    pub proof fn lemma_groups(bytes: [u8; 6])
        ensures
            Self::group_at(bytes, 0) == bytes[0] / 4,
            Self::group_at(bytes, 1) == bytes[0] % 4 * 16 + bytes[1] / 16,
            Self::group_at(bytes, 2) == bytes[1] % 16 * 4 + bytes[2] / 64,
            Self::group_at(bytes, 3) == bytes[2] % 64,
            Self::group_at(bytes, 4) == bytes[3] / 4,
            Self::group_at(bytes, 5) == bytes[3] % 4 * 16 + bytes[4] / 16,
            Self::group_at(bytes, 6) == bytes[4] % 16 * 4 + bytes[5] / 64,
            Self::group_at(bytes, 7) == bytes[5] % 64,
    {
        lemma2_to64();
        let s = bytes@;
        assert(bits(s, 0, 6) == s[0] / 4) by {
            lemma_bits_in_byte(s, 0, 0, 6);
        }
        assert(bits(s, 6, 6) == s[0] % 4 * 16 + s[1] / 16) by {
            lemma_bits_across(s, 0, 2, 4);
        }
        assert(bits(s, 12, 6) == s[1] % 16 * 4 + s[2] / 64) by {
            lemma_bits_across(s, 1, 4, 2);
        }
        assert(bits(s, 18, 6) == s[2] % 64) by {
            lemma_bits_in_byte(s, 2, 2, 6);
        }
        assert(bits(s, 24, 6) == s[3] / 4) by {
            lemma_bits_in_byte(s, 3, 0, 6);
        }
        assert(bits(s, 30, 6) == s[3] % 4 * 16 + s[4] / 16) by {
            lemma_bits_across(s, 3, 2, 4);
        }
        assert(bits(s, 36, 6) == s[4] % 16 * 4 + s[5] / 64) by {
            lemma_bits_across(s, 4, 4, 2);
        }
        assert(bits(s, 42, 6) == s[5] % 64) by {
            lemma_bits_in_byte(s, 5, 2, 6);
        }
    }

    /// The groups of a packed callsign are the groups of its characters.
    pub proof fn lemma_packed_groups(self)
        ensures
            forall|i: int|
                0 <= i < 8 ==> #[trigger] Self::group_at(self.packed(), i) == callsign_group(
                    self.characters[i],
                ),
    {
        reveal(Callsign::packed);
        let packed = self.packed();
        Self::lemma_groups(packed);
        let c = self.characters;
        assert(Self::group_at(packed, 0) == c[0] % 64);
        assert(Self::group_at(packed, 1) == c[1] % 64);
        assert(Self::group_at(packed, 2) == c[2] % 64);
        assert(Self::group_at(packed, 3) == c[3] % 64);
        assert(Self::group_at(packed, 4) == c[4] % 64);
        assert(Self::group_at(packed, 5) == c[5] % 64);
        assert(Self::group_at(packed, 6) == c[6] % 64);
        assert(Self::group_at(packed, 7) == c[7] % 64);
    }

    /// Where every group stands for a character, there is no first that
    /// does not.
    proof fn lemma_all_valid(bytes: [u8; 6])
        requires
            forall|i: int|
                0 <= i < 8 ==> callsign_encoding(#[trigger] Self::group_at(bytes, i))
                    != CALLSIGN_NO_CHARACTER,
        ensures
            Self::first_invalid_from(bytes, 0) == 8,
    {
        assert(Self::first_invalid_from(bytes, 8) == 8);
        assert(Self::first_invalid_from(bytes, 7) == 8);
        assert(Self::first_invalid_from(bytes, 6) == 8);
        assert(Self::first_invalid_from(bytes, 5) == 8);
        assert(Self::first_invalid_from(bytes, 4) == 8);
        assert(Self::first_invalid_from(bytes, 3) == 8);
        assert(Self::first_invalid_from(bytes, 2) == 8);
        assert(Self::first_invalid_from(bytes, 1) == 8);
    }

    /// The group at place `i` of a packed callsign stands for its
    /// character at place `i`.
    proof fn lemma_packed_character(self, i: int)
        requires
            self.wf(),
            0 <= i < 8,
        ensures
            callsign_encoding(Self::group_at(self.packed(), i)) == self.characters[i],
            self.characters[i] != CALLSIGN_NO_CHARACTER,
    {
        self.lemma_packed_groups();
        assert(is_callsign_byte(self.characters[i]));
        assert(Self::group_at(self.packed(), i) == callsign_group(self.characters[i]));
    }

    /// Packing a callsign into six bytes and decoding them gives the
    /// callsign again.
    pub proof fn lemma_round_trip(self)
        requires
            self.wf(),
        ensures
            Self::of_bytes(self.packed()) == Ok::<Callsign, DecodeError>(self),
    {
        let packed = self.packed();
        self.lemma_packed_character(0);
        self.lemma_packed_character(1);
        self.lemma_packed_character(2);
        self.lemma_packed_character(3);
        self.lemma_packed_character(4);
        self.lemma_packed_character(5);
        self.lemma_packed_character(6);
        self.lemma_packed_character(7);
        assert(Self::first_invalid_from(packed, 0) == 8) by {
            Self::lemma_all_valid(packed);
        }
        assert(Self::characters_of(packed) =~= self.characters);
    }

    /// The callsign as text: its eight characters.
    pub open spec fn text(&self) -> Seq<char> {
        Seq::new(8, |i: int| self.characters[i] as char)
    }

    /// The byte at place `i` of a callsign made from `text`: the character
    /// at that place, or a space behind the end of the text.
    pub open spec fn filled_at(text: Seq<char>, i: int) -> u8 {
        if i < text.len() {
            text[i] as u8
        } else {
            32
        }
    }

    /// The first place from `i` on that holds a character that a callsign
    /// cannot hold, or the length of the text if there is none.
    pub open spec fn first_invalid_char_from(text: Seq<char>, i: int) -> int
        decreases text.len() - i,
    {
        if i >= text.len() {
            text.len() as int
        } else if !is_callsign_char(text[i]) {
            i
        } else {
            Self::first_invalid_char_from(text, i + 1)
        }
    }

    /// The callsign that a text stands for: the text itself, filled up
    /// with spaces to eight characters. A text of more than eight bytes is
    /// too long, and the error tells its length in bytes; in a text that is
    /// not, the first character that a callsign cannot hold is the fault.
    pub open spec fn parsed(text: Seq<char>) -> Result<Self, InvalidCallsign> {
        let length = encode_utf8(text).len();
        let at = Self::first_invalid_char_from(text, 0);
        if length > 8 {
            Err(InvalidCallsign::InvalidLength(length as usize))
        } else if at < text.len() {
            Err(InvalidCallsign::InvalidChar { position: at as usize, character: text[at] })
        } else {
            Ok(
                Callsign {
                    characters: [
                        Self::filled_at(text, 0),
                        Self::filled_at(text, 1),
                        Self::filled_at(text, 2),
                        Self::filled_at(text, 3),
                        Self::filled_at(text, 4),
                        Self::filled_at(text, 5),
                        Self::filled_at(text, 6),
                        Self::filled_at(text, 7),
                    ],
                },
            )
        }
    }

    /// The eight characters of the callsign as a string slice.
    pub fn as_str(&self) -> (r: &str)
        requires
            self.wf(),
        ensures
            r@ == self.text(),
    {
        proof {
            let text = self.text();
            assert(is_ascii_chars(text)) by {
                assert forall|i: int| 0 <= i < text.len() implies '\0' <= #[trigger] text[i]
                    <= '\u{7f}' by {
                    assert(is_callsign_byte(self.characters[i]));
                }
            }
            is_ascii_chars_encode_utf8(text);
            assert(encode_utf8(text) =~= self.characters@) by {
                assert forall|i: int| 0 <= i < 8 implies encode_utf8(text)[i]
                    == self.characters@[i] by {
                    assert(text[i] as u8 == encode_utf8(text)[i]);
                    assert(is_callsign_byte(self.characters[i]));
                }
            }
            encode_utf8_valid_utf8(text);
            encode_utf8_decode_utf8(text);
        }
        match str_from_utf8(&self.characters) {
            Ok(text) => text,
            Err(_) => vstd::pervasive::unreached(),
        }
    }

    /// The eight characters of the callsign as a string.
    pub fn to_string(&self) -> (r: String)
        requires
            self.wf(),
        ensures
            r@ == self.text(),
    {
        String::from_str(self.as_str())
    }

    /// The callsign named with its type: `Callsign("` and `")` around the
    /// text.
    pub fn describe(&self) -> (r: String)
        requires
            self.wf(),
        ensures
            r@ == "Callsign(\""@ + self.text() + "\")"@,
    {
        String::from_str("Callsign(\"").concat(self.as_str()).concat("\")")
    }

    /// Reads a callsign from text of at most eight characters.
    pub fn from_str(s: &str) -> (r: Result<Self, InvalidCallsign>)
        ensures
            r == Self::parsed(s@),
            r matches Ok(callsign) ==> callsign.wf(),
    {
        let length: usize = s.as_bytes().len();
        if length > 8 {
            return Err(InvalidCallsign::InvalidLength(length));
        }
        let count: usize = s.unicode_len();
        proof {
            lemma_chars_within_bytes(s@);
        }
        let mut characters: [u8; 8] = [32u8; 8];
        let mut i: usize = 0;
        while i < count
            invariant
                i <= count <= 8,
                count == s@.len(),
                encode_utf8(s@).len() <= 8,
                Self::first_invalid_char_from(s@, 0) == Self::first_invalid_char_from(s@, i as int),
                forall|j: int| 0 <= j < i ==> #[trigger] characters[j] == s@[j] as u8,
                forall|j: int| i <= j < 8 ==> #[trigger] characters[j] == 32,
                forall|j: int| 0 <= j < 8 ==> is_callsign_byte(#[trigger] characters[j]),
            decreases count - i,
        {
            let c: char = s.get_char(i);
            if !valid_callsign_char(c) {
                return Err(InvalidCallsign::InvalidChar { position: i, character: c });
            }
            characters[i] = c as u8;
            i = i + 1;
        }
        let r = Self { characters };
        proof {
            let expected = Self::parsed(s@);
            assert(expected is Ok);
            assert(expected.unwrap().characters =~= characters);
        }
        Ok(r)
    }

    /// Reading a callsign as text and reading the text as a callsign gives
    /// the callsign again.
    pub proof fn lemma_text_round_trip(self)
        requires
            self.wf(),
        ensures
            Self::parsed(self.text()) == Ok::<Callsign, InvalidCallsign>(self),
    {
        let text = self.text();
        assert(is_ascii_chars(text)) by {
            assert forall|i: int| 0 <= i < text.len() implies '\0' <= #[trigger] text[i]
                <= '\u{7f}' by {
                assert(is_callsign_byte(self.characters[i]));
            }
        }
        is_ascii_chars_encode_utf8(text);
        assert forall|i: int| 0 <= i < 8 implies is_callsign_char(#[trigger] text[i])
            && Self::filled_at(text, i) == self.characters[i] by {
            assert(is_callsign_byte(self.characters[i]));
        }
        assert(Self::first_invalid_char_from(text, 8) == 8);
        assert(Self::first_invalid_char_from(text, 7) == 8);
        assert(Self::first_invalid_char_from(text, 6) == 8);
        assert(Self::first_invalid_char_from(text, 5) == 8);
        assert(Self::first_invalid_char_from(text, 4) == 8);
        assert(Self::first_invalid_char_from(text, 3) == 8);
        assert(Self::first_invalid_char_from(text, 2) == 8);
        assert(Self::first_invalid_char_from(text, 1) == 8);
        assert(Self::first_invalid_char_from(text, 0) == 8);
        assert(Self::parsed(text).unwrap().characters =~= self.characters);
    }

    /// Decodes the six bytes of a callsign.
    pub fn from_bytes(bytes: [u8; 6]) -> (r: Result<Self, DecodeError>)
        ensures
            r == Self::of_bytes(bytes),
            r matches Ok(c) ==> c.wf(),
    {
        let mut characters: [u8; 8] = [0u8; 8];
        let mut i: usize = 0;
        proof {
            lemma2_to64();
        }
        while i < 8
            invariant
                i <= 8,
                Self::first_invalid_from(bytes, 0) == Self::first_invalid_from(bytes, i as int),
                forall|j: int|
                    0 <= j < i ==> characters[j] == callsign_encoding(Self::group_at(bytes, j))
                        && is_callsign_byte(#[trigger] characters[j]),
            decreases 8 - i,
        {
            let group: u8 = read_u8(&bytes, 6 * i, 6);
            let resolved: u8 = callsign_character(group);
            if resolved == CALLSIGN_NO_CHARACTER {
                return Err(DecodeError::InvalidCallsign { encoding: bytes, byte: group });
            }
            characters[i] = resolved;
            i = i + 1;
        }
        assert(characters =~= Self::characters_of(bytes));
        Ok(Self { characters })
    }

    /// Packs the characters into six bytes, six bits for each.
    pub fn encode(&self) -> (r: [u8; 6])
        requires
            self.wf(),
        ensures
            r == self.packed(),
    {
        proof {
            reveal(Callsign::packed);
        }
        let g0: u8 = self.characters[0] % 64;
        let g1: u8 = self.characters[1] % 64;
        let g2: u8 = self.characters[2] % 64;
        let g3: u8 = self.characters[3] % 64;
        let g4: u8 = self.characters[4] % 64;
        let g5: u8 = self.characters[5] % 64;
        let g6: u8 = self.characters[6] % 64;
        let g7: u8 = self.characters[7] % 64;
        let r = [
            g0 * 4 + g1 / 16,
            g1 % 16 * 16 + g2 / 4,
            g2 % 4 * 64 + g3,
            g4 * 4 + g5 / 16,
            g5 % 16 * 16 + g6 / 4,
            g6 % 4 * 64 + g7,
        ];
        assert(r =~= self.packed());
        r
    }
}

impl core::str::FromStr for Callsign {
    type Err = InvalidCallsign;

    fn from_str(s: &str) -> (r: Result<Self, Self::Err>) {
        Callsign::from_str(s)
    }
}

/// An aircraft identification message.
#[derive(Clone, Copy, Debug, PartialEq, Eq)]
pub struct AircraftIdentification {
    pub wake_vortex_category: WakeVortexCategory,
    pub callsign: Callsign,
}

impl AircraftIdentification {
    /// The message that `payload` spells out after a type byte with type
    /// code `type_code` and low three bits `bits_6_to_8`, the category.
    pub open spec fn of_payload(payload: [u8; 6], type_code: u8, bits_6_to_8: u8) -> Result<
        Self,
        DecodeError,
    > {
        match Callsign::of_bytes(payload) {
            Ok(callsign) => Ok(
                AircraftIdentification {
                    wake_vortex_category: WakeVortexCategory::of_type_code_and_category(
                        type_code,
                        bits_6_to_8,
                    ),
                    callsign,
                },
            ),
            Err(e) => Err(e),
        }
    }

    /// Decodes the six bytes after the type byte.
    pub fn from_payload(payload: [u8; 6], type_code: u8, bits_6_to_8: u8) -> (r: Result<
        Self,
        DecodeError,
    >)
        ensures
            r == Self::of_payload(payload, type_code, bits_6_to_8),
            r matches Ok(m) ==> m.callsign.wf(),
    {
        let wake_vortex_category = WakeVortexCategory::from_type_code_and_category_unchecked(
            type_code,
            bits_6_to_8,
        );
        match Callsign::from_bytes(payload) {
            Ok(callsign) => Ok(Self { wake_vortex_category, callsign }),
            Err(e) => Err(e),
        }
    }

    /// Reads the six bytes after the type byte from `buffer` and decodes
    /// them as [`AircraftIdentification::from_payload`] does. The six bytes
    /// are read also where they hold no callsign.
    pub fn decode(buffer: &mut Bytes, type_code: u8, bits_6_to_8: u8) -> (r: Result<
        Self,
        DecodeError,
    >)
        requires
            unread(*old(buffer)).len() >= 6,
        ensures
            r == Self::of_payload(array6(unread(*old(buffer))), type_code, bits_6_to_8),
            r matches Ok(m) ==> m.callsign.wf(),
            unread(*final(buffer)) == unread(*old(buffer)).skip(6),
    {
        let payload: [u8; 6] = get_bytes(buffer);
        assert(payload =~= array6(unread(*old(buffer))));
        Self::from_payload(payload, type_code, bits_6_to_8)
    }
}

} // verus!

//! Hexadecimal fields of the pairing files.
use vstd::prelude::*;
use vstd::string::StringExecFns;

verus! {

/// Why a hexadecimal field was refused.
#[derive(Clone, Copy, Debug, PartialEq, Eq, Structural)]
pub enum HexError {
    /// The text has an odd number of bytes, or more than the field allows.
    Size,
    /// The text holds something that is no hexadecimal digit.
    Character,
    /// The text decodes to fewer bytes than the field needs.
    Length,
}

impl HexError {
    /// The message shown for this refusal.
    pub open spec fn message(self) -> Seq<char> {
        match self {
            HexError::Size => "hex field exceeds its allowed size"@,
            HexError::Character => "hex field contains invalid characters"@,
            HexError::Length => "hex field has an invalid length"@,
        }
    }

    /// The message shown for this refusal.
    pub fn text(&self) -> (text: &'static str)
        ensures
            text@ == self.message(),
    {
        match self {
            HexError::Size => "hex field exceeds its allowed size",
            HexError::Character => "hex field contains invalid characters",
            HexError::Length => "hex field has an invalid length",
        }
    }
}

/// The value of one hexadecimal digit, in either case.
pub open spec fn nibble(byte: u8) -> Option<int> {
    if 48 <= byte <= 57 {
        Some(byte - 48)
    } else if 97 <= byte <= 102 {
        Some(byte - 97 + 10)
    } else if 65 <= byte <= 70 {
        Some(byte - 65 + 10)
    } else {
        None
    }
}

/// The lower-case digit that stands for `value`.
pub open spec fn digit(value: int) -> char {
    if value < 10 {
        (48 + value) as char
    } else {
        (97 + value - 10) as char
    }
}

/// `bytes` in lower-case hexadecimal, two digits for each byte.
pub open spec fn hex_text(bytes: Seq<u8>) -> Seq<char> {
    Seq::new(
        2 * bytes.len(),
        |i: int| digit(if i % 2 == 0 { bytes[i / 2] as int / 16 } else { bytes[i / 2] as int % 16 }),
    )
}

/// Every byte is a hexadecimal digit.
pub open spec fn all_digits(bytes: Seq<u8>) -> bool {
    forall|i: int| 0 <= i < bytes.len() ==> nibble(#[trigger] bytes[i]) is Some
}

/// The bytes that pairs of hexadecimal digits stand for.
pub open spec fn paired(digits: Seq<u8>) -> Seq<u8> {
    Seq::new(
        digits.len() / 2,
        |i: int| (nibble(digits[2 * i])->0 * 16 + nibble(digits[2 * i + 1])->0) as u8,
    )
}

/// What a field of at most `maximum` bytes decodes to.
pub open spec fn decoded(text: Seq<char>, maximum: nat) -> Result<Seq<u8>, HexError> {
    let bytes = vstd::utf8::encode_utf8(text);
    if bytes.len() % 2 != 0 || bytes.len() > 2 * maximum {
        Err(HexError::Size)
    } else if !all_digits(bytes) {
        Err(HexError::Character)
    } else {
        Ok(paired(bytes))
    }
}

/// What a field of exactly `length` bytes decodes to.
pub open spec fn decoded_fixed(text: Seq<char>, length: nat) -> Result<Seq<u8>, HexError> {
    match decoded(text, length) {
        Ok(bytes) => if bytes.len() == length {
            Ok(bytes)
        } else {
            Err(HexError::Length)
        },
        Err(error) => Err(error),
    }
}

/// What hexadecimal encoding wrote, decoding gives back.
pub proof fn law_decode_undoes_encode(bytes: Seq<u8>, maximum: nat)
    requires
        bytes.len() <= maximum,
    ensures
        decoded(hex_text(bytes), maximum) == Ok::<Seq<u8>, HexError>(bytes),
        decoded_fixed(hex_text(bytes), bytes.len()) == Ok::<Seq<u8>, HexError>(bytes),
{
    let text = hex_text(bytes);
    assert(vstd::utf8::is_ascii_chars(text)) by {
        assert forall|i: int| 0 <= i < text.len() implies 0 <= #[trigger] text[i] as nat <= 127 by {
            assert(bytes[i / 2] as int / 16 < 16);
        }
    }
    vstd::utf8::is_ascii_chars_encode_utf8(text);
    let raw = vstd::utf8::encode_utf8(text);
    assert forall|i: int| 0 <= i < raw.len() implies nibble(#[trigger] raw[i]) == Some(
        if i % 2 == 0 { bytes[i / 2] as int / 16 } else { bytes[i / 2] as int % 16 },
    ) by {
        assert(raw[i] == text[i] as u8);
    }
    assert(paired(raw) =~= bytes) by {
        assert forall|i: int| 0 <= i < bytes.len() implies #[trigger] paired(raw)[i] == bytes[i] by {
            assert(raw[2 * i] == text[2 * i] as u8);
            assert(raw[2 * i + 1] == text[2 * i + 1] as u8);
            assert((2 * i) / 2 == i && (2 * i + 1) / 2 == i);
            assert((2 * i) % 2 == 0 && (2 * i + 1) % 2 == 1);
        }
    }
}

/// Two byte strings with the same hexadecimal text are the same.
pub proof fn law_encode_is_injective(a: Seq<u8>, b: Seq<u8>)
    requires
        hex_text(a) == hex_text(b),
    ensures
        a == b,
{
    let maximum = if a.len() < b.len() { b.len() } else { a.len() };
    law_decode_undoes_encode(a, maximum);
    law_decode_undoes_encode(b, maximum);
}

/// A decoded field is never longer than it may be.
pub proof fn law_decoded_is_bounded(text: Seq<char>, maximum: nat)
    ensures
        decoded(text, maximum) matches Ok(bytes) ==> bytes.len() <= maximum,
        decoded_fixed(text, maximum) matches Ok(bytes) ==> bytes.len() == maximum,
{
}

/// Hexadecimal text has two digits for each byte, the upper half first, and no
/// other characters than 0 to 9 and a to f.
pub proof fn law_encoded_digits_stand_for_their_byte(bytes: Seq<u8>, i: int)
    requires
        0 <= i < bytes.len(),
    ensures
        ({
            let text = hex_text(bytes);
            let upper = text[2 * i];
            let lower = text[2 * i + 1];
            &&& text.len() == 2 * bytes.len()
            &&& '0' <= upper <= '9' || 'a' <= upper <= 'f'
            &&& '0' <= lower <= '9' || 'a' <= lower <= 'f'
            &&& upper <= '9' ==> bytes[i] / 16 == upper as int - '0' as int
            &&& upper >= 'a' ==> bytes[i] / 16 == upper as int - 'a' as int + 10
            &&& lower <= '9' ==> bytes[i] % 16 == lower as int - '0' as int
            &&& lower >= 'a' ==> bytes[i] % 16 == lower as int - 'a' as int + 10
        }),
{
    assert((2 * i) / 2 == i && (2 * i + 1) / 2 == i);
    assert((2 * i) % 2 == 0 && (2 * i + 1) % 2 == 1);
}

/// Digits count in either case, and nothing else does.
pub proof fn law_digits_count_in_either_case(byte: u8)
    ensures
        nibble(byte) is Some <==> 48 <= byte <= 57 || 65 <= byte <= 70 || 97 <= byte <= 102,
        65 <= byte <= 70 ==> nibble(byte) == nibble((byte + 32) as u8),
        nibble(byte) matches Some(value) ==> 0 <= value < 16,
        48 <= byte < 57 || 65 <= byte < 70 || 97 <= byte < 102 ==> nibble((byte + 1) as u8)->Some_0
            == nibble(byte)->Some_0 + 1,
        nibble(48) == Some(0int),
        nibble(97) == Some(10int),
{
}

/// A field is refused for its size where its digits are odd in number or too
/// many, and for its characters where one is no digit; else it decodes, and each
/// byte is sixteen times its first digit and its second. A field of fixed length
/// is also refused where it is shorter.
pub proof fn law_fields_decode_pair_by_pair(text: Seq<char>, maximum: nat, i: int)
    ensures
        ({
            let raw = vstd::utf8::encode_utf8(text);
            &&& raw.len() % 2 != 0 || raw.len() > 2 * maximum <==> decoded(text, maximum) == Err::<
                Seq<u8>,
                HexError,
            >(HexError::Size)
            &&& decoded(text, maximum) matches Ok(bytes) ==> {
                &&& 2 * bytes.len() == raw.len()
                &&& 0 <= i < bytes.len() ==> {
                    &&& nibble(raw[2 * i]) is Some
                    &&& nibble(raw[2 * i + 1]) is Some
                    &&& bytes[i] == 16 * nibble(raw[2 * i])->Some_0 + nibble(
                        raw[2 * i + 1],
                    )->Some_0
                }
            }
            &&& decoded_fixed(text, maximum) == Err::<Seq<u8>, HexError>(HexError::Length) <==> (
            decoded(text, maximum) matches Ok(bytes) && bytes.len() < maximum)
        }),
{
}

/// The value of one hexadecimal digit.
pub fn decode_hex_nibble(value: u8) -> (result: Result<u8, HexError>)
    ensures
        result == match nibble(value) {
            Some(digit) => Ok::<u8, HexError>(digit as u8),
            None => Err(HexError::Character),
        },
{
    if 48 <= value && value <= 57 {
        Ok(value - 48)
    } else if 97 <= value && value <= 102 {
        Ok(value - 97 + 10)
    } else if 65 <= value && value <= 70 {
        Ok(value - 65 + 10)
    } else {
        Err(HexError::Character)
    }
}

/// Decodes a field of at most `maximum_bytes` bytes.
pub fn decode_hex_bounded(value: &str, maximum_bytes: usize) -> (result: Result<Vec<u8>, HexError>)
    ensures
        match result {
            Ok(bytes) => decoded(value@, maximum_bytes as nat) == Ok::<Seq<u8>, HexError>(bytes@),
            Err(error) => decoded(value@, maximum_bytes as nat) == Err::<Seq<u8>, HexError>(error),
        },
{
    let text: &[u8] = value.as_bytes();
    if text.len() % 2 != 0 || text.len() / 2 > maximum_bytes {
        return Err(HexError::Size);
    }
    let mut decoded_bytes: Vec<u8> = Vec::new();
    let mut i: usize = 0;
    while i < text.len()
        invariant
            text@ == vstd::utf8::encode_utf8(value@),
            text@.len() % 2 == 0,
            text@.len() <= 2 * maximum_bytes,
            i <= text@.len(),
            i % 2 == 0,
            decoded_bytes@.len() == i / 2,
            forall|k: int| 0 <= k < i ==> nibble(#[trigger] text@[k]) is Some,
            decoded_bytes@ =~= paired(text@).take(i as int / 2),
        decreases text@.len() - i,
    {
        let high: u8 = match decode_hex_nibble(text[i]) {
            Ok(high) => high,
            Err(error) => {
                assert(nibble(text@[i as int]) is None);
                return Err(error);
            },
        };
        let low: u8 = match decode_hex_nibble(text[i + 1]) {
            Ok(low) => low,
            Err(error) => {
                assert(nibble(text@[i + 1]) is None);
                return Err(error);
            },
        };
        decoded_bytes.push(high * 16 + low);
        i += 2;
    }
    assert(decoded_bytes@ =~= paired(text@));
    Ok(decoded_bytes)
}

/// Decodes a field of exactly `N` bytes.
pub fn decode_fixed<const N: usize>(value: &str) -> (result: Result<[u8; N], HexError>)
    ensures
        match result {
            Ok(bytes) => decoded_fixed(value@, N as nat) == Ok::<Seq<u8>, HexError>(bytes@),
            Err(error) => decoded_fixed(value@, N as nat) == Err::<Seq<u8>, HexError>(error),
        },
{
    let bytes: Vec<u8> = match decode_hex_bounded(value, N) {
        Ok(bytes) => bytes,
        Err(error) => return Err(error),
    };
    if bytes.len() != N {
        return Err(HexError::Length);
    }
    Ok(to_array(&bytes))
}

/// The bytes of `bytes` as an array of that length.
pub fn to_array<const N: usize>(bytes: &Vec<u8>) -> (array: [u8; N])
    requires
        bytes@.len() == N,
    ensures
        array@ == bytes@,
{
    let mut array: [u8; N] = [0u8; N];
    let mut i: usize = 0;
    while i < N
        invariant
            i <= N,
            bytes@.len() == N,
            forall|k: int| 0 <= k < i ==> array@[k] == bytes@[k],
        decreases N - i,
    {
        array[i] = bytes[i];
        i += 1;
    }
    assert(array@ =~= bytes@);
    array
}

/// The digit that stands for a value below sixteen.
fn digit_text(value: u8) -> (text: &'static str)
    requires
        value < 16,
    ensures
        text@ == seq![digit(value as int)],
{
    proof {
        reveal_strlit("0");
        reveal_strlit("1");
        reveal_strlit("2");
        reveal_strlit("3");
        reveal_strlit("4");
        reveal_strlit("5");
        reveal_strlit("6");
        reveal_strlit("7");
        reveal_strlit("8");
        reveal_strlit("9");
        reveal_strlit("a");
        reveal_strlit("b");
        reveal_strlit("c");
        reveal_strlit("d");
        reveal_strlit("e");
        reveal_strlit("f");
    }
    let text: &'static str = match value {
        0 => "0",
        1 => "1",
        2 => "2",
        3 => "3",
        4 => "4",
        5 => "5",
        6 => "6",
        7 => "7",
        8 => "8",
        9 => "9",
        10 => "a",
        11 => "b",
        12 => "c",
        13 => "d",
        14 => "e",
        _ => "f",
    };
    assert(text@ =~= seq![digit(value as int)]);
    text
}

/// `bytes` in lower-case hexadecimal.
pub fn encode_hex(bytes: &[u8]) -> (text: String)
    ensures
        text@ == hex_text(bytes@),
{
    let mut text: String = String::new();
    let mut i: usize = 0;
    while i < bytes.len()
        invariant
            i <= bytes@.len(),
            text@.len() == 2 * i,
            text@ =~= hex_text(bytes@).take(2 * i),
        decreases bytes@.len() - i,
    {
        let byte: u8 = bytes[i];
        text.append(digit_text(byte / 16));
        text.append(digit_text(byte % 16));
        i += 1;
    }
    text
}

} // verus!

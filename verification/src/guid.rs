//! Device GUIDs and their textual hex form.
//!
//! A GUID is a 16-byte stable identifier for a device model.  The native
//! library renders it as 32 hex digits (lower case, two digits per byte,
//! high nibble first) and parses that form back; both directions are
//! implemented and verified here, including the round-trip law.

use vstd::prelude::*;

verus! {

/// A 16-byte device identifier, independent of the connection session.
/// Named as the native library names it.
#[allow(non_camel_case_types)]
#[derive(Debug, Clone, PartialEq, Eq)]
pub struct SDL_JoystickGUID {
    pub data: Vec<u8>,
}

impl SDL_JoystickGUID {
    /// A GUID is well formed when it holds exactly 16 bytes.
    pub open spec fn wf(&self) -> bool {
        self.data@.len() == 16
    }
}

/// The character that renders one nibble (a value below 16): `0`-`9`, then
/// `a`-`f`.
pub open spec fn nibble_char(n: int) -> char {
    if n < 10 {
        (('0' as u8) + n) as u8 as char
    } else {
        (('a' as u8) + (n - 10)) as u8 as char
    }
}

/// The nibble a hex digit stands for; -1 for a character that is no hex
/// digit.  Both letter cases are read, as the native parser does.
pub open spec fn hex_val(c: char) -> int {
    let v = c as int;
    if 48 <= v && v <= 57 {
        v - 48
    } else if 97 <= v && v <= 102 {
        v - 87
    } else if 65 <= v && v <= 70 {
        v - 55
    } else {
        -1
    }
}

/// Whether a character is a hex digit.
pub open spec fn is_hex_char(c: char) -> bool {
    hex_val(c) != -1
}

/// The textual form of a byte sequence: two lower-case hex digits per byte,
/// high nibble first.
pub open spec fn hex_of_bytes(data: Seq<u8>) -> Seq<char> {
    Seq::new(
        data.len() * 2,
        |i: int|
            if i % 2 == 0 {
                nibble_char(data[i / 2] as int / 16)
            } else {
                nibble_char(data[i / 2] as int % 16)
            },
    )
}

/// Whether a character sequence is a well-formed GUID text: exactly 32 hex
/// digits.
pub open spec fn is_guid_text(s: Seq<char>) -> bool {
    s.len() == 32 && (forall|i: int| 0 <= i < 32 ==> is_hex_char(#[trigger] s[i]))
}

/// The bytes a well-formed GUID text denotes.
pub open spec fn bytes_of_hex(s: Seq<char>) -> Seq<u8> {
    Seq::new((s.len() / 2) as nat, |i: int| (hex_val(s[2 * i]) * 16 + hex_val(s[2 * i + 1])) as u8)
}

/// Rendering a nibble and reading the digit back returns the nibble.
pub proof fn lemma_nibble_round_trip(n: int)
    requires
        0 <= n < 16,
    ensures
        hex_val(nibble_char(n)) == n,
{
}

/// Every nibble renders as a hex digit.
pub proof fn lemma_nibble_char_is_hex(n: int)
    requires
        0 <= n < 16,
    ensures
        is_hex_char(nibble_char(n)),
{
    lemma_nibble_round_trip(n);
}

/// The one-character string that renders a nibble.
pub fn nibble_str(n: u8) -> (r: &'static str)
    requires
        n < 16,
    ensures
        r@.len() == 1,
        r@[0] == nibble_char(n as int),
{
    proof {
        reveal_strlit("0");
        reveal_strlit("1");
        reveal_strlit("2");
        reveal_strlit("3");
        reveal_strlit("4");
        reveal_strlit("5");
        reveal_strlit("6");
        reveal_strlit("7");
        reveal_strlit("8");
        reveal_strlit("9");
        reveal_strlit("a");
        reveal_strlit("b");
        reveal_strlit("c");
        reveal_strlit("d");
        reveal_strlit("e");
        reveal_strlit("f");
    }
    match n {
        0 => "0",
        1 => "1",
        2 => "2",
        3 => "3",
        4 => "4",
        5 => "5",
        6 => "6",
        7 => "7",
        8 => "8",
        9 => "9",
        10 => "a",
        11 => "b",
        12 => "c",
        13 => "d",
        14 => "e",
        _ => "f",
    }
}

/// The nibble a hex digit stands for, or -1 for any other character.
pub fn read_hex_digit(c: char) -> (r: i32)
    ensures
        r == hex_val(c),
{
    let v = c as u32;
    if 48 <= v && v <= 57 {
        (v - 48) as i32
    } else if 97 <= v && v <= 102 {
        (v - 87) as i32
    } else if 65 <= v && v <= 70 {
        (v - 55) as i32
    } else {
        -1
    }
}

/// GUID to text to GUID round-trips: rendering 16 bytes as hex and parsing
/// the text back yields the original bytes.
pub proof fn lemma_guid_round_trip(data: Seq<u8>)
    requires
        data.len() == 16,
    ensures
        is_guid_text(hex_of_bytes(data)),
        bytes_of_hex(hex_of_bytes(data)) == data,
{
    let s = hex_of_bytes(data);
    assert forall|i: int| 0 <= i < 32 implies is_hex_char(#[trigger] s[i]) by {
        if i % 2 == 0 {
            lemma_nibble_char_is_hex(data[i / 2] as int / 16);
        } else {
            lemma_nibble_char_is_hex(data[i / 2] as int % 16);
        }
    }
    assert forall|i: int| 0 <= i < 16 implies bytes_of_hex(s)[i] == data[i] by {
        lemma_nibble_round_trip(data[i] as int / 16);
        lemma_nibble_round_trip(data[i] as int % 16);
        assert(s[2 * i] == nibble_char(data[i] as int / 16));
        assert(s[2 * i + 1] == nibble_char(data[i] as int % 16));
    }
    assert(bytes_of_hex(s) =~= data);
}

} // verus!

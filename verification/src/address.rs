//! 20-byte addresses and their hexadecimal text form.
//!
//! An address travels as exactly 40 hexadecimal characters (no prefix, both
//! letter cases accepted). [`Address::decode`] accepts exactly the strings
//! that satisfy [`valid_hex_address`]; [`Address::encode`] produces the
//! lowercase form, and decoding it gives the bytes back
//! ([`lemma_hex_round_trip`]).

use vstd::prelude::*;

verus! {

/// A hexadecimal digit, either letter case.
pub open spec fn is_hex_digit(c: char) -> bool {
    ||| '0' <= c && c <= '9'
    ||| 'a' <= c && c <= 'f'
    ||| 'A' <= c && c <= 'F'
}

/// The numeric value of a hexadecimal digit.
pub open spec fn hex_digit_value(c: char) -> u8
    recommends
        is_hex_digit(c),
{
    if '0' <= c && c <= '9' {
        ((c as u32) - ('0' as u32)) as u8
    } else if 'a' <= c && c <= 'f' {
        ((c as u32) - ('a' as u32) + 10) as u8
    } else {
        ((c as u32) - ('A' as u32) + 10) as u8
    }
}

/// The lowercase digit of a value below 16.
pub open spec fn hex_digit_char(v: u8) -> char
    recommends
        v < 16,
{
    if v == 0 {
        '0'
    } else if v == 1 {
        '1'
    } else if v == 2 {
        '2'
    } else if v == 3 {
        '3'
    } else if v == 4 {
        '4'
    } else if v == 5 {
        '5'
    } else if v == 6 {
        '6'
    } else if v == 7 {
        '7'
    } else if v == 8 {
        '8'
    } else if v == 9 {
        '9'
    } else if v == 10 {
        'a'
    } else if v == 11 {
        'b'
    } else if v == 12 {
        'c'
    } else if v == 13 {
        'd'
    } else if v == 14 {
        'e'
    } else {
        'f'
    }
}

/// The byte written as the digit pair `hi`, `lo`.
pub open spec fn hex_byte(hi: char, lo: char) -> u8
    recommends
        is_hex_digit(hi),
        is_hex_digit(lo),
{
    (hex_digit_value(hi) * 16 + hex_digit_value(lo)) as u8
}

/// The bytes a sequence of digit pairs stands for.
pub open spec fn hex_decoded(s: Seq<char>) -> Seq<u8> {
    Seq::new(s.len() / 2, |i: int| hex_byte(s[2 * i], s[2 * i + 1]))
}

/// The lowercase digit pairs of a byte sequence.
pub open spec fn hex_encoded(b: Seq<u8>) -> Seq<char> {
    Seq::new(
        2 * b.len(),
        |i: int|
            if i % 2 == 0 {
                hex_digit_char(b[i / 2] >> 4)
            } else {
                hex_digit_char(b[i / 2] & 15)
            },
    )
}

/// The text form of an address: exactly 40 hexadecimal characters.
pub open spec fn valid_hex_address(s: Seq<char>) -> bool {
    s.len() == 40 && (forall|i: int| 0 <= i < s.len() ==> is_hex_digit(#[trigger] s[i]))
}

/// Why a string is not the text form of an address.
#[derive(Debug, Clone, PartialEq, Eq, Structural)]
pub enum AddressError {
    /// Not exactly 40 characters.
    IncorrectLength,
    /// A character that is no hexadecimal digit.
    FailedDecodeHex,
}

/// The error [`Address::decode`] returns on a string that breaks
/// [`valid_hex_address`].
pub open spec fn address_decode_error(s: Seq<char>) -> AddressError {
    if s.len() != 40 {
        AddressError::IncorrectLength
    } else {
        AddressError::FailedDecodeHex
    }
}

/// A 20-byte address.
#[derive(Debug, Clone, PartialEq, Eq)]
pub struct Address {
    bytes: Vec<u8>,
}

impl View for Address {
    type V = Seq<u8>;

    closed spec fn view(&self) -> Seq<u8> {
        self.bytes@
    }
}

impl Address {
    /// The address is well formed: exactly 20 bytes.
    pub open spec fn wf(self) -> bool {
        self@.len() == 20
    }

    /// The all-zero address.
    pub fn zero() -> (r: Address)
        ensures
            r.wf(),
            forall|i: int| 0 <= i < 20 ==> r@[i] == 0,
    {
        let mut bytes: Vec<u8> = Vec::new();
        let mut i: usize = 0;
        while i < 20
            invariant
                bytes@.len() == i,
                0 <= i <= 20,
                forall|j: int| 0 <= j < i ==> bytes@[j] == 0,
            decreases 20 - i,
        {
            bytes.push(0);
            i = i + 1;
        }
        Address { bytes }
    }

    /// The raw bytes.
    pub fn as_bytes(&self) -> (r: &[u8])
        ensures
            r@ == self@,
    {
        self.bytes.as_slice()
    }

    /// Accepts exactly the strings that [`valid_hex_address`] admits and
    /// returns the bytes they stand for.
    pub fn decode(s: &str) -> (r: Result<Address, AddressError>)
        ensures
            r is Ok <==> valid_hex_address(s@),
            r matches Ok(a) ==> a@ =~= hex_decoded(s@) && a.wf(),
            r matches Err(e) ==> e == address_decode_error(s@),
    {
        let n = s.unicode_len();
        if n != 40 {
            return Err(AddressError::IncorrectLength);
        }
        let mut bytes: Vec<u8> = Vec::new();
        let mut i: usize = 0;
        while i < 20
            invariant
                s@.len() == 40,
                0 <= i <= 20,
                bytes@.len() == i,
                forall|j: int| 0 <= j < 2 * i ==> is_hex_digit(#[trigger] s@[j]),
                forall|j: int| 0 <= j < i ==> bytes@[j] == hex_byte(s@[2 * j], s@[2 * j + 1]),
            decreases 20 - i,
        {
            let hi = s.get_char(2 * i);
            let lo = s.get_char(2 * i + 1);
            let hv = match hex_value(hi) {
                Some(v) => v,
                None => {
                    assert(!is_hex_digit(s@[2 * i as int]));
                    return Err(AddressError::FailedDecodeHex);
                },
            };
            let lv = match hex_value(lo) {
                Some(v) => v,
                None => {
                    assert(!is_hex_digit(s@[2 * i as int + 1]));
                    return Err(AddressError::FailedDecodeHex);
                },
            };
            bytes.push(hv * 16 + lv);
            i = i + 1;
        }
        let a = Address { bytes };
        assert(a@ =~= hex_decoded(s@));
        Ok(a)
    }

    /// The lowercase text form: decoding it gives the bytes back
    /// ([`lemma_hex_round_trip`]).
    pub fn encode(&self) -> (r: String)
        ensures
            r@ =~= hex_encoded(self@),
    {
        let mut out = String::new();
        let mut i: usize = 0;
        while i < self.bytes.len()
            invariant
                self@.len() == self.bytes@.len(),
                0 <= i <= self@.len(),
                out@ =~= hex_encoded(self@.subrange(0, i as int)),
            decreases self@.len() - i,
        {
            let b = self.bytes[i];
            let hi = b >> 4;
            let lo = b & 15;
            assert(hi < 16 && lo < 16) by (bit_vector)
                requires
                    hi == b >> 4 && lo == b & 15,
            ;
            out.append(hex_char_str(hi));
            out.append(hex_char_str(lo));
            assert(out@ =~= hex_encoded(self@.subrange(0, i + 1)));
            i = i + 1;
        }
        assert(self@.subrange(0, self@.len() as int) =~= self@);
        out
    }
}

/// The numeric value of a hexadecimal digit, or `None` outside the alphabet.
fn hex_value(c: char) -> (r: Option<u8>)
    ensures
        r is Some <==> is_hex_digit(c),
        r matches Some(v) ==> v == hex_digit_value(c) && v < 16,
{
    if '0' <= c && c <= '9' {
        Some(((c as u32) - ('0' as u32)) as u8)
    } else if 'a' <= c && c <= 'f' {
        Some(((c as u32) - ('a' as u32) + 10) as u8)
    } else if 'A' <= c && c <= 'F' {
        Some(((c as u32) - ('A' as u32) + 10) as u8)
    } else {
        None
    }
}

/// The lowercase digit of a value below 16, as a one-character string.
fn hex_char_str(v: u8) -> (r: &'static str)
    requires
        v < 16,
    ensures
        r@ =~= seq![hex_digit_char(v)],
{
    if v == 0 {
        proof {
            reveal_strlit("0");
        }
        "0"
    } else if v == 1 {
        proof {
            reveal_strlit("1");
        }
        "1"
    } else if v == 2 {
        proof {
            reveal_strlit("2");
        }
        "2"
    } else if v == 3 {
        proof {
            reveal_strlit("3");
        }
        "3"
    } else if v == 4 {
        proof {
            reveal_strlit("4");
        }
        "4"
    } else if v == 5 {
        proof {
            reveal_strlit("5");
        }
        "5"
    } else if v == 6 {
        proof {
            reveal_strlit("6");
        }
        "6"
    } else if v == 7 {
        proof {
            reveal_strlit("7");
        }
        "7"
    } else if v == 8 {
        proof {
            reveal_strlit("8");
        }
        "8"
    } else if v == 9 {
        proof {
            reveal_strlit("9");
        }
        "9"
    } else if v == 10 {
        proof {
            reveal_strlit("a");
        }
        "a"
    } else if v == 11 {
        proof {
            reveal_strlit("b");
        }
        "b"
    } else if v == 12 {
        proof {
            reveal_strlit("c");
        }
        "c"
    } else if v == 13 {
        proof {
            reveal_strlit("d");
        }
        "d"
    } else if v == 14 {
        proof {
            reveal_strlit("e");
        }
        "e"
    } else {
        proof {
            reveal_strlit("f");
        }
        "f"
    }
}

/// A digit and its value are inverse to each other below 16.
pub proof fn lemma_hex_digit_round_trip(v: u8)
    requires
        v < 16,
    ensures
        is_hex_digit(hex_digit_char(v)),
        hex_digit_value(hex_digit_char(v)) == v,
{
}

/// Encoding then decoding gives every byte sequence back, and an encoded
/// 20-byte address is a valid text form.
pub proof fn lemma_hex_round_trip(b: Seq<u8>)
    ensures
        hex_decoded(hex_encoded(b)) =~= b,
        b.len() == 20 ==> valid_hex_address(hex_encoded(b)),
{
    assert forall|i: int| 0 <= i < b.len() implies hex_decoded(hex_encoded(b))[i] == b[i] by {
        let x = b[i];
        let hi = x >> 4;
        let lo = x & 15;
        assert(hi < 16 && lo < 16 && hi * 16 + lo == x) by (bit_vector)
            requires
                hi == x >> 4 && lo == x & 15,
        ;
        lemma_hex_digit_round_trip(hi);
        lemma_hex_digit_round_trip(lo);
        assert(hex_encoded(b)[2 * i] == hex_digit_char(hi));
        assert(hex_encoded(b)[2 * i + 1] == hex_digit_char(lo));
    }
    assert forall|i: int| 0 <= i < hex_encoded(b).len() implies is_hex_digit(
        #[trigger] hex_encoded(b)[i],
    ) by {
        let x = b[i / 2];
        let v = if i % 2 == 0 {
            x >> 4
        } else {
            x & 15
        };
        assert((x >> 4) < 16 && (x & 15) < 16) by (bit_vector);
        lemma_hex_digit_round_trip(v);
    }
}

} // verus!

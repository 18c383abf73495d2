//! The text form of an identifier: 13 lowercase base-32 symbols
//! (RFC 4648 alphabet, unpadded), decoded case-insensitively.
//!
//! The 64 bits of the value, read most significant first and followed
//! by one zero pad bit, split into 13 groups of 5 bits; each group
//! selects one symbol of the alphabet `a..=z 2..=7`.

use vstd::prelude::*;

use crate::{Smolid, SmolidError};

verus! {

/// The 5-bit group `i` (0-based, from the most significant end) of the
/// 65-bit string formed by `d` and one zero pad bit.
pub open spec fn digit_of(d: u64, i: int) -> u64 {
    if i < 12 {
        (d >> ((59 - 5 * i) as u64)) & 31
    } else {
        (d & 15) << 1
    }
}

/// The ASCII code of the alphabet symbol for a 5-bit group value:
/// `a..=z` stand for 0..=25 and `2..=7` for 26..=31.
pub open spec fn symbol_ascii(v: u64) -> u8 {
    if v < 26 {
        ((97 + v) as u8)
    } else {
        ((24 + v) as u8)
    }
}

/// The alphabet symbol for a 5-bit group value, as a character.
pub open spec fn symbol_of(v: u64) -> char {
    symbol_ascii(v) as char
}

/// The 13-character text form of a raw 64-bit value.
pub open spec fn spec_encode(d: u64) -> Seq<char> {
    Seq::new(13, |i: int| symbol_of(digit_of(d, i)))
}

/// The 5-bit group value a character decodes to: letters of either
/// case stand for 0..=25, the digits `2..=7` for 26..=31, and every
/// other character is outside the alphabet.
pub open spec fn digit_value(c: char) -> Option<u64> {
    let u = c as u32;
    if 97 <= u && u <= 122 {
        Some(((u - 97) as u64))
    } else if 65 <= u && u <= 90 {
        Some(((u - 65) as u64))
    } else if 50 <= u && u <= 55 {
        Some(((26 + (u - 50)) as u64))
    } else {
        None
    }
}

/// The group value of a character known to be in the alphabet.
pub open spec fn dv0(c: char) -> u64 {
    match digit_value(c) {
        Some(v) => v,
        None => 0,
    }
}

/// Every character of the text lies in the base-32 alphabet.
pub open spec fn all_symbols(s: Seq<char>) -> bool {
    forall|j: int| 0 <= j < s.len() ==> digit_value(s[j]) is Some
}

/// How many bytes a run of `n` base-32 symbols carries: 5 bits each,
/// and a started but incomplete final byte counts.
pub open spec fn decoded_len(n: int) -> int {
    5 * n / 8 + if (5 * n) % 8 >= 5 {
        1int
    } else {
        0int
    }
}

/// The raw 64-bit value reassembled from 13 alphabet characters; the
/// final pad bit is dropped.
pub open spec fn assemble(s: Seq<char>) -> u64 {
    (dv0(s[0]) << 59) | (dv0(s[1]) << 54) | (dv0(s[2]) << 49) | (dv0(s[3]) << 44) | (dv0(s[4])
        << 39) | (dv0(s[5]) << 34) | (dv0(s[6]) << 29) | (dv0(s[7]) << 24) | (dv0(s[8]) << 19) | (
    dv0(s[9]) << 14) | (dv0(s[10]) << 9) | (dv0(s[11]) << 4) | (dv0(s[12]) >> 1)
}

/// What decoding a text yields: the value of a 13-symbol string, an
/// alphabet error on any character outside the alphabet, and otherwise
/// a length error naming the 8 bytes expected and the bytes the text
/// carries.
pub open spec fn spec_parse(s: Seq<char>) -> Result<u64, SmolidError> {
    if !all_symbols(s) {
        Err(SmolidError::InvalidEncoding)
    } else if s.len() != 13 {
        Err(
            SmolidError::WrongLength {
                expected: 8,
                actual: decoded_len(s.len() as int) as usize,
            },
        )
    } else {
        Ok(assemble(s))
    }
}

/// Relies on `String::from_utf8`: a vector of ASCII bytes is valid
/// UTF-8 and becomes the string of exactly those characters.
#[verifier::external_body]
fn ascii_to_string(bytes: Vec<u8>) -> (r: String)
    requires
        forall|j: int| 0 <= j < bytes@.len() ==> bytes@[j] < 128,
    ensures
        r@ == bytes@.map_values(|b: u8| b as char),
{
    String::from_utf8(bytes).expect("ASCII bytes are valid UTF-8")
}

/// The ASCII code of the alphabet symbol for a 5-bit group value.
fn symbol_byte(v: u64) -> (r: u8)
    requires
        v < 32,
    ensures
        r == symbol_ascii(v),
        r < 128,
{
    if v < 26 {
        97 + (v as u8)
    } else {
        24 + (v as u8)
    }
}

/// The 5-bit group value of a character, or `None` outside the
/// alphabet.
fn symbol_value(c: char) -> (r: Option<u64>)
    ensures
        r == digit_value(c),
{
    let u = c as u32;
    if 97 <= u && u <= 122 {
        Some((u - 97) as u64)
    } else if 65 <= u && u <= 90 {
        Some((u - 65) as u64)
    } else if 50 <= u && u <= 55 {
        Some((26 + (u - 50)) as u64)
    } else {
        None
    }
}

/// The bytes carried by `n` base-32 symbols, per [`decoded_len`].
fn decoded_len_exec(n: usize) -> (r: usize)
    ensures
        r == decoded_len(n as int),
{
    let bits: u128 = (n as u128) * 5;
    let bytes: u128 = bits / 8 + if bits % 8 >= 5 {
        1
    } else {
        0
    };
    proof {
        assert(3 <= n ==> 5 * (n as int) / 8 + 1 <= n) by (nonlinear_arith);
        assert(n < 3 ==> bytes <= 1);
    }
    bytes as usize
}

impl Smolid {
    /// The 13-character text form: lowercase base-32, no padding.
    pub fn encode(&self) -> (r: String)
        ensures
            r@ == spec_encode(self@),
    {
        let d = self.d;
        let mut bytes: Vec<u8> = Vec::new();
        let mut i: usize = 0;
        while i < 13
            invariant
                i <= 13,
                d == self@,
                bytes@.len() == i as int,
                forall|j: int| 0 <= j < i ==> bytes@[j] == symbol_ascii(digit_of(d, j)),
                forall|j: int| 0 <= j < i ==> bytes@[j] < 128,
            decreases 13 - i,
        {
            let v: u64 = if i < 12 {
                let sh: u64 = 59 - 5 * (i as u64);
                proof {
                    assert(sh < 64 ==> (d >> sh) & 31 < 32) by (bit_vector);
                }
                (d >> sh) & 31
            } else {
                proof {
                    assert((d & 15) << 1 < 32) by (bit_vector);
                }
                (d & 15) << 1
            };
            bytes.push(symbol_byte(v));
            i += 1;
        }
        let out = ascii_to_string(bytes);
        proof {
            assert(out@ =~= spec_encode(self@));
        }
        out
    }

    /// The identifier a text denotes. Any mix of cases is accepted; a
    /// character outside the base-32 alphabet is an encoding error,
    /// and a text carrying other than exactly 8 bytes of groups is a
    /// length error.
    pub fn parse(s: &str) -> (r: Result<Smolid, SmolidError>)
        ensures
            r matches Ok(x) ==> spec_parse(s@) == Ok::<u64, SmolidError>(x@),
            r matches Err(e) ==> spec_parse(s@) == Err::<u64, SmolidError>(e),
            (r is Ok) == (spec_parse(s@) is Ok),
    {
        let n = s.unicode_len();
        let mut vals: Vec<u64> = Vec::new();
        let mut i: usize = 0;
        while i < n
            invariant
                i <= n,
                n == s@.len(),
                vals@.len() == i as int,
                forall|j: int| 0 <= j < i ==> digit_value(s@[j]) == Some(vals@[j]),
            decreases n - i,
        {
            let c = s.get_char(i);
            match symbol_value(c) {
                Some(v) => {
                    vals.push(v);
                },
                None => {
                    proof {
                        assert(!all_symbols(s@));
                    }
                    return Err(SmolidError::InvalidEncoding);
                },
            }
            i += 1;
        }
        proof {
            assert(all_symbols(s@));
        }
        if n != 13 {
            let actual = decoded_len_exec(n);
            return Err(SmolidError::WrongLength { expected: 8, actual });
        }
        let d = (vals[0] << 59u64) | (vals[1] << 54u64) | (vals[2] << 49u64) | (vals[3] << 44u64)
            | (vals[4] << 39u64) | (vals[5] << 34u64) | (vals[6] << 29u64) | (vals[7] << 24u64) | (
        vals[8] << 19u64) | (vals[9] << 14u64) | (vals[10] << 9u64) | (vals[11] << 4u64) | (
        vals[12] >> 1u64);
        proof {
            assert(d == assemble(s@));
        }
        Ok(Smolid { d })
    }
}

/// Every character the encoder emits decodes back to the group value
/// it was chosen for.
proof fn lemma_symbol_roundtrip(v: u64)
    requires
        v < 32,
    ensures
        digit_value(symbol_of(v)) == Some(v),
{
}

/// The codec round-trips: decoding the text form of any raw 64-bit
/// value yields that value again, bit for bit.
pub proof fn lemma_encode_parse(d: u64)
    ensures
        spec_parse(spec_encode(d)) == Ok::<u64, SmolidError>(d),
{
    let s = spec_encode(d);
    assert forall|i: int| 0 <= i < 13 implies digit_value(s[i]) == Some(digit_of(d, i)) by {
        if i < 12 {
            let sh = (59 - 5 * i) as u64;
            assert(sh < 64 ==> (d >> sh) & 31 < 32) by (bit_vector);
        } else {
            assert((d & 15) << 1 < 32) by (bit_vector);
        }
        lemma_symbol_roundtrip(digit_of(d, i));
    }
    assert(all_symbols(s));
    assert((((d >> 59) & 31) << 59) | (((d >> 54) & 31) << 54) | (((d >> 49) & 31) << 49) | (((d
        >> 44) & 31) << 44) | (((d >> 39) & 31) << 39) | (((d >> 34) & 31) << 34) | (((d >> 29)
        & 31) << 29) | (((d >> 24) & 31) << 24) | (((d >> 19) & 31) << 19) | (((d >> 14) & 31)
        << 14) | (((d >> 9) & 31) << 9) | (((d >> 4) & 31) << 4) | ((((d & 15) << 1)) >> 1) == d)
        by (bit_vector);
    assert(assemble(s) == d);
}

} // verus!

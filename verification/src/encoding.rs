//! How bytes are written as text: in hexadecimal, and in the base 32 of
//! DNSSEC, which is the alphabet of ID52s.

use vstd::prelude::*;

verus! {

/// The digit for a value below 32: `0` to `9`, then `a` to `v`. The first
/// sixteen are the digits of hexadecimal.
pub open spec fn digit32(value: int) -> char {
    if value < 10 {
        ((48 + value) as u8) as char
    } else {
        ((87 + value) as u8) as char
    }
}

/// What the bit at a place of a byte is worth: 128 for the first place, 1
/// for the eighth.
pub open spec fn bit_weight(place: int) -> int {
    if place == 0 {
        128
    } else if place == 1 {
        64
    } else if place == 2 {
        32
    } else if place == 3 {
        16
    } else if place == 4 {
        8
    } else if place == 5 {
        4
    } else if place == 6 {
        2
    } else {
        1
    }
}

/// The bit at an index of the bytes, the highest bit of each byte first;
/// 0 past the end.
pub open spec fn bit_at(bytes: Seq<u8>, index: int) -> int {
    if 0 <= index && index / 8 < bytes.len() {
        (bytes[index / 8] as int / bit_weight(index % 8)) % 2
    } else {
        0
    }
}

/// The value of the five bits from `5 * index` on.
pub open spec fn quintet(bytes: Seq<u8>, index: int) -> int {
    16 * bit_at(bytes, 5 * index) + 8 * bit_at(bytes, 5 * index + 1) + 4 * bit_at(
        bytes,
        5 * index + 2,
    ) + 2 * bit_at(bytes, 5 * index + 3) + bit_at(bytes, 5 * index + 4)
}

/// The bytes in the base 32 of DNSSEC: one digit for every five bits, in
/// lower case, without padding.
pub open spec fn base32_text(bytes: Seq<u8>) -> Seq<char> {
    Seq::new(((8 * bytes.len() + 4) / 5) as nat, |i: int| digit32(quintet(bytes, i)))
}

/// The bytes in hexadecimal: two digits for each byte, in lower case.
pub open spec fn hex_text(bytes: Seq<u8>) -> Seq<char> {
    Seq::new(
        2 * bytes.len(),
        |i: int|
            if i % 2 == 0 {
                digit32(bytes[i / 2] as int / 16)
            } else {
                digit32(bytes[i / 2] as int % 16)
            },
    )
}

} // verus!

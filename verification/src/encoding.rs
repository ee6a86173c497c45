//! Hexadecimal text of byte strings.

use vstd::prelude::*;

verus! {

/// The lower-case hexadecimal digit for a value below sixteen.
pub open spec fn hex_digit(n: int) -> char {
    if n < 10 {
        (48 + n) as u8 as char
    } else {
        (87 + n) as u8 as char
    }
}

/// The lower-case hexadecimal text of `bytes`: two digits for each byte,
/// the high half first.
pub open spec fn hex_lower(bytes: Seq<u8>) -> Seq<char> {
    Seq::new(
        2 * bytes.len(),
        |i: int|
            if i % 2 == 0 {
                hex_digit(bytes[i / 2] as int / 16)
            } else {
                hex_digit(bytes[i / 2] as int % 16)
            },
    )
}

/// Calls `hex::encode`. Trusted: the result is the lower-case hexadecimal
/// text of `data`, two digits for each byte, as the crate documents.
#[verifier::external_body]
pub(crate) fn hex_encode(data: &Vec<u8>) -> (res: String)
    ensures
        res@ == hex_lower(data@),
{
    hex::encode(data)
}

/// The hexadecimal text of an optional byte string.
pub fn hex_of_optional(data: &Option<Vec<u8>>) -> (res: Option<String>)
    ensures
        res.deep_view() == match *data {
            Some(bytes) => Some(hex_lower(bytes@)),
            None => None::<Seq<char>>,
        },
{
    match data {
        Some(bytes) => Some(hex_encode(bytes)),
        None => None,
    }
}

} // verus!

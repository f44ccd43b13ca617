//! Lower-case hexadecimal text of byte strings.
use hex::ToHex;
use vstd::prelude::*;

verus! {

/// The lower-case hexadecimal digit of a value below sixteen.
pub open spec fn hex_digit(n: int) -> char {
    seq!['0', '1', '2', '3', '4', '5', '6', '7', '8', '9', 'a', 'b', 'c', 'd', 'e', 'f'][n]
}

/// The lower-case hexadecimal text of a byte string: two digits per byte,
/// the high nibble first.
pub open spec fn hex_lower(bytes: Seq<u8>) -> Seq<char>
    decreases bytes.len(),
{
    if bytes.len() == 0 {
        Seq::empty()
    } else {
        seq![hex_digit((bytes[0] / 16) as int), hex_digit((bytes[0] % 16) as int)] + hex_lower(bytes.drop_first())
    }
}

/// `hex::ToHex::encode_hex`, collected into a `String`: the crate writes, for
/// each byte in order, the character of its high nibble and then that of its
/// low nibble, taken from the table `0123456789abcdef`.
#[verifier::external_body]
pub(crate) fn encode_hex(bytes: &[u8]) -> (res: String)
    ensures
        res@ == hex_lower(bytes@),
{
    bytes.encode_hex::<String>()
}

} // verus!

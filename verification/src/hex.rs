use vstd::prelude::*;
use vstd::string::{StrSliceExecFns, StringExecFns};

verus! {

/// The lowercase hexadecimal digit for a value below sixteen.
pub open spec fn hex_digit(value: u8) -> char {
    "0123456789abcdef"@[value as int]
}

/// The lowercase hexadecimal text of a byte sequence: two digits for each
/// byte, the high half of the byte first, with nothing in between.
pub open spec fn hex(bytes: Seq<u8>) -> Seq<char> {
    Seq::new(
        2 * bytes.len(),
        |i: int|
            if i % 2 == 0 {
                hex_digit(bytes[i / 2] / 16)
            } else {
                hex_digit(bytes[i / 2] % 16)
            },
    )
}

/// The one-character text of a hexadecimal digit.
fn digit_text(value: u8) -> (text: &'static str)
    requires
        value < 16,
    ensures
        text@ == seq![hex_digit(value)],
{
    let digits = "0123456789abcdef";
    proof {
        reveal_strlit("0123456789abcdef");
    }
    let at = value as usize;
    digits.substring_ascii(at, at + 1)
}

/// Renders `bytes` as lowercase hexadecimal text.
pub fn to_hex(bytes: &[u8]) -> (text: String)
    ensures
        text@ == hex(bytes@),
        text@.len() == 2 * bytes@.len(),
{
    let mut text = String::new();
    for i in 0..bytes.len()
        invariant
            text@.len() == 2 * i,
            forall|k: int| 0 <= k < 2 * i ==> text@[k] == hex(bytes@)[k],
    {
        let b = bytes[i];
        text.append(digit_text(b / 16));
        text.append(digit_text(b % 16));
    }
    text
}

/// The text has two characters for each byte, and each of them is one of
/// the digits `0` to `9` or one of the letters `a` to `f`.
pub proof fn lemma_hex_is_lowercase_digits(bytes: Seq<u8>, i: int)
    requires
        0 <= i < 2 * bytes.len(),
    ensures
        hex(bytes).len() == 2 * bytes.len(),
        '0' <= hex(bytes)[i] <= '9' || 'a' <= hex(bytes)[i] <= 'f',
{
    reveal_strlit("0123456789abcdef");
}

} // verus!

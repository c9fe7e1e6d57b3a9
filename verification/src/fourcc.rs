//! Four-character codes: four ASCII characters packed into 32 bits, the first
//! character in the lowest byte.

use vstd::prelude::*;

verus! {

/// A value that does not hold four ASCII characters.
#[derive(Clone, Copy, Debug, PartialEq, Eq, Structural)]
pub struct DecodeError {
    /// The value that failed to decode.
    pub code: u32,
}

/// Byte `i` (0 the lowest) of `code`.
pub open spec fn code_byte(code: u32, i: int) -> u8 {
    if i == 0 {
        (code % 0x100) as u8
    } else if i == 1 {
        (code / 0x100 % 0x100) as u8
    } else if i == 2 {
        (code / 0x1_0000 % 0x100) as u8
    } else {
        (code / 0x100_0000) as u8
    }
}

/// Whether each of the four bytes of `code` is an ASCII character.
pub open spec fn is_fourcc(code: u32) -> bool {
    forall|i: int| 0 <= i < 4 ==> #[trigger] code_byte(code, i) < 0x80
}

/// The four characters that `code` packs, lowest byte first.
pub open spec fn fourcc_text(code: u32) -> Seq<char> {
    Seq::new(4, |i: int| code_byte(code, i) as char)
}

/// What a failed decode is shown as in a report line.
pub open spec fn decode_error_text() -> Seq<char> {
    "DecodeError"@
}

/// Decodes `code` as a four-character code. Fails exactly when one of its four
/// bytes is not an ASCII character.
pub fn fourcc(code: u32) -> (r: Result<String, DecodeError>)
    ensures
        is_fourcc(code) ==> r is Ok && r->Ok_0@ == fourcc_text(code),
        !is_fourcc(code) ==> r is Err && r->Err_0.code == code,
{
    let b0: u8 = (code % 0x100) as u8;
    let b1: u8 = (code / 0x100 % 0x100) as u8;
    let b2: u8 = (code / 0x1_0000 % 0x100) as u8;
    let b3: u8 = (code / 0x100_0000) as u8;
    assert(b0 == code_byte(code, 0) && b1 == code_byte(code, 1) && b2 == code_byte(code, 2) && b3
        == code_byte(code, 3));
    if b0 < 0x80 && b1 < 0x80 && b2 < 0x80 && b3 < 0x80 {
        let mut s = String::new();
        s.push(b0 as char);
        s.push(b1 as char);
        s.push(b2 as char);
        s.push(b3 as char);
        assert(s@ =~= fourcc_text(code));
        Ok(s)
    } else {
        Err(DecodeError { code })
    }
}

impl DecodeError {
    /// The marker that stands in a report line in place of the text.
    pub fn marker(&self) -> (s: String)
        ensures
            s@ == decode_error_text(),
    {
        "DecodeError".to_owned()
    }
}

/// A decode error can not be taken for a decoded code: the marker is longer
/// than four characters.
pub proof fn lemma_marker_is_no_fourcc(code: u32)
    ensures
        fourcc_text(code).len() == 4,
        decode_error_text().len() == 11,
{
    reveal_strlit("DecodeError");
}

} // verus!

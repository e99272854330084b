//! Diagnostic text extraction: a buffer of filler bytes that the driver
//! overwrites, then decoded as text.
use vstd::prelude::*;

verus! {

/// The filler byte that a log buffer holds before the driver writes into it.
pub const FILLER: u8 = 0x20;

/// The text that `String::from_utf8_lossy` makes of a byte sequence.
pub uninterp spec fn lossy_text(bytes: Seq<u8>) -> Seq<char>;

/// A byte sequence made only of ASCII bytes, read as characters.
pub open spec fn ascii_chars(bytes: Seq<u8>) -> Seq<char> {
    bytes.map_values(|b: u8| b as char)
}

pub open spec fn is_ascii(bytes: Seq<u8>) -> bool {
    forall|i: int| 0 <= i < bytes.len() ==> bytes[i] < 0x80
}

/// Relies on `String::from_utf8_lossy` (made owned): it decodes UTF-8,
/// replacing each invalid sequence with U+FFFD. Valid input, ASCII in
/// particular, is kept as it is; empty input gives empty text and non-empty
/// input non-empty text.
#[verifier::external_body]
fn decode_lossy(bytes: &[u8]) -> (r: String)
    ensures
        r@ == lossy_text(bytes@),
        r@.len() == 0 <==> bytes@.len() == 0,
        is_ascii(bytes@) ==> r@ == ascii_chars(bytes@),
{
    String::from_utf8_lossy(bytes).into_owned()
}

/// The spec model of a fresh log buffer: `len` filler bytes.
pub open spec fn filler(len: nat) -> Seq<u8> {
    Seq::new(len, |i: int| FILLER)
}

/// Allocates a buffer of exactly `len` filler bytes, for the driver to write a
/// diagnostic log into.
pub fn create_whitespace_cstring_with_len(len: usize) -> (r: Vec<u8>)
    ensures
        r@ == filler(len as nat),
{
    let mut buffer: Vec<u8> = Vec::with_capacity(len);
    let mut i: usize = 0;
    while i < len
        invariant
            i <= len,
            buffer@ == filler(i as nat),
        decreases len - i,
    {
        buffer.push(FILLER);
        i = i + 1;
        assert(buffer@ =~= filler(i as nat));
    }
    buffer
}

/// The length of the buffer to hand the driver for a log whose reported length
/// is `reported` (a negative report counts as zero).
pub open spec fn log_capacity(reported: i32) -> nat {
    if reported > 0 { reported as nat } else { 0 }
}

/// A fresh log buffer sized by the driver's reported log length.
pub fn log_buffer(reported: i32) -> (r: Vec<u8>)
    ensures
        r@ == filler(log_capacity(reported)),
{
    if reported > 0 {
        create_whitespace_cstring_with_len(reported as usize)
    } else {
        create_whitespace_cstring_with_len(0)
    }
}

/// The diagnostic text of a log buffer the driver has filled, non-UTF-8 bytes
/// replaced.
pub fn diagnostic_text(log: &Vec<u8>) -> (r: String)
    ensures
        r@ == lossy_text(log@),
        r@.len() == 0 <==> log@.len() == 0,
        is_ascii(log@) ==> r@ == ascii_chars(log@),
{
    decode_lossy(log.as_slice())
}

} // verus!

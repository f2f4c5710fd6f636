//! The `HostResult` wire format of host replies: a status byte followed by
//! the payload (`0x00`) or a UTF-8 error message (`0x01`). A reply whose
//! first byte is neither is raw content from a kernel that predates the
//! format.
use vstd::prelude::*;
use crate::error::SysError;

verus! {

/// Status byte of a successful result.
pub const STATUS_OK: u8 = 0x00;

/// Status byte of a recoverable error.
pub const STATUS_ERR: u8 = 0x01;

/// Name for the text `String::from_utf8_lossy` makes of `bytes`.
pub uninterp spec fn utf8_lossy(bytes: Seq<u8>) -> Seq<char>;

/// `String::from_utf8_lossy`: the text of `bytes`, with each invalid
/// sequence replaced by U+FFFD. Its documentation states that valid UTF-8
/// is decoded unchanged; beyond that, the result is only named.
#[verifier::external_body]
fn lossy_text(bytes: &[u8]) -> (s: String)
    ensures
        s@ == utf8_lossy(bytes@),
        vstd::utf8::valid_utf8(bytes@) ==> s@ == vstd::utf8::decode_utf8(bytes@),
{
    String::from_utf8_lossy(bytes).into_owned()
}

/// The meaning of a reply in the `HostResult` wire format: the payload
/// after a `0x00` byte; an API error carrying the (lossily decoded) text
/// after a `0x01` byte; an empty reply is an empty payload, and a reply
/// with any other first byte is returned whole.
pub fn decode(bytes: Vec<u8>) -> (r: Result<Vec<u8>, SysError>)
    ensures
        bytes@.len() == 0 ==> (r matches Ok(p) && p@.len() == 0),
        bytes@.len() > 0 && bytes@[0] == STATUS_OK ==> (r matches Ok(p) && p@ == bytes@.skip(1)),
        bytes@.len() > 0 && bytes@[0] == STATUS_ERR ==> (r matches Err(SysError::ApiError(m)) && m@
            == utf8_lossy(bytes@.skip(1))),
        bytes@.len() > 0 && bytes@[0] != STATUS_OK && bytes@[0] != STATUS_ERR ==> (r matches Ok(p)
            && p@ == bytes@),
{
    if bytes.len() == 0 {
        return Ok(Vec::new());
    }
    let status = bytes[0];
    if status == STATUS_OK {
        let rest = vstd::slice::slice_subrange(bytes.as_slice(), 1, bytes.len());
        let out = vstd::slice::slice_to_vec(rest);
        Ok(out)
    } else if status == STATUS_ERR {
        let rest = vstd::slice::slice_subrange(bytes.as_slice(), 1, bytes.len());
        Err(SysError::ApiError(lossy_text(rest)))
    } else {
        Ok(bytes)
    }
}

} // verus!

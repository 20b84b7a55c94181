use vstd::prelude::*;
use vstd::string::StringSliceAdditionalSpecFns;
use vstd::utf8::{decode_utf8, valid_utf8};

use crate::error::RdpError;

verus! {

/// Whether `ret` is what becomes of a text with the bytes `bytes` on its way
/// to the native side: the bytes themselves if none of them is NUL, and
/// otherwise the error that tells where the first NUL stands.
pub open spec fn is_c_string(bytes: Seq<u8>, ret: Result<Vec<u8>, RdpError>) -> bool {
    match ret {
        Ok(v) => {
            &&& v@ == bytes
            &&& forall|i: int| 0 <= i < bytes.len() ==> bytes[i] != 0
        },
        Err(e) => {
            &&& e matches RdpError::NulError(p)
            &&& p < bytes.len()
            &&& bytes[p as int] == 0
            &&& forall|j: int| 0 <= j < p ==> bytes[j] != 0
        },
    }
}

/// The content of the C string for a text: its UTF-8 bytes, to which the
/// native side adds the closing NUL. A text that holds a NUL itself cannot
/// cross.
pub fn c_string(text: &str) -> (ret: Result<Vec<u8>, RdpError>)
    ensures
        is_c_string(text.spec_bytes(), ret),
{
    let bytes = text.as_bytes();
    let mut out: Vec<u8> = Vec::new();
    let mut i: usize = 0;
    while i < bytes.len()
        invariant
            i <= bytes.len(),
            bytes@ == text.spec_bytes(),
            out@ == bytes@.take(i as int),
            forall|j: int| 0 <= j < i ==> bytes@[j] != 0,
        decreases bytes.len() - i,
    {
        let b = bytes[i];
        if b == 0 {
            return Err(RdpError::NulError(i));
        }
        out.push(b);
        assert(bytes@.take(i + 1) == bytes@.take(i as int).push(b));
        i += 1;
    }
    assert(bytes@.take(bytes@.len() as int) == bytes@);
    Ok(out)
}

/// The C string for a text that may be missing: no text crosses as the null
/// pointer.
pub fn optional_c_string(text: Option<&str>) -> (ret: Result<Option<Vec<u8>>, RdpError>)
    ensures
        match text {
            Some(t) => match ret {
                Ok(v) => v is Some && is_c_string(t.spec_bytes(), Ok(v->0)),
                Err(e) => is_c_string(t.spec_bytes(), Err(e)),
            },
            None => ret matches Ok(v) && v is None,
        },
{
    match text {
        Some(t) => match c_string(t) {
            Ok(v) => Ok(Some(v)),
            Err(e) => Err(e),
        },
        None => Ok(None),
    }
}

/// The text of a C string that may be missing: the null pointer is no text,
/// anything else is decoded leniently.
pub fn optional_text(bytes: Option<&[u8]>) -> (ret: Option<String>)
    ensures
        match bytes {
            Some(b) => ret matches Some(s) && s@ == text_of_bytes(b@),
            None => ret is None,
        },
{
    match bytes {
        Some(b) => Some(decode_lossy(b)),
        None => None,
    }
}

/// The text that the lossy UTF-8 decoder makes of bytes that are not valid
/// UTF-8: malformed parts come out as U+FFFD, the rest as it stands.
pub uninterp spec fn lossy_decoding(bytes: Seq<u8>) -> Seq<char>;

/// The text that a byte sequence is read as: what it encodes where it is
/// valid UTF-8, and the lenient decoder's repair of it where it is not.
pub open spec fn text_of_bytes(bytes: Seq<u8>) -> Seq<char> {
    if valid_utf8(bytes) {
        decode_utf8(bytes)
    } else {
        lossy_decoding(bytes)
    }
}

/// Decodes bytes as UTF-8, keeping what is well formed and replacing what is
/// not.
///
/// Trusted: calls `String::from_utf8_lossy`. The standard library documents
/// that valid UTF-8 comes back as the text it encodes; what is made of other
/// input is only given a name here.
#[verifier::external_body]
pub(crate) fn decode_lossy(bytes: &[u8]) -> (ret: String)
    ensures
        valid_utf8(bytes@) ==> ret@ == decode_utf8(bytes@),
        !valid_utf8(bytes@) ==> ret@ == lossy_decoding(bytes@),
{
    String::from_utf8_lossy(bytes).into_owned()
}

/// Decodes bytes as UTF-8, or refuses them.
///
/// Trusted: calls `core::str::from_utf8`, which succeeds exactly on valid
/// UTF-8 and then returns the text that the bytes encode.
#[verifier::external_body]
pub(crate) fn decode_strict(bytes: &[u8]) -> (ret: Option<String>)
    ensures
        ret is Some <==> valid_utf8(bytes@),
        ret matches Some(s) ==> s@ == decode_utf8(bytes@),
{
    match core::str::from_utf8(bytes) {
        Ok(s) => Some(s.to_owned()),
        Err(_) => None,
    }
}

/// Whether two texts are the same, character for character.
pub fn same_text(a: &str, b: &str) -> (ret: bool)
    ensures
        ret == (a@ == b@),
{
    a.to_owned() == b.to_owned()
}

/// The standard library's error for UTF-16 that is not well formed.
#[verifier::external_type_specification]
#[verifier::external_body]
pub struct ExFromUtf16Error(std::string::FromUtf16Error);

/// The text that a sequence of UTF-16 code units spells, if it is well
/// formed.
pub uninterp spec fn utf16_decoding(units: Seq<u16>) -> Option<Seq<char>>;

/// The text that the lenient UTF-16 decoder makes of a sequence of code
/// units: an unpaired surrogate comes out as U+FFFD.
pub uninterp spec fn lossy_utf16_decoding(units: Seq<u16>) -> Seq<char>;

/// Decodes UTF-16, or refuses it.
///
/// Trusted: calls `String::from_utf16`, whose result depends on the code
/// units alone; the contract only names it.
#[verifier::external_body]
pub(crate) fn decode_utf16(units: &[u16]) -> (ret: Result<String, std::string::FromUtf16Error>)
    ensures
        match ret {
            Ok(s) => utf16_decoding(units@) == Some(s@),
            Err(_) => utf16_decoding(units@) is None,
        },
{
    String::from_utf16(units)
}

/// Decodes UTF-16, replacing what is not well formed.
///
/// Trusted: calls `String::from_utf16_lossy`, whose result depends on the
/// code units alone; the contract only names it.
#[verifier::external_body]
pub(crate) fn decode_utf16_lossy(units: &[u16]) -> (ret: String)
    ensures
        ret@ == lossy_utf16_decoding(units@),
{
    String::from_utf16_lossy(units)
}

} // verus!

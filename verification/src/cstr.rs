//! Names as the native layer holds them: UTF-8 bytes closed by one zero byte.
use vstd::prelude::*;
use vstd::slice::slice_subrange;
use vstd::string::StringSliceAdditionalSpecFns;
use vstd::utf8::{decode_utf8, encode_utf8, valid_utf8};
use crate::error::Error;

verus! {

/// No byte of `bytes` is zero.
pub open spec fn no_zero_byte(bytes: Seq<u8>) -> bool {
    forall|i: int| 0 <= i < bytes.len() ==> bytes[i] != 0
}

/// `bytes` ends in a zero byte and holds no other.
pub open spec fn zero_terminated(bytes: Seq<u8>) -> bool {
    &&& bytes.len() > 0
    &&& bytes.last() == 0
    &&& no_zero_byte(bytes.drop_last())
}

/// `bytes` is a name as the native layer writes it: UTF-8 text without a
/// zero byte, followed by one zero byte.
pub open spec fn well_formed_name(bytes: Seq<u8>) -> bool {
    zero_terminated(bytes) && valid_utf8(bytes.drop_last())
}

/// The text of a well-formed name.
pub open spec fn name_text(bytes: Seq<u8>) -> Seq<char>
    recommends
        well_formed_name(bytes),
{
    decode_utf8(bytes.drop_last())
}

/// Checks a byte buffer for UTF-8 with `core::str::from_utf8`, which hands
/// the buffer back as text exactly when it is valid UTF-8.  The text then has
/// the characters that the bytes encode.
#[verifier::external_body]
fn utf8_text<'a>(bytes: &'a [u8]) -> (r: Option<&'a str>)
    ensures
        r is Some <==> valid_utf8(bytes@),
        r matches Some(text) ==> text@ == decode_utf8(bytes@),
{
    match core::str::from_utf8(bytes) {
        Ok(text) => Some(text),
        Err(_) => None,
    }
}

/// Whether no byte of `bytes` is zero.
pub fn has_no_zero_byte(bytes: &[u8]) -> (r: bool)
    ensures
        r == no_zero_byte(bytes@),
{
    let mut i: usize = 0;
    while i < bytes.len()
        invariant
            i <= bytes.len(),
            forall|k: int| 0 <= k < i ==> bytes@[k] != 0,
        decreases bytes.len() - i,
    {
        if bytes[i] == 0 {
            return false;
        }
        i += 1;
    }
    true
}

/// Writes `name` down for the native layer: its UTF-8 bytes and a closing
/// zero byte.  A name that holds a zero byte cannot be written down and is
/// refused as [`Error::InvalidInput`].
pub fn to_c_bytes(name: &str) -> (r: Result<Vec<u8>, Error>)
    ensures
        no_zero_byte(name.spec_bytes()) ==> r is Ok && r->Ok_0@ == name.spec_bytes().push(0),
        !no_zero_byte(name.spec_bytes()) ==> r == Err::<Vec<u8>, Error>(Error::InvalidInput),
{
    let bytes = name.as_bytes();
    if !has_no_zero_byte(bytes) {
        return Err(Error::InvalidInput);
    }
    let mut out: Vec<u8> = Vec::new();
    let mut i: usize = 0;
    while i < bytes.len()
        invariant
            i <= bytes.len(),
            out@ == bytes@.subrange(0, i as int),
        decreases bytes.len() - i,
    {
        out.push(bytes[i]);
        assert(out@ =~= bytes@.subrange(0, i + 1));
        i += 1;
    }
    assert(bytes@.subrange(0, i as int) =~= bytes@);
    out.push(0);
    Ok(out)
}

/// Reads a name that the native layer wrote: the text before its closing
/// zero byte.  A buffer that is not a well-formed name is refused as
/// [`Error::DecodingError`].
pub fn from_c_bytes(bytes: &[u8]) -> (r: Result<String, Error>)
    ensures
        well_formed_name(bytes@) ==> r is Ok && r->Ok_0@ == name_text(bytes@),
        !well_formed_name(bytes@) ==> r == Err::<String, Error>(Error::DecodingError),
{
    let n: usize = bytes.len();
    if n == 0 {
        return Err(Error::DecodingError);
    }
    if bytes[n - 1] != 0 {
        return Err(Error::DecodingError);
    }
    let body = slice_subrange(bytes, 0, n - 1);
    assert(body@ =~= bytes@.drop_last());
    if !has_no_zero_byte(body) {
        return Err(Error::DecodingError);
    }
    match utf8_text(body) {
        Some(text) => Ok(text.to_owned()),
        None => Err(Error::DecodingError),
    }
}

/// A name without a zero byte that is written down for the native layer is
/// well formed, and reading it gives the name back.
pub proof fn lemma_name_round_trip(text: Seq<char>)
    requires
        no_zero_byte(encode_utf8(text)),
    ensures
        well_formed_name(encode_utf8(text).push(0)),
        name_text(encode_utf8(text).push(0)) == text,
{
    let written = encode_utf8(text).push(0);
    assert(written.drop_last() =~= encode_utf8(text));
    vstd::utf8::encode_utf8_valid_utf8(text);
    vstd::utf8::encode_utf8_decode_utf8(text);
}

} // verus!

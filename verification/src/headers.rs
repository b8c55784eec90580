//! What can be the name and the value of a header.

use vstd::prelude::*;

verus! {

/// Whether a byte can stand in the value of a header: no control character
/// but the tab.
pub open spec fn is_header_value_byte(byte: u8) -> bool {
    byte >= 32 && byte != 127 || byte == 9
}

/// Whether the bytes can be the value of a header.
pub open spec fn is_header_value(bytes: Seq<u8>) -> bool {
    forall|i: int| 0 <= i < bytes.len() ==> is_header_value_byte(#[trigger] bytes[i])
}

/// The value of a header made of the bytes: the bytes themselves if each of
/// them can stand in the value of a header, and nothing otherwise.
pub fn header_value_of(bytes: &[u8]) -> (value: Option<Vec<u8>>)
    ensures
        value is Some <==> is_header_value(bytes@),
        value matches Some(kept) ==> kept@ == bytes@,
{
    let mut kept: Vec<u8> = Vec::new();
    let mut i: usize = 0;
    while i < bytes.len()
        invariant
            i <= bytes.len(),
            kept@ == bytes@.take(i as int),
            forall|k: int| 0 <= k < i ==> is_header_value_byte(#[trigger] bytes@[k]),
        decreases bytes.len() - i,
    {
        let byte = bytes[i];
        if !(byte >= 32 && byte != 127 || byte == 9) {
            return None;
        }
        kept.push(byte);
        assert(kept@ =~= bytes@.take(i + 1));
        i += 1;
    }
    assert(bytes@.take(bytes.len() as int) =~= bytes@);
    Some(kept)
}

/// The name of a header as `http::HeaderName` has it, for bytes that are a
/// header name: the bytes in lower case. Nothing for bytes that are none.
pub uninterp spec fn header_name(bytes: Seq<u8>) -> Option<Seq<char>>;

/// The content of an optional string.
pub open spec fn name_view(name: Option<String>) -> Option<Seq<char>> {
    match name {
        Some(name) => Some(name@),
        None => None,
    }
}

/// `http::header::HeaderName::from_bytes` and `HeaderName::as_str`: the
/// normalized name, if the bytes are the name of a header.
#[verifier::external_body]
pub(crate) fn header_name_of(bytes: &[u8]) -> (name: Option<String>)
    ensures
        name_view(name) == header_name(bytes@),
{
    match http::header::HeaderName::from_bytes(bytes) {
        Ok(name) => Some(name.as_str().to_owned()),
        Err(_) => None,
    }
}

} // verus!

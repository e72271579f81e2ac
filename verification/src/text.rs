//! Text at the foreign boundary: byte buffers that come in and NUL-terminated
//! buffers that go out.

use vstd::prelude::*;
use vstd::slice::slice_to_vec;
use vstd::string::StringSliceAdditionalSpecFns;
use vstd::utf8::{decode_utf8, encode_utf8, encode_utf8_decode_utf8, encode_utf8_valid_utf8, valid_utf8};

verus! {

#[verifier::external_type_specification]
#[verifier::external_body]
pub struct ExUtf8Error(core::str::Utf8Error);

/// `core::str::from_utf8` succeeds exactly on well-formed UTF-8, and the text
/// it returns is made of the bytes it was given.
pub assume_specification[ core::str::from_utf8 ](bytes: &[u8]) -> (text: Result<
    &str,
    core::str::Utf8Error,
>)
    ensures
        text is Ok <==> valid_utf8(bytes@),
        text matches Ok(s) ==> s.spec_bytes() == bytes@,
;

/// Why an incoming buffer is no text.
#[derive(Clone, Debug)]
pub enum DecodeError {
    /// There is no buffer.
    Null,
    /// The buffer is not UTF-8; `detail` says where it goes wrong.
    InvalidUtf8 { detail: String },
}

/// The text in an incoming buffer, if there is one.
pub open spec fn decoded(buffer: Option<&[u8]>) -> Option<Seq<char>> {
    match buffer {
        Some(bytes) => if valid_utf8(bytes@) {
            Some(decode_utf8(bytes@))
        } else {
            None
        },
        None => None,
    }
}

/// Reads an incoming buffer as text. A missing buffer and a buffer that is
/// not UTF-8 are errors, each of its own kind.
pub fn decode<'a>(buffer: Option<&'a [u8]>) -> (text: Result<&'a str, DecodeError>)
    ensures
        match text {
            Ok(s) => decoded(buffer) == Some(s@),
            Err(DecodeError::Null) => buffer is None,
            Err(DecodeError::InvalidUtf8 { .. }) => buffer matches Some(bytes) && !valid_utf8(
                bytes@,
            ),
        },
{
    match buffer {
        None => Err(DecodeError::Null),
        Some(bytes) => {
            match core::str::from_utf8(bytes) {
                Ok(s) => {
                    proof {
                        encode_utf8_decode_utf8(s@);
                    }
                    Ok(s)
                },
                Err(cause) => Err(DecodeError::InvalidUtf8 { detail: cause.to_string() }),
            }
        },
    }
}

/// The outgoing buffer for a text: its UTF-8 bytes and a closing NUL. A text
/// that holds a NUL itself cannot go out in this form; the empty text goes
/// out in its place.
pub open spec fn c_text_of(text: Seq<char>) -> Seq<u8> {
    let bytes = encode_utf8(text);
    if bytes.contains(0u8) {
        seq![0u8]
    } else {
        bytes.push(0u8)
    }
}

/// A well-formed outgoing buffer: UTF-8 without a NUL, closed by one NUL.
pub open spec fn is_c_text(buffer: Seq<u8>) -> bool {
    &&& buffer.len() > 0
    &&& buffer.last() == 0u8
    &&& !buffer.drop_last().contains(0u8)
    &&& valid_utf8(buffer.drop_last())
}

/// Every outgoing buffer is well formed.
pub proof fn lemma_c_text_is_well_formed(text: Seq<char>)
    ensures
        is_c_text(c_text_of(text)),
{
    let bytes = encode_utf8(text);
    if bytes.contains(0u8) {
        assert(seq![0u8].drop_last() =~= Seq::<u8>::empty());
        assert(valid_utf8(Seq::<u8>::empty()));
    } else {
        assert(bytes.push(0u8).drop_last() =~= bytes);
        encode_utf8_valid_utf8(text);
    }
}

/// A text as a C text: its UTF-8 bytes and a closing NUL. A text that holds
/// a NUL has no such form: the error is the position of a NUL in its bytes,
/// before which there is none.
pub fn c_string(text: &str) -> (result: Result<Vec<u8>, usize>)
    ensures
        match result {
            Ok(buffer) => !encode_utf8(text@).contains(0u8) && buffer@ == encode_utf8(text@).push(
                0u8,
            ),
            Err(position) => {
                &&& position < encode_utf8(text@).len()
                &&& encode_utf8(text@)[position as int] == 0u8
                &&& forall|i: int| 0 <= i < position ==> encode_utf8(text@)[i] != 0u8
            },
        },
        result is Ok ==> is_c_text(result->Ok_0@),
{
    let bytes = text.as_bytes();
    let mut at: usize = 0;
    while at < bytes.len()
        invariant
            bytes@ == encode_utf8(text@),
            at <= bytes@.len(),
            forall|i: int| 0 <= i < at ==> bytes@[i] != 0u8,
        decreases bytes@.len() - at,
    {
        if bytes[at] == 0 {
            return Err(at);
        }
        at = at + 1;
    }
    let mut buffer = slice_to_vec(bytes);
    buffer.push(0);
    proof {
        assert(!bytes@.contains(0u8));
        assert(buffer@ =~= bytes@.push(0u8));
        lemma_c_text_is_well_formed(text@);
    }
    Ok(buffer)
}

/// Makes the outgoing buffer for a text: its C text, and the empty C text
/// for a text that has none.
pub fn to_c_string(rust_string: String) -> (buffer: Vec<u8>)
    ensures
        buffer@ == c_text_of(rust_string@),
        is_c_text(buffer@),
{
    match c_string(rust_string.as_str()) {
        Ok(buffer) => buffer,
        Err(position) => {
            let mut empty: Vec<u8> = Vec::new();
            empty.push(0);
            proof {
                assert(encode_utf8(rust_string@).contains(0u8));
                assert(empty@ =~= seq![0u8]);
                lemma_c_text_is_well_formed(rust_string@);
            }
            empty
        },
    }
}

} // verus!

//! Turning the bytes of a response body into text.
//!
//! Inflating a compressed body is left to the `libflate` and `brotli`
//! crates; what they return has a name here and no definition. Everything
//! around those calls is decided and proved in this module.

use crate::encoding::{brotli_tag, codec_of, deflate_tag, gzip_tag, Codec, ContentEncoding};
use std::io::Read;
use vstd::prelude::*;
use vstd::utf8::{
    decode_utf8, encode_utf8, encode_utf8_decode_utf8, encode_utf8_valid_utf8, valid_utf8,
};

verus! {

/// Why a body gave no text.
#[derive(Debug, Clone, Copy, PartialEq, Eq, Structural)]
pub enum DecodeFailure {
    /// The compressed stream is damaged, or the bytes are no UTF-8 text.
    Corrupt,
    /// The response declared a coding that was never offered.
    UnsupportedEncoding,
}

/// The bytes that a gzip stream inflates to, `None` where the stream is
/// rejected.
pub uninterp spec fn gzip_inflated(data: Seq<u8>) -> Option<Seq<u8>>;

/// The bytes that a raw deflate stream inflates to, `None` where the stream
/// is rejected.
pub uninterp spec fn deflate_inflated(data: Seq<u8>) -> Option<Seq<u8>>;

/// The bytes that a brotli stream inflates to, `None` where the stream is
/// rejected.
pub uninterp spec fn brotli_inflated(data: Seq<u8>) -> Option<Seq<u8>>;

/// The view of optional bytes.
pub open spec fn bytes_view(bytes: Option<Vec<u8>>) -> Option<Seq<u8>> {
    match bytes {
        Some(v) => Some(v@),
        None => None,
    }
}

/// The view of a text or the failure in its place.
pub open spec fn text_view<E>(text: Result<String, E>) -> Result<Seq<char>, E> {
    match text {
        Ok(s) => Ok(s@),
        Err(e) => Err(e),
    }
}

/// The raw bytes behind a body in a given coding.
pub open spec fn inflated(codec: Codec, body: Seq<u8>) -> Option<Seq<u8>> {
    match codec {
        Codec::Identity => Some(body),
        Codec::Gzip => gzip_inflated(body),
        Codec::Deflate => deflate_inflated(body),
        Codec::Brotli => brotli_inflated(body),
        Codec::Unsupported(_) => None,
    }
}

/// The text that inflated bytes hold: the bytes read as UTF-8, and
/// `Corrupt` where inflation failed or the bytes are not UTF-8.
pub open spec fn text_of(raw: Option<Seq<u8>>) -> Result<Seq<char>, DecodeFailure> {
    match raw {
        Some(bytes) => if valid_utf8(bytes) {
            Ok(decode_utf8(bytes))
        } else {
            Err(DecodeFailure::Corrupt)
        },
        None => Err(DecodeFailure::Corrupt),
    }
}

/// The text of a body in a given coding.
pub open spec fn decoded(codec: Codec, body: Seq<u8>) -> Result<Seq<char>, DecodeFailure> {
    if codec is Unsupported {
        Err(DecodeFailure::UnsupportedEncoding)
    } else {
        text_of(inflated(codec, body))
    }
}

/// Calls `libflate::gzip::Decoder::new` on the bytes and reads the decoder
/// to its end. Trusted: the outcome depends on the bytes alone, and is
/// `None` exactly where the header, the stream or its checksum is rejected.
#[verifier::external_body]
fn gzip_inflate(data: &Vec<u8>) -> (out: Option<Vec<u8>>)
    ensures
        bytes_view(out) == gzip_inflated(data@),
{
    let mut decoder = match libflate::gzip::Decoder::new(&data[..]) {
        Ok(decoder) => decoder,
        Err(_) => return None,
    };
    let mut raw = Vec::new();
    match decoder.read_to_end(&mut raw) {
        Ok(_) => Some(raw),
        Err(_) => None,
    }
}

/// Calls `libflate::deflate::Decoder::new` on the bytes and reads the
/// decoder to its end. Trusted: the outcome depends on the bytes alone, and
/// is `None` exactly where the stream is rejected.
#[verifier::external_body]
fn deflate_inflate(data: &Vec<u8>) -> (out: Option<Vec<u8>>)
    ensures
        bytes_view(out) == deflate_inflated(data@),
{
    let mut decoder = libflate::deflate::Decoder::new(&data[..]);
    let mut raw = Vec::new();
    match decoder.read_to_end(&mut raw) {
        Ok(_) => Some(raw),
        Err(_) => None,
    }
}

/// Calls `brotli::Decompressor::new` on the bytes, with a buffer as long as
/// the input, and reads it to its end. Trusted: the outcome depends on the
/// bytes alone, and is `None` exactly where the stream is rejected.
#[verifier::external_body]
fn brotli_inflate(data: &Vec<u8>) -> (out: Option<Vec<u8>>)
    ensures
        bytes_view(out) == brotli_inflated(data@),
{
    let mut decoder = brotli::Decompressor::new(&data[..], data.len());
    let mut raw = Vec::new();
    match decoder.read_to_end(&mut raw) {
        Ok(_) => Some(raw),
        Err(_) => None,
    }
}

/// Calls `String::from_utf8`. Trusted: the call succeeds exactly on valid
/// UTF-8, and the string then holds the characters that the bytes encode.
#[verifier::external_body]
fn string_from_utf8(bytes: Vec<u8>) -> (out: Option<String>)
    ensures
        out.is_some() == valid_utf8(bytes@),
        out matches Some(s) ==> s@ == decode_utf8(bytes@),
{
    match String::from_utf8(bytes) {
        Ok(s) => Some(s),
        Err(_) => None,
    }
}

/// Inflates a body according to its coding. A body without a coding is
/// handed back unchanged; an unsupported coding gives nothing.
pub fn inflate(encoding: &ContentEncoding, body: Vec<u8>) -> (raw: Option<Vec<u8>>)
    ensures
        bytes_view(raw) == inflated(encoding@, body@),
{
    match encoding {
        ContentEncoding::Identity => Some(body),
        ContentEncoding::Gzip => gzip_inflate(&body),
        ContentEncoding::Deflate => deflate_inflate(&body),
        ContentEncoding::Brotli => brotli_inflate(&body),
        ContentEncoding::Unsupported(_) => None,
    }
}

/// Reads inflated bytes as text. Missing bytes and bytes that are not UTF-8
/// are both reported as `Corrupt`.
pub fn read_text(raw: Option<Vec<u8>>) -> (text: Result<String, DecodeFailure>)
    ensures
        text_view(text) == text_of(bytes_view(raw)),
{
    match raw {
        None => Err(DecodeFailure::Corrupt),
        Some(bytes) => match string_from_utf8(bytes) {
            Some(s) => Ok(s),
            None => Err(DecodeFailure::Corrupt),
        },
    }
}

/// Decodes a response body to text: inflates it by the declared coding and
/// reads the result as UTF-8.
pub fn decode_body(encoding: &ContentEncoding, body: Vec<u8>) -> (text: Result<
    String,
    DecodeFailure,
>)
    ensures
        text_view(text) == decoded(encoding@, body@),
{
    if !encoding.is_supported() {
        return Err(DecodeFailure::UnsupportedEncoding);
    }
    read_text(inflate(encoding, body))
}

/// A body whose coding gives back the UTF-8 bytes of a text decodes to that
/// text, character for character. With [`codec_of`] reading `gzip`,
/// `deflate` and `br` as the codings of those names, a body that was packed
/// with the coding its header declares comes back as it was.
pub proof fn lemma_inflated_text_is_returned(codec: Codec, body: Seq<u8>, text: Seq<char>)
    requires
        inflated(codec, body) == Some(encode_utf8(text)),
    ensures
        decoded(codec, body) == Ok::<Seq<char>, DecodeFailure>(text),
{
    encode_utf8_valid_utf8(text);
    encode_utf8_decode_utf8(text);
}

/// The header values `gzip`, `deflate` and `br` pick the coding of their
/// name, and a missing header leaves the body as it is.
pub proof fn lemma_header_picks_matching_coding(body: Seq<u8>)
    ensures
        inflated(codec_of(Some(gzip_tag())), body) == gzip_inflated(body),
        inflated(codec_of(Some(deflate_tag())), body) == deflate_inflated(body),
        inflated(codec_of(Some(brotli_tag())), body) == brotli_inflated(body),
        inflated(codec_of(None), body) == Some(body),
{
    assert(deflate_tag().len() != gzip_tag().len());
    assert(brotli_tag().len() != gzip_tag().len());
    assert(brotli_tag().len() != deflate_tag().len());
}

} // verus!

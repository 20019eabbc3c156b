//! The content coding that a response declares for its body.

use vstd::prelude::*;

verus! {

/// The coding named by a response's `Content-Encoding` header.
///
/// Only gzip, deflate and brotli are ever offered to a server, so any other
/// declared value is kept as it came and marks the response as invalid.
#[derive(Debug, Clone, PartialEq, Eq)]
pub enum ContentEncoding {
    /// No header: the body is sent as it is.
    Identity,
    /// The header value `gzip`.
    Gzip,
    /// The header value `deflate`.
    Deflate,
    /// The header value `br`.
    Brotli,
    /// Any other header value, byte for byte.
    Unsupported(Vec<u8>),
}

/// The mathematical reading of a [`ContentEncoding`].
pub enum Codec {
    Identity,
    Gzip,
    Deflate,
    Brotli,
    Unsupported(Seq<u8>),
}

impl View for ContentEncoding {
    type V = Codec;

    open spec fn view(&self) -> Codec {
        match self {
            ContentEncoding::Identity => Codec::Identity,
            ContentEncoding::Gzip => Codec::Gzip,
            ContentEncoding::Deflate => Codec::Deflate,
            ContentEncoding::Brotli => Codec::Brotli,
            ContentEncoding::Unsupported(raw) => Codec::Unsupported(raw@),
        }
    }
}

/// The bytes of the header value `gzip`.
pub open spec fn gzip_tag() -> Seq<u8> {
    seq![0x67u8, 0x7au8, 0x69u8, 0x70u8]
}

/// The bytes of the header value `deflate`.
pub open spec fn deflate_tag() -> Seq<u8> {
    seq![0x64u8, 0x65u8, 0x66u8, 0x6cu8, 0x61u8, 0x74u8, 0x65u8]
}

/// The bytes of the header value `br`.
pub open spec fn brotli_tag() -> Seq<u8> {
    seq![0x62u8, 0x72u8]
}

/// The view of an optional header value.
pub open spec fn header_view(header: Option<Vec<u8>>) -> Option<Seq<u8>> {
    match header {
        Some(raw) => Some(raw@),
        None => None,
    }
}

/// The coding that a header value stands for. The comparison is exact:
/// case and surrounding blanks count.
pub open spec fn codec_of(header: Option<Seq<u8>>) -> Codec {
    match header {
        None => Codec::Identity,
        Some(raw) => if raw == gzip_tag() {
            Codec::Gzip
        } else if raw == deflate_tag() {
            Codec::Deflate
        } else if raw == brotli_tag() {
            Codec::Brotli
        } else {
            Codec::Unsupported(raw)
        },
    }
}

/// Whether a coding is one of those a body can be decoded from.
pub open spec fn is_supported(codec: Codec) -> bool {
    !(codec is Unsupported)
}

fn is_gzip(raw: &Vec<u8>) -> (r: bool)
    ensures
        r == (raw@ == gzip_tag()),
{
    let r = raw.len() == 4 && raw[0] == 0x67 && raw[1] == 0x7a && raw[2] == 0x69 && raw[3] == 0x70;
    proof {
        if r {
            assert(raw@ =~= gzip_tag());
        }
    }
    r
}

fn is_deflate(raw: &Vec<u8>) -> (r: bool)
    ensures
        r == (raw@ == deflate_tag()),
{
    let r = raw.len() == 7 && raw[0] == 0x64 && raw[1] == 0x65 && raw[2] == 0x66 && raw[3] == 0x6c
        && raw[4] == 0x61 && raw[5] == 0x74 && raw[6] == 0x65;
    proof {
        if r {
            assert(raw@ =~= deflate_tag());
        }
    }
    r
}

fn is_brotli(raw: &Vec<u8>) -> (r: bool)
    ensures
        r == (raw@ == brotli_tag()),
{
    let r = raw.len() == 2 && raw[0] == 0x62 && raw[1] == 0x72;
    proof {
        if r {
            assert(raw@ =~= brotli_tag());
        }
    }
    r
}

impl ContentEncoding {
    /// Reads the coding off a `Content-Encoding` header value, `None` where
    /// the response carries no such header.
    pub fn from_header(header: Option<Vec<u8>>) -> (encoding: ContentEncoding)
        ensures
            encoding@ == codec_of(header_view(header)),
    {
        match header {
            None => ContentEncoding::Identity,
            Some(raw) => {
                if is_gzip(&raw) {
                    ContentEncoding::Gzip
                } else if is_deflate(&raw) {
                    ContentEncoding::Deflate
                } else if is_brotli(&raw) {
                    ContentEncoding::Brotli
                } else {
                    ContentEncoding::Unsupported(raw)
                }
            },
        }
    }

    /// Whether a body in this coding can be decoded.
    pub fn is_supported(&self) -> (r: bool)
        ensures
            r == is_supported(self@),
    {
        match self {
            ContentEncoding::Unsupported(_) => false,
            _ => true,
        }
    }
}

} // verus!
